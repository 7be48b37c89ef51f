//! Multi-engine daemon status: reading its state file and health endpoint,
//! waiting decisions for startup, and the merge of on-disk state with what
//! the live daemon reports. The HTTP call and the JSON decoder sit behind
//! trusted items; every decision over what they return is verified.

use vstd::prelude::*;
use vstd::string::*;
use crate::text::{joined, trimmed};

verus! {

/// The daemon's own connection info, as its state file and health endpoint
/// report it.
#[derive(Clone, Debug)]
pub struct OpenwrkDaemonState {
    pub pid: Option<u32>,
    pub port: Option<u16>,
    pub base_url: String,
}

/// The engine the daemon manages, as reported by it.
#[derive(Clone, Copy, PartialEq, Eq, Structural, Debug)]
pub struct OpenwrkOpencodeState {
    pub pid: u32,
    pub port: u16,
}

/// One workspace the daemon knows.
#[derive(Clone, Debug)]
pub struct OpenwrkWorkspace {
    pub id: String,
    pub path: String,
}

/// The daemon's on-disk state file.
pub struct OpenwrkStateFile {
    pub version: Option<u32>,
    pub daemon: Option<OpenwrkDaemonState>,
    pub opencode: Option<OpenwrkOpencodeState>,
    pub active_id: Option<String>,
    pub workspaces: Vec<OpenwrkWorkspace>,
}

/// What the daemon's health endpoint reports.
pub struct OpenwrkHealth {
    pub ok: bool,
    pub daemon: Option<OpenwrkDaemonState>,
    pub opencode: Option<OpenwrkOpencodeState>,
    pub active_id: Option<String>,
    pub workspace_count: Option<u64>,
}

/// What the daemon's workspace endpoint reports.
pub struct OpenwrkWorkspaceList {
    pub active_id: Option<String>,
    pub workspaces: Vec<OpenwrkWorkspace>,
}

/// The daemon status handed to callers.
pub struct OpenwrkStatus {
    pub running: bool,
    pub data_dir: String,
    pub daemon: Option<OpenwrkDaemonState>,
    pub opencode: Option<OpenwrkOpencodeState>,
    pub active_id: Option<String>,
    pub workspace_count: u64,
    pub workspaces: Vec<OpenwrkWorkspace>,
    pub last_error: Option<String>,
}

/// The daemon's data directory: the first non-blank override from the
/// environment, then the conventional folder under home, then a relative
/// fallback.
pub fn resolve_openwrk_data_dir(
    env_primary: Option<String>,
    env_secondary: Option<String>,
    home: Option<String>,
) -> (r: String)
    ensures
        ({
            let primary_set = env_primary matches Some(v) && trimmed(v@).len() > 0;
            let secondary_set = env_secondary matches Some(v) && trimmed(v@).len() > 0;
            &&& primary_set ==> (env_primary matches Some(v) && r@ == v@)
            &&& !primary_set && secondary_set ==> (env_secondary matches Some(v) && r@ == v@)
            &&& !primary_set && !secondary_set ==> match home {
                Some(h) => r@ == joined(h@, ".openwork/openwrk"@),
                None => r@ == ".openwork/openwrk"@,
            }
        }),
{
    if let Some(v) = env_primary {
        let t = crate::text::trim_str(v.as_str());
        if t.as_str().unicode_len() > 0 {
            return v;
        }
    }
    if let Some(v) = env_secondary {
        let t = crate::text::trim_str(v.as_str());
        if t.as_str().unicode_len() > 0 {
            return v;
        }
    }
    match home {
        Some(h) => crate::text::join_path(h.as_str(), ".openwork/openwrk"),
        None => String::from_str(".openwork/openwrk"),
    }
}

/// Where the daemon's state file lives inside its data directory.
pub fn openwrk_state_path(data_dir: &str) -> (r: String)
    ensures
        r@ == joined(data_dir@, "openwrk-state.json"@),
{
    crate::text::join_path(data_dir, "openwrk-state.json")
}

/// A base URL with trailing slashes removed.
pub open spec fn trim_slash_back(s: Seq<char>) -> Seq<char>
    decreases s.len(),
{
    if s.len() == 0 {
        s
    } else if s.last() == '/' {
        trim_slash_back(s.drop_last())
    } else {
        s
    }
}

proof fn lemma_trim_slash_back_take(s: Seq<char>, j: int)
    requires
        0 <= j <= s.len(),
        forall|k: int| j <= k < s.len() ==> s[k] == '/',
    ensures
        trim_slash_back(s) == trim_slash_back(s.take(j)),
    decreases s.len() - j,
{
    if j < s.len() {
        assert(s.last() == '/');
        assert(s.drop_last() =~= s.take(s.len() - 1));
        assert(s.take(s.len() - 1).take(j) =~= s.take(j));
        lemma_trim_slash_back_take(s.take(s.len() - 1), j);
    } else {
        assert(s.take(s.len() as int) =~= s);
    }
}

/// An endpoint under a base URL: the base without its trailing slashes, then
/// the endpoint's own path.
pub fn endpoint_url(base_url: &str, endpoint: &str) -> (r: String)
    ensures
        r@ == trim_slash_back(base_url@) + endpoint@,
{
    let n = base_url.unicode_len();
    let mut end: usize = n;
    while end > 0 && base_url.get_char(end - 1) == '/'
        invariant
            end <= n,
            n == base_url@.len(),
            forall|k: int| end <= k < n ==> base_url@[k] == '/',
        decreases end,
    {
        end = end - 1;
    }
    let piece = base_url.substring_char(0, end);
    let mut out = String::from_str(piece);
    out.append(endpoint);
    proof {
        lemma_trim_slash_back_take(base_url@, end as int);
        if end > 0 {
            assert(base_url@[end - 1] != '/');
            assert(trim_slash_back(base_url@.take(end as int)) =~= base_url@.take(end as int));
        } else {
            assert(base_url@.take(0) =~= Seq::<char>::empty());
        }
        assert(base_url@.take(end as int) =~= base_url@.subrange(0, end as int));
    }
    out
}

/// Relies on `ureq::get(..).set(..).call()` and `Response::into_string`: one
/// GET of the URL with a JSON accept header, returning the body on success
/// and the transport or read error's text otherwise. The outcome depends on
/// the network, so nothing more is promised of it.
#[verifier::external_body]
fn http_get_json(url: &str) -> (r: Result<String, String>) {
    match ureq::get(url).set("Accept", "application/json").call() {
        Ok(resp) => match resp.into_string() {
            Ok(body) => Ok(body),
            Err(e) => Err(e.to_string()),
        },
        Err(e) => Err(e.to_string()),
    }
}

fn daemon_from_json(v: &serde_json::Value) -> (r: Option<OpenwrkDaemonState>) {
    let base_url = match crate::jsonval::json_get(v, "baseUrl") {
        Some(b) => match crate::jsonval::json_str(b) {
            Some(s) => s,
            None => {
                return None;
            },
        },
        None => {
            return None;
        },
    };
    let pid: Option<u32> = match crate::jsonval::json_get(v, "pid") {
        Some(p) => match crate::jsonval::json_u64(p) {
            Some(n) => if n <= u32::MAX as u64 {
                Some(n as u32)
            } else {
                return None;
            },
            None => None,
        },
        None => None,
    };
    let port: Option<u16> = match crate::jsonval::json_get(v, "port") {
        Some(p) => match crate::jsonval::json_u64(p) {
            Some(n) => if n <= u16::MAX as u64 {
                Some(n as u16)
            } else {
                return None;
            },
            None => None,
        },
        None => None,
    };
    Some(OpenwrkDaemonState { pid, port, base_url })
}

fn opencode_from_json(v: &serde_json::Value) -> (r: Option<OpenwrkOpencodeState>) {
    let pid: u32 = match crate::jsonval::json_get(v, "pid") {
        Some(p) => match crate::jsonval::json_u64(p) {
            Some(n) => if n <= u32::MAX as u64 {
                n as u32
            } else {
                return None;
            },
            None => {
                return None;
            },
        },
        None => {
            return None;
        },
    };
    let port: u16 = match crate::jsonval::json_get(v, "port") {
        Some(p) => match crate::jsonval::json_u64(p) {
            Some(n) => if n <= u16::MAX as u64 {
                n as u16
            } else {
                return None;
            },
            None => {
                return None;
            },
        },
        None => {
            return None;
        },
    };
    Some(OpenwrkOpencodeState { pid, port })
}

fn optional_object<'a>(v: &'a serde_json::Value, key: &str) -> (r: Option<&'a serde_json::Value>) {
    match crate::jsonval::json_get(v, key) {
        Some(inner) => if crate::jsonval::json_is_null(inner) {
            None
        } else {
            Some(inner)
        },
        None => None,
    }
}

fn optional_string(v: &serde_json::Value, key: &str) -> (r: Option<String>) {
    match crate::jsonval::json_get(v, key) {
        Some(inner) => crate::jsonval::json_str(inner),
        None => None,
    }
}

/// Decodes the health payload: the `ok` flag is required; the daemon and
/// engine descriptors, active workspace and count come along when present.
pub fn health_from_json(v: &serde_json::Value) -> (r: Option<OpenwrkHealth>) {
    let ok = match crate::jsonval::json_get(v, "ok") {
        Some(b) => match crate::jsonval::json_bool(b) {
            Some(ok) => ok,
            None => {
                return None;
            },
        },
        None => {
            return None;
        },
    };
    let daemon = match optional_object(v, "daemon") {
        Some(d) => daemon_from_json(d),
        None => None,
    };
    let opencode = match optional_object(v, "opencode") {
        Some(o) => opencode_from_json(o),
        None => None,
    };
    let active_id = optional_string(v, "activeId");
    let workspace_count = match crate::jsonval::json_get(v, "workspaceCount") {
        Some(c) => crate::jsonval::json_u64(c),
        None => None,
    };
    Some(OpenwrkHealth { ok, daemon, opencode, active_id, workspace_count })
}

fn workspaces_from_value(v: &serde_json::Value) -> (r: Vec<OpenwrkWorkspace>) {
    let mut out: Vec<OpenwrkWorkspace> = Vec::new();
    if let Some(arr) = crate::jsonval::json_array(v) {
        let mut i: usize = 0;
        while i < arr.len()
            decreases arr@.len() - i,
        {
            let entry = &arr[i];
            let id = optional_string(entry, "id");
            let path = optional_string(entry, "path");
            if let (Some(id), Some(path)) = (id, path) {
                out.push(OpenwrkWorkspace { id, path });
            }
            i = i + 1;
        }
    }
    out
}

/// Decodes the daemon's state file payload.
pub fn state_file_from_json(v: &serde_json::Value) -> (r: OpenwrkStateFile) {
    let version = match crate::jsonval::json_get(v, "version") {
        Some(n) => match crate::jsonval::json_u64(n) {
            Some(n) => if n <= u32::MAX as u64 {
                Some(n as u32)
            } else {
                None
            },
            None => None,
        },
        None => None,
    };
    let daemon = match optional_object(v, "daemon") {
        Some(d) => daemon_from_json(d),
        None => None,
    };
    let opencode = match optional_object(v, "opencode") {
        Some(o) => opencode_from_json(o),
        None => None,
    };
    let active_id = optional_string(v, "activeId");
    let workspaces = match crate::jsonval::json_get(v, "workspaces") {
        Some(w) => workspaces_from_value(w),
        None => Vec::new(),
    };
    OpenwrkStateFile { version, daemon, opencode, active_id, workspaces }
}

/// Decodes the workspace-list payload.
pub fn workspace_list_from_json(v: &serde_json::Value) -> (r: OpenwrkWorkspaceList) {
    let active_id = optional_string(v, "activeId");
    let workspaces = match crate::jsonval::json_get(v, "workspaces") {
        Some(w) => workspaces_from_value(w),
        None => Vec::new(),
    };
    OpenwrkWorkspaceList { active_id, workspaces }
}

fn fetch_payload(base_url: &str, endpoint: &str) -> (r: Result<serde_json::Value, String>) {
    let url = endpoint_url(base_url, endpoint);
    let body = match http_get_json(url.as_str()) {
        Ok(body) => body,
        Err(e) => {
            return Err(e);
        },
    };
    match crate::jsonval::parse_json(body.as_str()) {
        Ok(v) => Ok(v),
        Err(e) => {
            let mut msg = String::from_str("Failed to parse response: ");
            msg.append(e.as_str());
            Err(msg)
        },
    }
}

/// Fetches and decodes the daemon's health endpoint. The outcome depends on
/// the network; what is done with it is decided by verified callers.
pub fn fetch_openwrk_health(base_url: &str) -> (r: Result<OpenwrkHealth, String>) {
    let v = match fetch_payload(base_url, "/health") {
        Ok(v) => v,
        Err(e) => {
            return Err(e);
        },
    };
    match health_from_json(&v) {
        Some(h) => Ok(h),
        None => Err(String::from_str("Failed to parse response: unexpected health payload")),
    }
}

/// Fetches and decodes the daemon's workspace list.
pub fn fetch_openwrk_workspaces(base_url: &str) -> (r: Result<OpenwrkWorkspaceList, String>) {
    let v = match fetch_payload(base_url, "/workspaces") {
        Ok(v) => v,
        Err(e) => {
            return Err(e);
        },
    };
    Ok(workspace_list_from_json(&v))
}

/// One step of the health waiter's verdict on a probe outcome.
pub enum HealthWait {
    Ready(OpenwrkHealth),
    Retry(String),
}

/// Judges one health probe: a healthy report ends the wait; an unhealthy one
/// and a failed probe each leave the error to report should the wait time
/// out.
pub fn assess_health_probe(outcome: Result<OpenwrkHealth, String>) -> (r: HealthWait)
    ensures
        match outcome {
            Ok(h) => if h.ok {
                r matches HealthWait::Ready(g) && g == h
            } else {
                r matches HealthWait::Retry(e) && e@ == "Openwrk reported unhealthy"@
            },
            Err(e) => r matches HealthWait::Retry(g) && g == e,
        },
{
    match outcome {
        Ok(h) => {
            if h.ok {
                HealthWait::Ready(h)
            } else {
                HealthWait::Retry(String::from_str("Openwrk reported unhealthy"))
            }
        },
        Err(e) => HealthWait::Retry(e),
    }
}

/// The error a timed-out health wait reports: the most recent probe error, so
/// the caller sees why startup timed out, or a plain timeout note when no
/// probe ever answered.
pub fn health_timeout_error(last_error: Option<String>) -> (r: String)
    ensures
        match last_error {
            Some(e) => r == e,
            None => r@ == "Timed out waiting for openwrk"@,
        },
{
    match last_error {
        Some(e) => e,
        None => String::from_str("Timed out waiting for openwrk"),
    }
}

/// The daemon status derived from the state file alone: never running (only
/// a live health check shows that), with the file's descriptors and
/// workspaces passed through and a blank active id dropped.
pub fn openwrk_status_from_state(
    data_dir: &str,
    state: Option<OpenwrkStateFile>,
    last_error: Option<String>,
) -> (r: OpenwrkStatus)
    ensures
        !r.running,
        r.data_dir@ == data_dir@,
        r.last_error == last_error,
        match state {
            Some(s) => {
                &&& r.daemon == s.daemon
                &&& r.opencode == s.opencode
                &&& r.workspaces == s.workspaces
                &&& r.workspace_count == s.workspaces@.len()
                &&& (match s.active_id {
                    Some(a) => if trimmed(a@).len() > 0 {
                        r.active_id == Some(a)
                    } else {
                        r.active_id is None
                    },
                    None => r.active_id is None,
                })
            },
            None => {
                &&& r.daemon is None
                &&& r.opencode is None
                &&& r.workspaces@.len() == 0
                &&& r.workspace_count == 0
                &&& r.active_id is None
            },
        },
{
    match state {
        Some(s) => {
            let active_id = match s.active_id {
                Some(a) => {
                    let t = crate::text::trim_str(a.as_str());
                    if t.as_str().unicode_len() > 0 {
                        Some(a)
                    } else {
                        None
                    }
                },
                None => None,
            };
            let count = s.workspaces.len() as u64;
            OpenwrkStatus {
                running: false,
                data_dir: String::from_str(data_dir),
                daemon: s.daemon,
                opencode: s.opencode,
                active_id,
                workspace_count: count,
                workspaces: s.workspaces,
                last_error,
            }
        },
        None => OpenwrkStatus {
            running: false,
            data_dir: String::from_str(data_dir),
            daemon: None,
            opencode: None,
            active_id: None,
            workspace_count: 0,
            workspaces: Vec::new(),
            last_error,
        },
    }
}

/// Merges a live health report (and, when it came, the workspace list) over
/// the state-file fallback: a reachable daemon decides `running` and the
/// descriptors; a failed probe leaves the fallback with the error recorded.
pub fn combine_status(
    fallback: OpenwrkStatus,
    health: Result<OpenwrkHealth, String>,
    payload: Option<OpenwrkWorkspaceList>,
) -> (r: OpenwrkStatus)
    ensures
        r.data_dir == fallback.data_dir,
        match health {
            Err(e) => {
                &&& r.running == fallback.running
                &&& r.daemon == fallback.daemon
                &&& r.opencode == fallback.opencode
                &&& r.active_id == fallback.active_id
                &&& r.workspace_count == fallback.workspace_count
                &&& r.workspaces == fallback.workspaces
                &&& r.last_error == Some(e)
            },
            Ok(h) => {
                &&& r.running == h.ok
                &&& r.daemon == h.daemon
                &&& r.opencode == h.opencode
                &&& r.last_error is None
                &&& (match payload {
                    Some(p) => r.workspaces == p.workspaces && r.workspace_count
                        == p.workspaces@.len(),
                    None => r.workspaces == fallback.workspaces && r.workspace_count == (
                    match h.workspace_count {
                        Some(n) => n,
                        None => fallback.workspaces@.len() as u64,
                    }),
                })
                &&& ({
                    let candidate = match payload {
                        Some(p) => match p.active_id {
                            Some(a) => Some(a),
                            None => h.active_id,
                        },
                        None => h.active_id,
                    };
                    match candidate {
                        Some(a) => if trimmed(a@).len() > 0 {
                            r.active_id == Some(a)
                        } else {
                            r.active_id is None
                        },
                        None => r.active_id is None,
                    }
                })
            },
        },
{
    match health {
        Err(e) => OpenwrkStatus { last_error: Some(e), ..fallback },
        Ok(h) => {
            let (pl_active, pl_workspaces) = match payload {
                Some(p) => (Some(p.active_id), Some(p.workspaces)),
                None => (None, None),
            };
            let (workspaces, workspace_count) = match pl_workspaces {
                Some(ws) => {
                    let n = ws.len() as u64;
                    (ws, n)
                },
                None => {
                    let n = match h.workspace_count {
                        Some(n) => n,
                        None => fallback.workspaces.len() as u64,
                    };
                    (fallback.workspaces, n)
                },
            };
            let candidate = match pl_active {
                Some(inner) => match inner {
                    Some(a) => Some(a),
                    None => h.active_id,
                },
                None => h.active_id,
            };
            let active_id = match candidate {
                Some(a) => {
                    let t = crate::text::trim_str(a.as_str());
                    if t.as_str().unicode_len() > 0 {
                        Some(a)
                    } else {
                        None
                    }
                },
                None => None,
            };
            OpenwrkStatus {
                running: h.ok,
                data_dir: fallback.data_dir,
                daemon: h.daemon,
                opencode: h.opencode,
                active_id,
                workspace_count,
                workspaces,
                last_error: None,
            }
        },
    }
}

/// The engine status reported in daemon mode: the daemon's verdict decides
/// `running`; the managed engine's loopback URL, port and pid are derived
/// from its descriptor; the project directory is the active workspace's path
/// when one is known, else the caller's fallback.
pub fn engine_info_for_daemon(
    status: &OpenwrkStatus,
    fallback_project_dir: Option<String>,
    last_stdout: Option<String>,
    last_stderr: Option<String>,
) -> (r: crate::types::EngineInfo)
    ensures
        r.running == status.running,
        (match status.opencode {
            Some(o) => {
                &&& (r.base_url matches Some(u) && u@ == "http://"@ + "127.0.0.1"@ + ":"@
                    + crate::text::dec_digits(o.port as nat))
                &&& r.port == Some(o.port)
                &&& r.pid == Some(o.pid)
            },
            None => r.base_url is None && r.port is None && r.pid is None,
        }),
        (r.hostname matches Some(h) && h@ == "127.0.0.1"@),
        r.last_stdout == last_stdout,
        r.last_stderr == last_stderr,
{
    let (base_url, port, pid) = match &status.opencode {
        Some(o) => (
            Some(crate::orchestrator::base_url_for("127.0.0.1", o.port)),
            Some(o.port),
            Some(o.pid),
        ),
        None => (None, None, None),
    };
    let mut project_dir: Option<String> = None;
    if let Some(active) = &status.active_id {
        let mut i: usize = 0;
        while i < status.workspaces.len()
            invariant
                i <= status.workspaces@.len(),
            decreases status.workspaces@.len() - i,
        {
            if crate::text::str_eq(status.workspaces[i].id.as_str(), active.as_str()) {
                project_dir = Some(status.workspaces[i].path.clone());
                break ;
            }
            i = i + 1;
        }
    }
    let project_dir = match project_dir {
        Some(p) => Some(p),
        None => fallback_project_dir,
    };
    crate::types::EngineInfo {
        running: status.running,
        base_url,
        project_dir,
        hostname: Some(String::from_str("127.0.0.1")),
        port,
        pid,
        last_stdout,
        last_stderr,
    }
}

/// Resolves the daemon's status: the state-file fallback, refreshed by a live
/// health probe (and workspace list) when the file names a daemon URL. The
/// probes go over the network; whatever they return runs through
/// `combine_status`, whose contract pins the merge down.
pub fn resolve_openwrk_status(
    data_dir: &str,
    state: Option<OpenwrkStateFile>,
    last_error: Option<String>,
) -> (r: OpenwrkStatus)
    ensures
        r.data_dir@ == data_dir@,
{
    let fallback = openwrk_status_from_state(data_dir, state, last_error);
    let base_url = match &fallback.daemon {
        Some(d) => Some(d.base_url.clone()),
        None => None,
    };
    match base_url {
        None => fallback,
        Some(base_url) => {
            let health = fetch_openwrk_health(base_url.as_str());
            let payload = if health.is_ok() {
                match fetch_openwrk_workspaces(base_url.as_str()) {
                    Ok(p) => Some(p),
                    Err(_) => None,
                }
            } else {
                None
            };
            combine_status(fallback, health, payload)
        },
    }
}

} // verus!
