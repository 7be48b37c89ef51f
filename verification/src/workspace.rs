//! Workspace registry logic: stable identifiers, the in-memory registry the
//! application persists as JSON, and the edits the workspace commands make to
//! it. Reading and writing the file itself stays with the application.

use vstd::prelude::*;
use vstd::string::*;
use crate::text::{fnv1a_hash, hex_digits, trimmed};

verus! {

/// Whether a workspace is a local folder or a remote endpoint.
#[derive(Clone, Copy, PartialEq, Eq, Structural, Debug)]
pub enum WorkspaceType {
    Local,
    Remote,
}

impl Default for WorkspaceType {
    /// Workspaces are local unless said otherwise.
    fn default() -> (r: Self)
        ensures
            r == WorkspaceType::Local,
    {
        WorkspaceType::Local
    }
}

/// Which kind of remote endpoint a remote workspace points at.
#[derive(Clone, Copy, PartialEq, Eq, Structural, Debug)]
pub enum RemoteType {
    Opencode,
    Openwork,
}

impl Default for RemoteType {
    /// A bare engine endpoint unless said otherwise.
    fn default() -> (r: Self)
        ensures
            r == RemoteType::Opencode,
    {
        RemoteType::Opencode
    }
}

/// One registered workspace.
#[derive(Clone, Debug)]
pub struct WorkspaceInfo {
    pub id: String,
    pub name: String,
    pub path: String,
    pub preset: String,
    pub workspace_type: WorkspaceType,
    pub remote_type: Option<RemoteType>,
    pub base_url: Option<String>,
    pub directory: Option<String>,
    pub display_name: Option<String>,
    pub openwork_host_url: Option<String>,
    pub openwork_workspace_id: Option<String>,
    pub openwork_workspace_name: Option<String>,
}

impl WorkspaceInfo {
    /// A field-for-field copy, usable in proofs (unlike the derived clone,
    /// of which nothing is known).
    pub fn duplicate(&self) -> (r: Self)
        ensures
            r == *self,
    {
        WorkspaceInfo {
            id: self.id.clone(),
            name: self.name.clone(),
            path: self.path.clone(),
            preset: self.preset.clone(),
            workspace_type: self.workspace_type,
            remote_type: self.remote_type,
            base_url: crate::manager::clone_opt_string(&self.base_url),
            directory: crate::manager::clone_opt_string(&self.directory),
            display_name: crate::manager::clone_opt_string(&self.display_name),
            openwork_host_url: crate::manager::clone_opt_string(&self.openwork_host_url),
            openwork_workspace_id: crate::manager::clone_opt_string(&self.openwork_workspace_id),
            openwork_workspace_name: crate::manager::clone_opt_string(
                &self.openwork_workspace_name,
            ),
        }
    }
}

/// The registry as callers see it.
pub struct WorkspaceList {
    pub active_id: String,
    pub workspaces: Vec<WorkspaceInfo>,
}

/// The version written into fresh registries.
pub const WORKSPACE_STATE_VERSION: u8 = 3;

/// The persisted registry: the active workspace and all registered ones.
pub struct WorkspaceState {
    pub version: u8,
    pub active_id: String,
    pub workspaces: Vec<WorkspaceInfo>,
}

impl Default for WorkspaceState {
    /// A fresh registry: current version, the starter workspace active,
    /// nothing registered yet.
    fn default() -> (r: Self)
        ensures
            r.version == WORKSPACE_STATE_VERSION,
            r.active_id@ == "starter"@,
            r.workspaces@.len() == 0,
    {
        WorkspaceState {
            version: WORKSPACE_STATE_VERSION,
            active_id: String::from_str("starter"),
            workspaces: Vec::new(),
        }
    }
}

/// The stable identifier derived from a workspace path.
pub open spec fn workspace_id_of(path_bytes: Seq<u8>) -> Seq<char> {
    "ws-"@ + hex_digits(fnv1a_hash(path_bytes) as nat)
}

/// Derives the stable identifier for a local workspace from its path alone,
/// so the same folder always maps to the same id.
pub fn stable_workspace_id(path: &str) -> (r: String)
    ensures
        r@ == workspace_id_of(path.spec_bytes()),
{
    let h = crate::text::fnv1a_str(path);
    let mut out = String::from_str("ws-");
    let hex = crate::text::u64_to_hex(h);
    out.append(hex.as_str());
    out
}

/// The stable identifier for a remote workspace: derived from the endpoint
/// URL and the directory served, separated unambiguously.
pub open spec fn remote_workspace_id_of(base_url: Seq<char>, directory: Option<Seq<char>>)
    -> Seq<char> {
    let key = base_url + "\n"@ + match directory {
        Some(d) => d,
        None => Seq::empty(),
    };
    "ws-remote-"@ + hex_digits(fnv1a_hash(vstd::utf8::encode_utf8(key)) as nat)
}

/// Derives the stable identifier for a remote workspace.
pub fn stable_workspace_id_for_remote(base_url: &str, directory: Option<&str>) -> (r: String)
    ensures
        r@ == remote_workspace_id_of(
            base_url@,
            match directory {
                Some(d) => Some(d@),
                None => None,
            },
        ),
{
    let mut key = String::from_str(base_url);
    key.append("\n");
    if let Some(d) = directory {
        key.append(d);
    }
    let h = crate::text::fnv1a_str(key.as_str());
    let mut out = String::from_str("ws-remote-");
    let hex = crate::text::u64_to_hex(h);
    out.append(hex.as_str());
    out
}

/// The registry without any entry carrying the given id.
pub open spec fn without_id(ws: Seq<WorkspaceInfo>, id: Seq<char>) -> Seq<WorkspaceInfo>
    decreases ws.len(),
{
    if ws.len() == 0 {
        Seq::empty()
    } else {
        without_id(ws.drop_last(), id) + if ws.last().id@ == id {
            Seq::<WorkspaceInfo>::empty()
        } else {
            seq![ws.last()]
        }
    }
}

/// Whether some entry carries the given id.
pub open spec fn has_id(ws: Seq<WorkspaceInfo>, id: Seq<char>) -> bool {
    exists|i: int| 0 <= i < ws.len() && #[trigger] ws[i].id@ == id
}

fn retain_without_id(ws: &Vec<WorkspaceInfo>, id: &str) -> (r: Vec<WorkspaceInfo>)
    ensures
        r@ == without_id(ws@, id@),
{
    let mut out: Vec<WorkspaceInfo> = Vec::new();
    let mut i: usize = 0;
    while i < ws.len()
        invariant
            i <= ws@.len(),
            out@ == without_id(ws@.take(i as int), id@),
        decreases ws@.len() - i,
    {
        if !crate::text::str_eq(ws[i].id.as_str(), id) {
            out.push(ws[i].duplicate());
        }
        proof {
            assert(ws@.take(i + 1 as int).drop_last() =~= ws@.take(i as int));
            assert(ws@.take(i + 1 as int).last() == ws@[i as int]);
            assert(out@ =~= without_id(ws@.take(i + 1 as int), id@));
        }
        i = i + 1;
    }
    proof {
        assert(ws@.take(ws@.len() as int) =~= ws@);
    }
    out
}

fn find_id(ws: &Vec<WorkspaceInfo>, id: &str) -> (r: Option<usize>)
    ensures
        match r {
            Some(j) => j < ws@.len() && ws@[j as int].id@ == id@,
            None => !has_id(ws@, id@),
        },
{
    let mut i: usize = 0;
    while i < ws.len()
        invariant
            i <= ws@.len(),
            forall|k: int| 0 <= k < i ==> #[trigger] ws@[k].id@ != id@,
        decreases ws@.len() - i,
    {
        if crate::text::str_eq(ws[i].id.as_str(), id) {
            return Some(i);
        }
        i = i + 1;
    }
    None
}

/// Registers (or replaces) a workspace and makes it active: any previous
/// entry with the same id is dropped first, so ids stay unique.
pub fn upsert_workspace(state: &mut WorkspaceState, info: WorkspaceInfo)
    ensures
        final(state).workspaces@ == without_id(old(state).workspaces@, info.id@).push(info),
        final(state).active_id == info.id,
        final(state).version == old(state).version,
{
    let active = info.id.clone();
    let kept = retain_without_id(&state.workspaces, info.id.as_str());
    state.workspaces = kept;
    state.workspaces.push(info);
    state.active_id = active;
}

/// Drops a workspace from the registry. A blank id and an unknown id are
/// rejected, each with its own error. When the active workspace is dropped,
/// the first remaining one (if any) becomes active.
pub fn forget_workspace(state: &mut WorkspaceState, workspace_id: &str) -> (r: Result<
    (),
    String,
>)
    ensures
        trimmed(workspace_id@).len() == 0 ==> (r matches Err(e) && e@
            == "workspaceId is required"@ && *final(state) == *old(state)),
        trimmed(workspace_id@).len() > 0 && !has_id(old(state).workspaces@, trimmed(workspace_id@))
            ==> (r matches Err(e) && e@ == "Unknown workspaceId"@ && *final(state) == *old(state)),
        trimmed(workspace_id@).len() > 0 && has_id(old(state).workspaces@, trimmed(workspace_id@))
            ==> (r is Ok && final(state).workspaces@ == without_id(
            old(state).workspaces@,
            trimmed(workspace_id@),
        ) && final(state).version == old(state).version && final(state).active_id@ == (
        if old(state).active_id@ == trimmed(workspace_id@) {
            if without_id(old(state).workspaces@, trimmed(workspace_id@)).len() > 0 {
                without_id(old(state).workspaces@, trimmed(workspace_id@)).first().id@
            } else {
                Seq::<char>::empty()
            }
        } else {
            old(state).active_id@
        })),
{
    let id = crate::text::trim_str(workspace_id);
    if id.as_str().unicode_len() == 0 {
        return Err(String::from_str("workspaceId is required"));
    }
    if find_id(&state.workspaces, id.as_str()).is_none() {
        return Err(String::from_str("Unknown workspaceId"));
    }
    let kept = retain_without_id(&state.workspaces, id.as_str());
    state.workspaces = kept;
    if crate::text::str_eq(state.active_id.as_str(), id.as_str()) {
        if state.workspaces.len() > 0 {
            state.active_id = state.workspaces[0].id.clone();
        } else {
            state.active_id = String::new();
        }
    }
    Ok(())
}

/// Makes a registered workspace the active one. A blank id and an unknown id
/// are rejected, each with its own error.
pub fn set_active_workspace(state: &mut WorkspaceState, workspace_id: &str) -> (r: Result<
    (),
    String,
>)
    ensures
        trimmed(workspace_id@).len() == 0 ==> (r matches Err(e) && e@
            == "workspaceId is required"@ && *final(state) == *old(state)),
        trimmed(workspace_id@).len() > 0 && !has_id(old(state).workspaces@, trimmed(workspace_id@))
            ==> (r matches Err(e) && e@ == "Unknown workspaceId"@ && *final(state) == *old(state)),
        trimmed(workspace_id@).len() > 0 && has_id(old(state).workspaces@, trimmed(workspace_id@))
            ==> (r is Ok && final(state).active_id@ == trimmed(workspace_id@)
            && final(state).workspaces == old(state).workspaces
            && final(state).version == old(state).version),
{
    let id = crate::text::trim_str(workspace_id);
    if id.as_str().unicode_len() == 0 {
        return Err(String::from_str("workspaceId is required"));
    }
    if find_id(&state.workspaces, id.as_str()).is_none() {
        return Err(String::from_str("Unknown workspaceId"));
    }
    state.active_id = id;
    Ok(())
}

/// A freshly registered local workspace.
pub fn local_workspace_info(folder: String, name: String, preset: String) -> (r: WorkspaceInfo)
    ensures
        r.id@ == workspace_id_of(vstd::utf8::encode_utf8(folder@)),
        r.name == name,
        r.path == folder,
        r.preset == preset,
        r.workspace_type == WorkspaceType::Local,
        r.remote_type is None,
        r.base_url is None,
        r.directory is None,
        r.display_name is None,
{
    let id = stable_workspace_id(folder.as_str());
    WorkspaceInfo {
        id,
        name,
        path: folder,
        preset,
        workspace_type: WorkspaceType::Local,
        remote_type: None,
        base_url: None,
        directory: None,
        display_name: None,
        openwork_host_url: None,
        openwork_workspace_id: None,
        openwork_workspace_name: None,
    }
}

/// A freshly registered remote workspace: named after its display name or its
/// URL, with the served directory doubling as its path.
pub fn remote_workspace_info(
    base_url: String,
    directory: Option<String>,
    display_name: Option<String>,
) -> (r: WorkspaceInfo)
    ensures
        r.id@ == remote_workspace_id_of(base_url@, crate::manager::opt_view(directory)),
        r.workspace_type == WorkspaceType::Remote,
        r.preset@ == "remote"@,
        r.base_url == Some(base_url),
        r.directory == directory,
        r.display_name == display_name,
        (match display_name {
            Some(n) => r.name == n,
            None => r.name == base_url,
        }),
        (match directory {
            Some(d) => r.path == d,
            None => r.path@.len() == 0,
        }),
{
    let id = stable_workspace_id_for_remote(
        base_url.as_str(),
        match &directory {
            Some(d) => Some(d.as_str()),
            None => None,
        },
    );
    let name = match &display_name {
        Some(n) => n.clone(),
        None => base_url.clone(),
    };
    let path = match &directory {
        Some(d) => d.clone(),
        None => String::new(),
    };
    WorkspaceInfo {
        id,
        name,
        path,
        preset: String::from_str("remote"),
        workspace_type: WorkspaceType::Remote,
        remote_type: None,
        base_url: Some(base_url),
        directory,
        display_name,
        openwork_host_url: None,
        openwork_workspace_id: None,
        openwork_workspace_name: None,
    }
}

/// Whether a remote endpoint URL carries a scheme this registry accepts.
pub open spec fn has_http_scheme(url: Seq<char>) -> bool {
    crate::text::starts_with_seq(url, "http://"@) || crate::text::starts_with_seq(
        url,
        "https://"@,
    )
}

/// Checks a remote endpoint URL's scheme.
pub fn check_http_scheme(url: &str) -> (r: bool)
    ensures
        r == has_http_scheme(url@),
{
    let chars = crate::text::str_to_chars(url);
    let http = crate::text::str_to_chars("http://");
    let https = crate::text::str_to_chars("https://");
    crate::text::starts_with_chars(&chars, &http) || crate::text::starts_with_chars(
        &chars,
        &https,
    )
}

/// How one remote entry is edited: a non-blank URL must carry an accepted
/// scheme and replaces the old one; a directory argument (even a blank one)
/// replaces the directory and path; a non-blank display name renames the
/// workspace.
pub fn update_remote_fields(
    entry: WorkspaceInfo,
    base_url: Option<String>,
    directory: Option<String>,
    display_name: Option<String>,
) -> (r: Result<WorkspaceInfo, String>)
    ensures
        (base_url matches Some(u) && trimmed(u@).len() > 0 && !has_http_scheme(trimmed(u@))) ==> (
        r matches Err(e) && e@ == "baseUrl must start with http:// or https://"@),
        r matches Ok(w) ==> {
            &&& w.id == entry.id
            &&& w.workspace_type == entry.workspace_type
            &&& w.preset == entry.preset
            &&& (match base_url {
                Some(u) => if trimmed(u@).len() > 0 {
                    w.base_url matches Some(b) && b@ == trimmed(u@)
                } else {
                    w.base_url == entry.base_url
                },
                None => w.base_url == entry.base_url,
            })
            &&& (match directory {
                Some(d) => if trimmed(d@).len() > 0 {
                    (w.directory matches Some(x) && x@ == trimmed(d@)) && w.path@ == trimmed(d@)
                } else {
                    w.directory is None && w.path@.len() == 0
                },
                None => w.directory == entry.directory && w.path == entry.path,
            })
            &&& (match display_name {
                Some(n) => if trimmed(n@).len() > 0 {
                    (w.display_name matches Some(x) && x@ == trimmed(n@)) && w.name@ == trimmed(
                        n@,
                    )
                } else {
                    w.display_name == entry.display_name && w.name == entry.name
                },
                None => w.display_name == entry.display_name && w.name == entry.name,
            })
        },
{
    let mut entry = entry;
    if let Some(u) = base_url {
        let t = crate::text::trim_str(u.as_str());
        if t.as_str().unicode_len() > 0 {
            if !check_http_scheme(t.as_str()) {
                return Err(String::from_str("baseUrl must start with http:// or https://"));
            }
            entry.base_url = Some(t);
        }
    }
    if let Some(d) = directory {
        let t = crate::text::trim_str(d.as_str());
        if t.as_str().unicode_len() > 0 {
            entry.path = t.clone();
            entry.directory = Some(t);
        } else {
            entry.directory = None;
            entry.path = String::new();
        }
    }
    if let Some(n) = display_name {
        let t = crate::text::trim_str(n.as_str());
        if t.as_str().unicode_len() > 0 {
            entry.name = t.clone();
            entry.display_name = Some(t);
        }
    }
    Ok(entry)
}

/// Edits a registered remote workspace in place: a blank or unknown id and a
/// local workspace are rejected, each with its own error; the accepted edits
/// are those of `update_remote_fields`.
pub fn update_remote_workspace(
    state: &mut WorkspaceState,
    workspace_id: &str,
    base_url: Option<String>,
    directory: Option<String>,
    display_name: Option<String>,
) -> (r: Result<(), String>)
    ensures
        trimmed(workspace_id@).len() == 0 ==> (r matches Err(e) && e@
            == "workspaceId is required"@ && *final(state) == *old(state)),
        trimmed(workspace_id@).len() > 0 && !has_id(old(state).workspaces@, trimmed(workspace_id@))
            ==> (r matches Err(e) && e@ == "Unknown workspaceId"@ && *final(state) == *old(state)),
        r is Ok ==> {
            &&& final(state).workspaces@.len() == old(state).workspaces@.len()
            &&& final(state).active_id == old(state).active_id
            &&& final(state).version == old(state).version
            &&& forall|k: int|
                0 <= k < old(state).workspaces@.len() && #[trigger] old(
                    state,
                ).workspaces@[k].id@ != trimmed(workspace_id@) ==> final(state).workspaces@[k]
                    == old(state).workspaces@[k]
        },
{
    let id = crate::text::trim_str(workspace_id);
    if id.as_str().unicode_len() == 0 {
        return Err(String::from_str("workspaceId is required"));
    }
    let j = match find_id(&state.workspaces, id.as_str()) {
        Some(j) => j,
        None => {
            return Err(String::from_str("Unknown workspaceId"));
        },
    };
    let entry = state.workspaces[j].duplicate();
    if !matches!(entry.workspace_type, WorkspaceType::Remote) {
        return Err(String::from_str("workspaceId is not remote"));
    }
    let updated = match update_remote_fields(entry, base_url, directory, display_name) {
        Ok(w) => w,
        Err(e) => {
            return Err(e);
        },
    };
    let _ = state.workspaces.remove(j);
    state.workspaces.insert(j, updated);
    Ok(())
}

/// Per-workspace metadata stored inside the workspace folder.
#[derive(Clone, Debug)]
pub struct WorkspaceOpenworkWorkspace {
    pub name: Option<String>,
    pub created_at: Option<u64>,
    pub preset: Option<String>,
}

/// The per-workspace configuration file's content: a version, the workspace
/// description, and the folders the engine may touch.
#[derive(Clone, Debug)]
pub struct WorkspaceOpenworkConfig {
    pub version: u32,
    pub workspace: Option<WorkspaceOpenworkWorkspace>,
    pub authorized_roots: Vec<String>,
}

impl Default for WorkspaceOpenworkConfig {
    /// An empty first-version configuration.
    fn default() -> (r: Self)
        ensures
            r.version == 1,
            r.workspace is None,
            r.authorized_roots@.len() == 0,
    {
        WorkspaceOpenworkConfig { version: 1, workspace: None, authorized_roots: Vec::new() }
    }
}

/// The name inferred for a workspace folder: its last path component, or a
/// fixed fallback when the path yields none.
pub open spec fn inferred_name(path: Seq<char>) -> Seq<char> {
    let cut = last_component(path);
    if cut.len() == 0 {
        "Workspace"@
    } else {
        cut
    }
}

/// The characters after the last separator; empty when the path is empty or
/// ends with a separator (the fallback name is used then).
pub open spec fn last_component(path: Seq<char>) -> Seq<char>
    decreases path.len(),
{
    if path.len() == 0 {
        Seq::empty()
    } else if path.last() == '/' {
        Seq::empty()
    } else {
        last_component(path.drop_last()).push(path.last())
    }
}

fn basename(path: &str) -> (r: Vec<char>)
    ensures
        r@ == last_component(path@),
{
    let chars = crate::text::str_to_chars(path);
    let n = chars.len();
    let mut out: Vec<char> = Vec::new();
    let mut i: usize = 0;
    while i < n
        invariant
            i <= n,
            n == chars@.len(),
            chars@ == path@,
            out@ == last_component(path@.take(i as int)),
        decreases n - i,
    {
        if chars[i] == '/' {
            out = Vec::new();
        } else {
            out.push(chars[i]);
        }
        proof {
            assert(path@.take(i + 1 as int).drop_last() =~= path@.take(i as int));
            assert(path@.take(i + 1 as int).last() == path@[i as int]);
        }
        i = i + 1;
    }
    proof {
        assert(path@.take(n as int) =~= path@);
    }
    out
}

impl WorkspaceOpenworkConfig {
    /// The configuration written for a fresh workspace: the folder's own name
    /// (or a fixed fallback), the creation time and preset, and the workspace
    /// folder as the first authorized root.
    pub fn new(workspace_path: &str, preset: &str, now_ms: u64) -> (r: Self)
        ensures
            r.version == 1,
            r.workspace matches Some(w) && {
                &&& w.name matches Some(n) && n@ == inferred_name(workspace_path@)
                &&& w.created_at == Some(now_ms)
                &&& w.preset matches Some(p) && p@ == preset@
            },
            r.authorized_roots@.len() == 1 && r.authorized_roots@[0]@ == workspace_path@,
    {
        let base = basename(workspace_path);
        let name = if base.len() == 0 {
            String::from_str("Workspace")
        } else {
            crate::text::chars_to_string(&base)
        };
        let mut roots: Vec<String> = Vec::new();
        roots.push(String::from_str(workspace_path));
        WorkspaceOpenworkConfig {
            version: 1,
            workspace: Some(
                WorkspaceOpenworkWorkspace {
                    name: Some(name),
                    created_at: Some(now_ms),
                    preset: Some(String::from_str(preset)),
                },
            ),
            authorized_roots: roots,
        }
    }
}

/// Whether some authorized root equals the given path.
pub open spec fn has_root(roots: Seq<String>, path: Seq<char>) -> bool {
    exists|i: int| 0 <= i < roots.len() && #[trigger] roots[i]@ == path
}

/// Authorizes one more folder: appended only when not already present, so
/// the list never holds duplicates of it.
pub fn add_authorized_root(config: &mut WorkspaceOpenworkConfig, folder_path: &str)
    ensures
        has_root(old(config).authorized_roots@, folder_path@) ==> *final(config) == *old(config),
        !has_root(old(config).authorized_roots@, folder_path@) ==> {
            &&& final(config).authorized_roots@.len() == old(config).authorized_roots@.len() + 1
            &&& final(config).authorized_roots@.drop_last() == old(config).authorized_roots@
            &&& final(config).authorized_roots@.last()@ == folder_path@
            &&& final(config).version == old(config).version
            &&& final(config).workspace == old(config).workspace
        },
{
    let mut i: usize = 0;
    let n = config.authorized_roots.len();
    while i < n
        invariant
            i <= n,
            n == config.authorized_roots@.len(),
            *config == *old(config),
            forall|k: int| 0 <= k < i ==> #[trigger] config.authorized_roots@[k]@ != folder_path@,
        decreases n - i,
    {
        if crate::text::str_eq(config.authorized_roots[i].as_str(), folder_path) {
            return ;
        }
        i = i + 1;
    }
    config.authorized_roots.push(String::from_str(folder_path));
}

/// Where a workspace's own configuration file lives.
pub fn openwork_config_path(workspace_path: &str) -> (r: String)
    ensures
        r@ == crate::text::joined(workspace_path@, ".opencode/openwork.json"@),
{
    crate::text::join_path(workspace_path, ".opencode/openwork.json")
}

/// The configuration reported for a workspace that has no file yet: the
/// defaults, with the workspace folder itself authorized.
pub fn openwork_read_fallback(workspace_path: &str) -> (r: WorkspaceOpenworkConfig)
    ensures
        r.version == 1,
        r.workspace is None,
        r.authorized_roots@.len() == 1 && r.authorized_roots@[0]@ == workspace_path@,
{
    let mut roots: Vec<String> = Vec::new();
    roots.push(String::from_str(workspace_path));
    WorkspaceOpenworkConfig { version: 1, workspace: None, authorized_roots: roots }
}

/// First-run repair of the registry: the starter workspace is registered when
/// missing, and a blank or dangling active id falls back to it. Everything
/// already registered stays untouched.
pub fn bootstrap_registry(state: &mut WorkspaceState, starter: WorkspaceInfo)
    ensures
        has_id(old(state).workspaces@, starter.id@) ==> final(state).workspaces == old(
            state,
        ).workspaces,
        !has_id(old(state).workspaces@, starter.id@) ==> final(state).workspaces@ == old(
            state,
        ).workspaces@.push(starter),
        final(state).version == old(state).version,
        (trimmed(old(state).active_id@).len() > 0 && has_id(
            final(state).workspaces@,
            old(state).active_id@,
        )) ==> final(state).active_id == old(state).active_id,
        (trimmed(old(state).active_id@).len() == 0 || !has_id(
            final(state).workspaces@,
            old(state).active_id@,
        )) ==> final(state).active_id@ == starter.id@,
{
    let starter_id = starter.id.clone();
    if find_id(&state.workspaces, starter.id.as_str()).is_none() {
        state.workspaces.push(starter);
    }
    let active_trimmed = crate::text::trim_str(state.active_id.as_str());
    if active_trimmed.as_str().unicode_len() == 0 {
        state.active_id = starter_id;
    } else if find_id(&state.workspaces, state.active_id.as_str()).is_none() {
        state.active_id = starter_id;
    }
}

/// The starter workspace registered on first run, given the folder the
/// application created for it.
pub fn starter_workspace_info(starter_dir: String) -> (r: WorkspaceInfo)
    ensures
        r.id@ == workspace_id_of(vstd::utf8::encode_utf8(starter_dir@)),
        r.name@ == "Starter"@,
        r.path == starter_dir,
        r.preset@ == "starter"@,
        r.workspace_type == WorkspaceType::Local,
{
    let id = stable_workspace_id(starter_dir.as_str());
    WorkspaceInfo {
        id,
        name: String::from_str("Starter"),
        path: starter_dir,
        preset: String::from_str("starter"),
        workspace_type: WorkspaceType::Local,
        remote_type: None,
        base_url: None,
        directory: None,
        display_name: None,
        openwork_host_url: None,
        openwork_workspace_id: None,
        openwork_workspace_name: None,
    }
}

} // verus!
