//! Decisions of the "start everything" sequence: input validation, the
//! stop-before-start rule, credential policy, the warm-up gate that turns an
//! immediate crash into a start error, and how secondary-service failures are
//! recorded against the primary without unwinding it. The surrounding
//! application performs the spawns, sleeps and polls, and feeds the outcomes
//! back into these functions.

use vstd::prelude::*;
use vstd::string::*;
use crate::manager::{EngineState, OpenworkServerState, OpenwrkState, OwpenbotState};
use crate::text::{
    bounded_tail, contains_seq, dec_digits, ends_with_seq, int_digits, trimmed, truncate_output,
    u64_to_string,
};
use crate::worker::{
    worker_running, ChildHandle, Credentials, WorkerModel, OUTPUT_CAP,
};

verus! {

/// Which runtime a start request asks for: one engine spawned directly, or a
/// daemon that manages several engines behind one control plane.
#[derive(Clone, Copy, PartialEq, Eq, Structural, Debug)]
pub enum EngineRuntime {
    Direct,
    Openwrk,
}

/// Builds the base URL a freshly spawned service is reached under.
pub fn base_url_for(host: &str, port: u16) -> (r: String)
    ensures
        r@ == "http://"@ + host@ + ":"@ + dec_digits(port as nat),
{
    let mut out = String::new();
    out.append("http://");
    out.append(host);
    out.append(":");
    let p = u64_to_string(port as u64);
    out.append(p.as_str());
    out
}

/// Validates and normalizes the requested working directory: surrounding
/// whitespace is dropped; a blank request is rejected, everything else is
/// accepted (a directory that does not exist yet is created by the caller,
/// not treated as an error).
pub fn validate_project_dir(raw: &str) -> (r: Result<String, String>)
    ensures
        trimmed(raw@).len() > 0 ==> (r matches Ok(dir) && dir@ == trimmed(raw@)),
        trimmed(raw@).len() == 0 ==> (r matches Err(e) && e@ == "projectDir is required"@),
{
    let dir = crate::text::trim_str(raw);
    if dir.as_str().unicode_len() == 0 {
        Err(String::from_str("projectDir is required"))
    } else {
        Ok(dir)
    }
}

/// The configuration written into a workspace that has none yet.
pub fn default_project_config() -> (r: String)
    ensures
        r@ == "{\n  \"$schema\": \"https://opencode.ai/config.json\"\n}\n"@,
{
    String::from_str("{\n  \"$schema\": \"https://opencode.ai/config.json\"\n}\n")
}

/// Whether a requested extra workspace path is kept: blank entries and the
/// project directory itself (already first) are dropped.
pub open spec fn path_kept(p: Seq<char>, project_dir: Seq<char>) -> bool {
    trimmed(p).len() > 0 && trimmed(p) != project_dir
}

/// The extra workspace paths that survive filtering, in order.
pub open spec fn kept_paths(paths: Seq<String>, project_dir: Seq<char>) -> Seq<String>
    decreases paths.len(),
{
    if paths.len() == 0 {
        Seq::empty()
    } else {
        kept_paths(paths.drop_last(), project_dir) + if path_kept(
            paths.last()@,
            project_dir,
        ) {
            seq![paths.last()]
        } else {
            Seq::empty()
        }
    }
}

/// Normalizes the workspace list for a start request: the project directory
/// always comes first, blank entries and duplicates of it are dropped.
pub fn prepare_workspace_paths(project_dir: &String, paths: &Vec<String>) -> (r: Vec<String>)
    ensures
        r@ == seq![*project_dir] + kept_paths(paths@, project_dir@),
{
    let mut out: Vec<String> = Vec::new();
    out.push(project_dir.clone());
    let mut i: usize = 0;
    while i < paths.len()
        invariant
            i <= paths@.len(),
            out@ == seq![*project_dir] + kept_paths(paths@.take(i as int), project_dir@),
        decreases paths@.len() - i,
    {
        let t = crate::text::trim_str(paths[i].as_str());
        if t.as_str().unicode_len() > 0 && !crate::text::str_eq(
            t.as_str(),
            project_dir.as_str(),
        ) {
            out.push(paths[i].clone());
        }
        proof {
            assert(paths@.take(i + 1 as int).drop_last() =~= paths@.take(i as int));
            assert(paths@.take(i + 1 as int).last() == paths@[i as int]);
            assert(out@ =~= seq![*project_dir] + kept_paths(
                paths@.take(i + 1 as int),
                project_dir@,
            ));
        }
        i = i + 1;
    }
    proof {
        assert(paths@.take(paths@.len() as int) =~= paths@);
    }
    out
}

/// Picks the host the engine binds to: an override from the environment when
/// one is set and not blank, the any-address host otherwise.
pub fn resolve_bind_host(env_value: Option<String>) -> (r: String)
    ensures
        match env_value {
            Some(v) => if trimmed(v@).len() > 0 {
                r@ == v@
            } else {
                r@ == "0.0.0.0"@
            },
            None => r@ == "0.0.0.0"@,
        },
{
    match env_value {
        Some(v) => {
            let t = crate::text::trim_str(v.as_str());
            if t.as_str().unicode_len() > 0 {
                v
            } else {
                String::from_str("0.0.0.0")
            }
        },
        None => String::from_str("0.0.0.0"),
    }
}

/// Whether per-session auth is enabled: on by default, controlled by an
/// environment toggle that accepts `1` or any casing of `true`.
pub fn resolve_auth_enabled(env_value: Option<String>) -> (r: bool)
    ensures
        match env_value {
            Some(v) => r == (v@ == "1"@ || crate::text::ascii_lower_seq(v@) == "true"@),
            None => r,
        },
{
    match env_value {
        Some(v) => {
            if crate::text::str_eq(v.as_str(), "1") {
                true
            } else {
                let chars = crate::text::str_to_chars(v.as_str());
                let lower = crate::text::lower_chars(&chars);
                let expect = crate::text::str_to_chars("true");
                crate::text::chars_eq(&lower, &expect)
            }
        },
        None => true,
    }
}

/// Relies on `uuid::Uuid::new_v4` and its `Display` form: a fresh random
/// version-4 UUID rendered as the 36-character hyphenated string. The value
/// is random; only its length is promised.
#[verifier::external_body]
fn generate_password() -> (r: String)
    ensures
        r@.len() == 36,
{
    uuid::Uuid::new_v4().to_string()
}

/// Fresh per-session credentials when auth is enabled: a fixed username and
/// a cryptographically random password, never a predictable counter.
pub fn session_credentials(enable_auth: bool) -> (r: Option<Credentials>)
    ensures
        enable_auth ==> (r matches Some(c) && c.username@ == "opencode"@ && c.password@.len()
            == 36),
        !enable_auth ==> r is None,
{
    if enable_auth {
        Some(
            Credentials {
                username: String::from_str("opencode"),
                password: generate_password(),
            },
        )
    } else {
        None
    }
}

/// The handle a stopped worker held, as a sequence for leak accounting.
pub open spec fn opt_handle_seq(h: Option<ChildHandle>) -> Seq<ChildHandle> {
    match h {
        Some(h) => seq![h],
        None => Seq::empty(),
    }
}

/// The stop-before-start rule: every manager is fully reset before a new set
/// of workers is spawned, so a second start is always a clean restart. The
/// returned handles are exactly the children that were still held, in a fixed
/// order (engine, daemon, gateway, bot); the caller kills and waits on each,
/// so no process leaks.
pub fn stop_all(
    engine: &mut EngineState,
    openwrk: &mut OpenwrkState,
    gateway: &mut OpenworkServerState,
    bot: &mut OwpenbotState,
) -> (handles: Vec<ChildHandle>)
    ensures
        final(engine).worker@ == crate::worker::worker_stopped(),
        final(engine).project_dir is None,
        final(engine).wf(),
        final(openwrk).worker@ == crate::worker::worker_stopped(),
        final(openwrk).data_dir is None,
        final(openwrk).wf(),
        final(gateway).worker@ == crate::worker::worker_stopped(),
        final(gateway).wf(),
        final(bot).worker@ == crate::worker::worker_stopped(),
        final(bot).wf(),
        handles@ == opt_handle_seq(old(engine).worker.child) + opt_handle_seq(
            old(openwrk).worker.child,
        ) + opt_handle_seq(old(gateway).worker.child) + opt_handle_seq(old(bot).worker.child),
{
    let mut handles: Vec<ChildHandle> = Vec::new();
    let t1 = crate::manager::EngineManager::stop_locked(engine);
    if let Some(h) = t1 {
        handles.push(h);
    }
    let t2 = crate::manager::OpenwrkManager::stop_locked(openwrk);
    if let Some(h) = t2 {
        handles.push(h);
    }
    let t3 = crate::manager::OpenworkServerManager::stop_locked(gateway);
    if let Some(h) = t3 {
        handles.push(h);
    }
    let t4 = crate::manager::OwpenbotManager::stop_locked(bot);
    if let Some(h) = t4 {
        handles.push(h);
    }
    proof {
        assert(handles@ =~= opt_handle_seq(old(engine).worker.child) + opt_handle_seq(
            old(openwrk).worker.child,
        ) + opt_handle_seq(old(gateway).worker.child) + opt_handle_seq(old(bot).worker.child));
    }
    handles
}

/// The exit code reported for a crashed spawn when none was observed.
pub open spec fn reported_code(code: Option<i32>) -> int {
    match code {
        Some(c) => c as int,
        None => -1,
    }
}

/// The error message for a process that exited inside the warm-up window:
/// the status line, then whatever stdout and stderr it left (trimmed and
/// capped), so the cause is visible without separate log inspection.
pub open spec fn warmup_error_spec(code: int, out: Seq<char>, err: Seq<char>) -> Seq<char> {
    let head = "OpenCode exited immediately with status "@ + int_digits(code) + "."@;
    if out.len() > 0 && err.len() > 0 {
        head + "\n\nstdout:\n"@ + out + "\n\nstderr:\n"@ + err
    } else if out.len() > 0 {
        head + "\n\nstdout:\n"@ + out
    } else if err.len() > 0 {
        head + "\n\nstderr:\n"@ + err
    } else {
        head
    }
}

/// Builds the immediate-crash error for the warm-up gate. The captured
/// output is trimmed and capped before it is attached verbatim.
pub fn warmup_failure_message(code: Option<i32>, stdout: &str, stderr: &str) -> (r: String)
    ensures
        r@ == warmup_error_spec(
            reported_code(code),
            bounded_tail(trimmed(stdout@), OUTPUT_CAP as nat),
            bounded_tail(trimmed(stderr@), OUTPUT_CAP as nat),
        ),
{
    let out_full = crate::text::trim_str(stdout);
    let out = truncate_output(out_full.as_str(), OUTPUT_CAP);
    let err_full = crate::text::trim_str(stderr);
    let err = truncate_output(err_full.as_str(), OUTPUT_CAP);
    let c: i32 = match code {
        Some(c) => c,
        None => -1,
    };
    let mut msg = String::new();
    msg.append("OpenCode exited immediately with status ");
    let code_text = crate::text::i32_to_string(c);
    msg.append(code_text.as_str());
    msg.append(".");
    let have_out = out.as_str().unicode_len() > 0;
    let have_err = err.as_str().unicode_len() > 0;
    if have_out {
        msg.append("\n\nstdout:\n");
        msg.append(out.as_str());
    }
    if have_err {
        msg.append("\n\nstderr:\n");
        msg.append(err.as_str());
    }
    msg
}

/// The warm-up gate's verdict after one poll of the drain task's findings.
pub enum WarmupVerdict {
    Ready,
    Continue,
    Failed(String),
}

/// One step of the warm-up gate: a process that exited inside the window
/// fails the whole start with its captured output attached; one still alive
/// when the window closes is accepted; otherwise keep polling.
pub fn warmup_step(
    exited: bool,
    exit_code: Option<i32>,
    stdout: &str,
    stderr: &str,
    deadline_passed: bool,
) -> (v: WarmupVerdict)
    ensures
        exited ==> (v matches WarmupVerdict::Failed(msg) && msg@ == warmup_error_spec(
            reported_code(exit_code),
            bounded_tail(trimmed(stdout@), OUTPUT_CAP as nat),
            bounded_tail(trimmed(stderr@), OUTPUT_CAP as nat),
        )),
        !exited && deadline_passed ==> v is Ready,
        !exited && !deadline_passed ==> v is Continue,
{
    if exited {
        WarmupVerdict::Failed(warmup_failure_message(exit_code, stdout, stderr))
    } else if deadline_passed {
        WarmupVerdict::Ready
    } else {
        WarmupVerdict::Continue
    }
}

/// How a secondary-service failure lands in the primary's record: the error
/// text replaces the retained stderr tail; nothing else changes.
pub open spec fn failure_recorded(m: WorkerModel, text: Seq<char>) -> WorkerModel {
    WorkerModel { stderr: bounded_tail(text, OUTPUT_CAP as nat), ..m }
}

/// Records a failed secondary spawn (gateway or bot) against the primary
/// engine: the formatted error becomes the engine's last-error text, visible
/// to status queries, while the already-successful primary keeps running.
pub fn record_secondary_failure(state: &mut EngineState, label: &str, error: &str)
    requires
        old(state).wf(),
    ensures
        final(state).worker@ == failure_recorded(old(state).worker@, label@ + ": "@ + error@),
        final(state).project_dir == old(state).project_dir,
        final(state).wf(),
{
    let mut msg = String::new();
    msg.append(label);
    msg.append(": ");
    msg.append(error);
    state.worker.stderr_buffer = truncate_output(msg.as_str(), OUTPUT_CAP);
}

/// Law: a spawn that dies inside the warm-up window produces an error that
/// carries the process's captured stderr verbatim at its end, whenever there
/// was any.
pub proof fn lemma_crash_error_carries_stderr(code: int, out: Seq<char>, err: Seq<char>)
    ensures
        err.len() > 0 ==> ends_with_seq(warmup_error_spec(code, out, err), err),
        err.len() > 0 ==> contains_seq(warmup_error_spec(code, out, err), err),
{
    if err.len() > 0 {
        let msg = warmup_error_spec(code, out, err);
        assert(msg.subrange(msg.len() - err.len(), msg.len() as int) =~= err);
    }
}

/// Law: recording a secondary-service failure never changes whether the
/// primary runs nor its connection info, and leaves a non-empty last-error
/// text whenever the failure text was non-empty.
pub proof fn lemma_secondary_failure_keeps_primary(m: WorkerModel, text: Seq<char>)
    ensures
        worker_running(failure_recorded(m, text)) == worker_running(m),
        failure_recorded(m, text).connection == m.connection,
        failure_recorded(m, text).child == m.child,
        text.len() > 0 ==> failure_recorded(m, text).stderr.len() > 0,
{
}

/// Law: the stop-before-start rule gives each worker kind exactly one live
/// child after a second start: the first start's handle was handed back by
/// the stop (and killed by the runner), and the record then holds only the
/// second start's handle.
pub proof fn lemma_restart_is_clean(
    m: WorkerModel,
    pid1: u32,
    pid2: u32,
    conn1: Option<crate::worker::ConnectionModel>,
    conn2: Option<crate::worker::ConnectionModel>,
)
    ensures
        ({
            let first = crate::worker::worker_registered(
                crate::worker::worker_stopped(),
                pid1,
                conn1,
                None,
            );
            let second = crate::worker::worker_registered(
                crate::worker::worker_stopped(),
                pid2,
                conn2,
                None,
            );
            first.child == Some(pid1) && second.child == Some(pid2) && worker_running(second)
                && crate::worker::worker_stopped().child is None
        }),
{
}

} // verus!
