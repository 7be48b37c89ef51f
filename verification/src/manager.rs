//! Service managers, one per supervised worker kind: the engine, the
//! multi-engine daemon, the gateway server and the messaging bot. Each holds
//! one worker record; `snapshot_locked` and `stop_locked` are the state
//! transitions a caller performs while holding that manager's lock.

use vstd::prelude::*;
use crate::worker::{
    view_opt_credentials, worker_after_probe, worker_pid, worker_registered, worker_running,
    worker_stopped, ChildHandle, Connection, ConnectionModel, Credentials, WorkerState,
};
use crate::types::{EngineInfo, OpenworkServerInfo};

verus! {

/// View of an optional string.
pub open spec fn opt_view(o: Option<String>) -> Option<Seq<char>> {
    match o {
        Some(s) => Some(s@),
        None => None,
    }
}

/// An output buffer as a snapshot reports it: absent when empty.
pub open spec fn buffer_report(s: Seq<char>) -> Option<Seq<char>> {
    if s.len() == 0 {
        None
    } else {
        Some(s)
    }
}

/// The host a connection reports.
pub open spec fn conn_host(c: Option<ConnectionModel>) -> Option<Seq<char>> {
    match c {
        Some(c) => Some(c.host),
        None => None,
    }
}

/// The port a connection reports.
pub open spec fn conn_port(c: Option<ConnectionModel>) -> Option<u16> {
    match c {
        Some(c) => Some(c.port),
        None => None,
    }
}

/// The base URL a connection reports.
pub open spec fn conn_base_url(c: Option<ConnectionModel>) -> Option<Seq<char>> {
    match c {
        Some(c) => Some(c.base_url),
        None => None,
    }
}

/// Copies an optional string.
pub fn clone_opt_string(o: &Option<String>) -> (r: Option<String>)
    ensures
        r == *o,
{
    match o {
        Some(s) => Some(s.clone()),
        None => None,
    }
}

fn report_buffer(buf: &String) -> (r: Option<String>)
    ensures
        opt_view(r) == buffer_report(buf@),
{
    if buf.as_str().unicode_len() == 0 {
        None
    } else {
        Some(buf.clone())
    }
}

/// State guarded by the engine manager: the worker record plus the project
/// directory the engine serves.
pub struct EngineState {
    pub worker: WorkerState,
    pub project_dir: Option<String>,
}

impl EngineState {
    /// The record's buffers respect their cap.
    pub open spec fn wf(self) -> bool {
        self.worker.wf()
    }

    /// An empty engine record.
    pub fn new() -> (s: Self)
        ensures
            s.worker@ == worker_stopped(),
            s.project_dir is None,
            s.wf(),
    {
        EngineState { worker: WorkerState::new(), project_dir: None }
    }

    /// Records a freshly spawned engine: its handle, where it listens, the
    /// session credentials and the directory it serves. A prior stop is
    /// required, so no live handle can be overwritten.
    pub fn register_spawn(
        &mut self,
        child: ChildHandle,
        connection: Connection,
        credentials: Option<Credentials>,
        project_dir: String,
    )
        requires
            old(self).worker@.child is None,
            old(self).wf(),
        ensures
            final(self).worker@ == worker_registered(
                old(self).worker@,
                child.pid,
                Some(connection@),
                view_opt_credentials(credentials),
            ),
            final(self).project_dir == Some(project_dir),
            final(self).wf(),
    {
        self.worker.register(child, Some(connection), credentials);
        self.project_dir = Some(project_dir);
    }
}

/// Manager for the primary engine worker. The application wraps the state in
/// a mutex; these transitions run while that lock is held.
pub struct EngineManager {
    pub state: EngineState,
}

impl EngineManager {
    /// A manager with nothing running.
    pub fn new() -> (m: Self)
        ensures
            m.state.worker@ == worker_stopped(),
            m.state.project_dir is None,
            m.state.wf(),
    {
        EngineManager { state: EngineState::new() }
    }

    /// Point-in-time status: reports whether the engine runs (reaping a child
    /// whose exit was flagged), and always returns the connection info and
    /// the tails of both output buffers, so a crashed process's last words
    /// stay visible.
    pub fn snapshot_locked(state: &mut EngineState) -> (info: EngineInfo)
        ensures
            final(state).worker@ == worker_after_probe(old(state).worker@),
            final(state).project_dir == old(state).project_dir,
            info.running == worker_running(old(state).worker@),
            info.pid == worker_pid(old(state).worker@),
            opt_view(info.base_url) == conn_base_url(old(state).worker@.connection),
            opt_view(info.hostname) == conn_host(old(state).worker@.connection),
            info.port == conn_port(old(state).worker@.connection),
            info.project_dir == old(state).project_dir,
            opt_view(info.last_stdout) == buffer_report(old(state).worker@.stdout),
            opt_view(info.last_stderr) == buffer_report(old(state).worker@.stderr),
    {
        let (running, pid) = state.worker.probe();
        let (base_url, hostname, port) = match &state.worker.connection {
            Some(c) => (Some(c.base_url.clone()), Some(c.host.clone()), Some(c.port)),
            None => (None, None, None),
        };
        EngineInfo {
            running,
            base_url,
            project_dir: clone_opt_string(&state.project_dir),
            hostname,
            port,
            pid,
            last_stdout: report_buffer(&state.worker.stdout_buffer),
            last_stderr: report_buffer(&state.worker.stderr_buffer),
        }
    }

    /// Teardown: clears every field and hands back the child handle, if any,
    /// for the caller to kill and wait on before releasing the lock. Calling
    /// it with no running child is a no-op that still clears stale
    /// connection info.
    pub fn stop_locked(state: &mut EngineState) -> (taken: Option<ChildHandle>)
        ensures
            final(state).worker@ == worker_stopped(),
            final(state).project_dir is None,
            final(state).wf(),
            taken == old(state).worker.child,
    {
        let taken = state.worker.reset();
        state.project_dir = None;
        taken
    }
}

/// State guarded by the messaging-bot manager.
pub struct OwpenbotState {
    pub worker: WorkerState,
    pub workspace_path: Option<String>,
    pub opencode_url: Option<String>,
    pub qr_data: Option<String>,
    pub whatsapp_linked: bool,
    pub telegram_configured: bool,
}

/// Point-in-time status of the messaging bot.
pub struct OwpenbotInfo {
    pub running: bool,
    pub workspace_path: Option<String>,
    pub opencode_url: Option<String>,
    pub qr_data: Option<String>,
    pub whatsapp_linked: bool,
    pub telegram_configured: bool,
    pub pid: Option<u32>,
    pub last_stdout: Option<String>,
    pub last_stderr: Option<String>,
}

impl OwpenbotState {
    /// The record's buffers respect their cap.
    pub open spec fn wf(self) -> bool {
        self.worker.wf()
    }

    /// An empty bot record.
    pub fn new() -> (s: Self)
        ensures
            s.worker@ == worker_stopped(),
            s.workspace_path is None,
            s.opencode_url is None,
            s.qr_data is None,
            !s.whatsapp_linked,
            !s.telegram_configured,
            s.wf(),
    {
        OwpenbotState {
            worker: WorkerState::new(),
            workspace_path: None,
            opencode_url: None,
            qr_data: None,
            whatsapp_linked: false,
            telegram_configured: false,
        }
    }

    /// Records a freshly spawned bot: its handle, the workspace it serves and
    /// the upstream engine URL it was pointed at.
    pub fn register_spawn(
        &mut self,
        child: ChildHandle,
        workspace_path: String,
        opencode_url: Option<String>,
    )
        requires
            old(self).worker@.child is None,
            old(self).wf(),
        ensures
            final(self).worker@ == worker_registered(old(self).worker@, child.pid, None, None),
            final(self).workspace_path == Some(workspace_path),
            final(self).opencode_url == opencode_url,
            final(self).qr_data == old(self).qr_data,
            final(self).wf(),
    {
        self.worker.register(child, None, None);
        self.workspace_path = Some(workspace_path);
        self.opencode_url = opencode_url;
    }
}

/// Manager for the messaging-bot worker.
pub struct OwpenbotManager {
    pub state: OwpenbotState,
}

impl OwpenbotManager {
    /// A manager with nothing running.
    pub fn new() -> (m: Self)
        ensures
            m.state.worker@ == worker_stopped(),
            m.state.wf(),
    {
        OwpenbotManager { state: OwpenbotState::new() }
    }

    /// Point-in-time status of the bot; reaps an exited child.
    pub fn snapshot_locked(state: &mut OwpenbotState) -> (info: OwpenbotInfo)
        ensures
            final(state).worker@ == worker_after_probe(old(state).worker@),
            final(state).workspace_path == old(state).workspace_path,
            final(state).opencode_url == old(state).opencode_url,
            final(state).qr_data == old(state).qr_data,
            final(state).whatsapp_linked == old(state).whatsapp_linked,
            final(state).telegram_configured == old(state).telegram_configured,
            info.running == worker_running(old(state).worker@),
            info.pid == worker_pid(old(state).worker@),
            info.workspace_path == old(state).workspace_path,
            info.opencode_url == old(state).opencode_url,
            info.qr_data == old(state).qr_data,
            info.whatsapp_linked == old(state).whatsapp_linked,
            info.telegram_configured == old(state).telegram_configured,
            opt_view(info.last_stdout) == buffer_report(old(state).worker@.stdout),
            opt_view(info.last_stderr) == buffer_report(old(state).worker@.stderr),
    {
        let (running, pid) = state.worker.probe();
        OwpenbotInfo {
            running,
            workspace_path: clone_opt_string(&state.workspace_path),
            opencode_url: clone_opt_string(&state.opencode_url),
            qr_data: clone_opt_string(&state.qr_data),
            whatsapp_linked: state.whatsapp_linked,
            telegram_configured: state.telegram_configured,
            pid,
            last_stdout: report_buffer(&state.worker.stdout_buffer),
            last_stderr: report_buffer(&state.worker.stderr_buffer),
        }
    }

    /// Teardown for the bot; the caller kills the returned handle.
    pub fn stop_locked(state: &mut OwpenbotState) -> (taken: Option<ChildHandle>)
        ensures
            final(state).worker@ == worker_stopped(),
            final(state).workspace_path is None,
            final(state).opencode_url is None,
            final(state).qr_data is None,
            !final(state).whatsapp_linked,
            !final(state).telegram_configured,
            final(state).wf(),
            taken == old(state).worker.child,
    {
        let taken = state.worker.reset();
        state.workspace_path = None;
        state.opencode_url = None;
        state.qr_data = None;
        state.whatsapp_linked = false;
        state.telegram_configured = false;
        taken
    }
}

/// State guarded by the gateway-server manager: the worker record plus the
/// URLs and tokens remote clients connect with.
pub struct OpenworkServerState {
    pub worker: WorkerState,
    pub connect_url: Option<String>,
    pub mdns_url: Option<String>,
    pub lan_url: Option<String>,
    pub client_token: Option<String>,
    pub host_token: Option<String>,
}

impl OpenworkServerState {
    /// The record's buffers respect their cap.
    pub open spec fn wf(self) -> bool {
        self.worker.wf()
    }

    /// An empty gateway record.
    pub fn new() -> (s: Self)
        ensures
            s.worker@ == worker_stopped(),
            s.connect_url is None,
            s.mdns_url is None,
            s.lan_url is None,
            s.client_token is None,
            s.host_token is None,
            s.wf(),
    {
        OpenworkServerState {
            worker: WorkerState::new(),
            connect_url: None,
            mdns_url: None,
            lan_url: None,
            client_token: None,
            host_token: None,
        }
    }

    /// Records a freshly spawned gateway server with where it listens, the
    /// URL remote clients should use and the two access tokens.
    pub fn register_spawn(
        &mut self,
        child: ChildHandle,
        connection: Connection,
        connect_url: Option<String>,
        client_token: String,
        host_token: String,
    )
        requires
            old(self).worker@.child is None,
            old(self).wf(),
        ensures
            final(self).worker@ == worker_registered(
                old(self).worker@,
                child.pid,
                Some(connection@),
                None,
            ),
            final(self).connect_url == connect_url,
            final(self).client_token == Some(client_token),
            final(self).host_token == Some(host_token),
            final(self).wf(),
    {
        self.worker.register(child, Some(connection), None);
        self.connect_url = connect_url;
        self.client_token = Some(client_token);
        self.host_token = Some(host_token);
    }
}

/// Manager for the gateway-server worker.
pub struct OpenworkServerManager {
    pub state: OpenworkServerState,
}

impl OpenworkServerManager {
    /// A manager with nothing running.
    pub fn new() -> (m: Self)
        ensures
            m.state.worker@ == worker_stopped(),
            m.state.wf(),
    {
        OpenworkServerManager { state: OpenworkServerState::new() }
    }

    /// Point-in-time status of the gateway server; reaps an exited child.
    pub fn snapshot_locked(state: &mut OpenworkServerState) -> (info: OpenworkServerInfo)
        ensures
            final(state).worker@ == worker_after_probe(old(state).worker@),
            final(state).connect_url == old(state).connect_url,
            final(state).client_token == old(state).client_token,
            final(state).host_token == old(state).host_token,
            info.running == worker_running(old(state).worker@),
            info.pid == worker_pid(old(state).worker@),
            opt_view(info.base_url) == conn_base_url(old(state).worker@.connection),
            opt_view(info.host) == conn_host(old(state).worker@.connection),
            info.port == conn_port(old(state).worker@.connection),
            info.connect_url == old(state).connect_url,
            info.mdns_url == old(state).mdns_url,
            info.lan_url == old(state).lan_url,
            info.client_token == old(state).client_token,
            info.host_token == old(state).host_token,
            opt_view(info.last_stdout) == buffer_report(old(state).worker@.stdout),
            opt_view(info.last_stderr) == buffer_report(old(state).worker@.stderr),
    {
        let (running, pid) = state.worker.probe();
        let (base_url, host, port) = match &state.worker.connection {
            Some(c) => (Some(c.base_url.clone()), Some(c.host.clone()), Some(c.port)),
            None => (None, None, None),
        };
        OpenworkServerInfo {
            running,
            host,
            port,
            base_url,
            connect_url: clone_opt_string(&state.connect_url),
            mdns_url: clone_opt_string(&state.mdns_url),
            lan_url: clone_opt_string(&state.lan_url),
            client_token: clone_opt_string(&state.client_token),
            host_token: clone_opt_string(&state.host_token),
            pid,
            last_stdout: report_buffer(&state.worker.stdout_buffer),
            last_stderr: report_buffer(&state.worker.stderr_buffer),
        }
    }

    /// Teardown for the gateway server; the caller kills the returned handle.
    pub fn stop_locked(state: &mut OpenworkServerState) -> (taken: Option<ChildHandle>)
        ensures
            final(state).worker@ == worker_stopped(),
            final(state).connect_url is None,
            final(state).mdns_url is None,
            final(state).lan_url is None,
            final(state).client_token is None,
            final(state).host_token is None,
            final(state).wf(),
            taken == old(state).worker.child,
    {
        let taken = state.worker.reset();
        state.connect_url = None;
        state.mdns_url = None;
        state.lan_url = None;
        state.client_token = None;
        state.host_token = None;
        taken
    }
}

/// State guarded by the multi-engine daemon manager.
pub struct OpenwrkState {
    pub worker: WorkerState,
    pub data_dir: Option<String>,
}

impl OpenwrkState {
    /// The record's buffers respect their cap.
    pub open spec fn wf(self) -> bool {
        self.worker.wf()
    }

    /// An empty daemon record.
    pub fn new() -> (s: Self)
        ensures
            s.worker@ == worker_stopped(),
            s.data_dir is None,
            s.wf(),
    {
        OpenwrkState { worker: WorkerState::new(), data_dir: None }
    }

    /// Records a freshly spawned daemon and the data directory it was told
    /// to use.
    pub fn register_spawn(&mut self, child: ChildHandle, data_dir: String)
        requires
            old(self).worker@.child is None,
            old(self).wf(),
        ensures
            final(self).worker@ == worker_registered(old(self).worker@, child.pid, None, None),
            final(self).data_dir == Some(data_dir),
            final(self).wf(),
    {
        self.worker.register(child, None, None);
        self.data_dir = Some(data_dir);
    }
}

/// Manager for the multi-engine daemon worker.
pub struct OpenwrkManager {
    pub state: OpenwrkState,
}

impl OpenwrkManager {
    /// A manager with nothing running.
    pub fn new() -> (m: Self)
        ensures
            m.state.worker@ == worker_stopped(),
            m.state.wf(),
    {
        OpenwrkManager { state: OpenwrkState::new() }
    }

    /// Teardown for the daemon; the caller kills the returned handle.
    pub fn stop_locked(state: &mut OpenwrkState) -> (taken: Option<ChildHandle>)
        ensures
            final(state).worker@ == worker_stopped(),
            final(state).data_dir is None,
            final(state).wf(),
            taken == old(state).worker.child,
    {
        let taken = state.worker.reset();
        state.data_dir = None;
        taken
    }
}

} // verus!
