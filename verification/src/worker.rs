//! The per-worker supervision state: one record per supervised process kind,
//! holding the child handle, the exit flag raised by the output drain task,
//! connection info, per-session credentials and the two bounded output
//! buffers. The surrounding application guards each record with a mutex and
//! calls into these functions while holding it.

use vstd::prelude::*;
use vstd::string::*;
use crate::text::bounded_tail;

verus! {

/// Byte/character cap on each retained output buffer.
pub const OUTPUT_CAP: usize = 8000;

/// Plain stand-in for an owned OS process handle: the library decides over
/// the process id; killing and waiting stay with the caller that owns the
/// real handle.
#[derive(Clone, Copy, PartialEq, Eq, Structural, Debug)]
pub struct ChildHandle {
    pub pid: u32,
}

/// Where a running worker can be reached.
#[derive(Clone, Debug)]
pub struct Connection {
    pub host: String,
    pub port: u16,
    pub base_url: String,
}

/// Per-session credentials generated at spawn time.
#[derive(Clone, Debug)]
pub struct Credentials {
    pub username: String,
    pub password: String,
}

/// One event from a spawned process's output/lifecycle stream.
pub enum ProcessEvent {
    Stdout(Vec<u8>),
    Stderr(Vec<u8>),
    Terminated(Option<i32>),
    SpawnError(String),
}

/// Mathematical image of a connection record.
pub struct ConnectionModel {
    pub host: Seq<char>,
    pub port: u16,
    pub base_url: Seq<char>,
}

/// Mathematical image of a credentials record.
pub struct CredentialsModel {
    pub username: Seq<char>,
    pub password: Seq<char>,
}

/// Mathematical image of a process event, with output chunks already decoded.
pub enum EventModel {
    Stdout(Seq<char>),
    Stderr(Seq<char>),
    Terminated(Option<i32>),
    SpawnError(Seq<char>),
}

/// Mathematical image of a worker record.
pub struct WorkerModel {
    pub child: Option<u32>,
    pub child_exited: bool,
    pub connection: Option<ConnectionModel>,
    pub credentials: Option<CredentialsModel>,
    pub stdout: Seq<char>,
    pub stderr: Seq<char>,
}

/// What `String::from_utf8_lossy` decodes a byte sequence to.
pub uninterp spec fn lossy_decode(bytes: Seq<u8>) -> Seq<char>;

/// Relies on `String::from_utf8_lossy`: decoding never fails; the result is a
/// function of the bytes alone, and no bytes give an empty result unless the
/// input is empty.
#[verifier::external_body]
pub fn decode_lossy(bytes: &Vec<u8>) -> (r: String)
    ensures
        r@ == lossy_decode(bytes@),
        (r@.len() == 0) == (bytes@.len() == 0),
{
    String::from_utf8_lossy(bytes).into_owned()
}

impl View for Connection {
    type V = ConnectionModel;

    open spec fn view(&self) -> ConnectionModel {
        ConnectionModel { host: self.host@, port: self.port, base_url: self.base_url@ }
    }
}

impl View for Credentials {
    type V = CredentialsModel;

    open spec fn view(&self) -> CredentialsModel {
        CredentialsModel { username: self.username@, password: self.password@ }
    }
}

impl View for ProcessEvent {
    type V = EventModel;

    open spec fn view(&self) -> EventModel {
        match self {
            ProcessEvent::Stdout(b) => EventModel::Stdout(lossy_decode(b@)),
            ProcessEvent::Stderr(b) => EventModel::Stderr(lossy_decode(b@)),
            ProcessEvent::Terminated(code) => EventModel::Terminated(*code),
            ProcessEvent::SpawnError(msg) => EventModel::SpawnError(msg@),
        }
    }
}

/// The state a service manager guards for one worker kind.
pub struct WorkerState {
    pub child: Option<ChildHandle>,
    pub child_exited: bool,
    pub connection: Option<Connection>,
    pub credentials: Option<Credentials>,
    pub stdout_buffer: String,
    pub stderr_buffer: String,
}

impl View for WorkerState {
    type V = WorkerModel;

    open spec fn view(&self) -> WorkerModel {
        WorkerModel {
            child: match self.child {
                Some(h) => Some(h.pid),
                None => None,
            },
            child_exited: self.child_exited,
            connection: match self.connection {
                Some(c) => Some(c@),
                None => None,
            },
            credentials: match self.credentials {
                Some(c) => Some(c@),
                None => None,
            },
            stdout: self.stdout_buffer@,
            stderr: self.stderr_buffer@,
        }
    }
}

/// The freshly constructed (and fully stopped) worker record.
pub open spec fn worker_stopped() -> WorkerModel {
    WorkerModel {
        child: None,
        child_exited: false,
        connection: None,
        credentials: None,
        stdout: Seq::empty(),
        stderr: Seq::empty(),
    }
}

/// How one stream event changes the worker record: output is appended to the
/// bounded buffer that matches its stream, termination raises the exit flag,
/// and a spawn-level error raises the flag and lands in the stderr buffer.
pub open spec fn worker_apply(m: WorkerModel, e: EventModel) -> WorkerModel {
    match e {
        EventModel::Stdout(c) => WorkerModel {
            stdout: bounded_tail(m.stdout + c, OUTPUT_CAP as nat),
            ..m
        },
        EventModel::Stderr(c) => WorkerModel {
            stderr: bounded_tail(m.stderr + c, OUTPUT_CAP as nat),
            ..m
        },
        EventModel::Terminated(_) => WorkerModel { child_exited: true, ..m },
        EventModel::SpawnError(msg) => WorkerModel {
            child_exited: true,
            stderr: bounded_tail(m.stderr + msg, OUTPUT_CAP as nat),
            ..m
        },
    }
}

/// Whether a snapshot taken now reports the worker as running.
pub open spec fn worker_running(m: WorkerModel) -> bool {
    m.child is Some && !m.child_exited
}

/// The process id a snapshot taken now reports.
pub open spec fn worker_pid(m: WorkerModel) -> Option<u32> {
    if worker_running(m) {
        m.child
    } else {
        None
    }
}

/// How a snapshot reaps an exited child: the handle is cleared and the exit
/// flag consumed; everything else (connection info, buffers) stays readable.
pub open spec fn worker_after_probe(m: WorkerModel) -> WorkerModel {
    if m.child is Some && m.child_exited {
        WorkerModel { child: None, child_exited: false, ..m }
    } else {
        m
    }
}

/// Appends `chunk` to `buf`, then drops the oldest characters so that at
/// most `OUTPUT_CAP` remain: the most recent output is the most valuable.
pub fn append_capped(buf: &mut String, chunk: &str)
    ensures
        final(buf)@ == bounded_tail(old(buf)@ + chunk@, OUTPUT_CAP as nat),
        final(buf)@.len() <= OUTPUT_CAP,
{
    buf.append(chunk);
    let len = buf.as_str().unicode_len();
    if len > OUTPUT_CAP {
        let tail = {
            let piece = buf.as_str().substring_char(len - OUTPUT_CAP, len);
            String::from_str(piece)
        };
        *buf = tail;
        proof {
            assert(final(buf)@ =~= bounded_tail(old(buf)@ + chunk@, OUTPUT_CAP as nat));
        }
    }
}

impl WorkerState {
    /// Both output buffers respect the cap.
    pub open spec fn wf(self) -> bool {
        self.stdout_buffer@.len() <= OUTPUT_CAP && self.stderr_buffer@.len() <= OUTPUT_CAP
    }

    /// An empty record: nothing running, nothing retained.
    pub fn new() -> (s: Self)
        ensures
            s@ == worker_stopped(),
            s.wf(),
    {
        let s = WorkerState {
            child: None,
            child_exited: false,
            connection: None,
            credentials: None,
            stdout_buffer: String::new(),
            stderr_buffer: String::new(),
        };
        proof {
            assert(s@ =~= worker_stopped());
        }
        s
    }

    /// Folds one stream event into the record. The output drain task calls
    /// this under the manager's lock, one event at a time.
    pub fn apply_event(&mut self, event: &ProcessEvent)
        requires
            old(self).wf(),
        ensures
            final(self)@ == worker_apply(old(self)@, event@),
            final(self).wf(),
    {
        match event {
            ProcessEvent::Stdout(bytes) => {
                let decoded = decode_lossy(bytes);
                append_capped(&mut self.stdout_buffer, decoded.as_str());
            },
            ProcessEvent::Stderr(bytes) => {
                let decoded = decode_lossy(bytes);
                append_capped(&mut self.stderr_buffer, decoded.as_str());
            },
            ProcessEvent::Terminated(_) => {
                self.child_exited = true;
            },
            ProcessEvent::SpawnError(msg) => {
                self.child_exited = true;
                let text = msg.clone();
                append_capped(&mut self.stderr_buffer, text.as_str());
            },
        }
    }

    /// The snapshot core: reports whether the worker runs (and under which
    /// pid), reaping a child whose exit the drain task has flagged.
    pub fn probe(&mut self) -> (r: (bool, Option<u32>))
        ensures
            final(self)@ == worker_after_probe(old(self)@),
            r.0 == worker_running(old(self)@),
            r.1 == worker_pid(old(self)@),
    {
        match &self.child {
            None => (false, None),
            Some(child) => {
                let pid = child.pid;
                if self.child_exited {
                    self.child = None;
                    self.child_exited = false;
                    (false, None)
                } else {
                    (true, Some(pid))
                }
            },
        }
    }

    /// The stop core: clears every field and hands back the child handle, if
    /// any, for the caller to kill and wait on before it releases the lock.
    pub fn reset(&mut self) -> (taken: Option<ChildHandle>)
        ensures
            final(self)@ == worker_stopped(),
            final(self).wf(),
            taken == old(self).child,
    {
        let taken = self.child.take();
        self.child_exited = false;
        self.connection = None;
        self.credentials = None;
        self.stdout_buffer = String::new();
        self.stderr_buffer = String::new();
        proof {
            assert(final(self)@ =~= worker_stopped());
        }
        taken
    }

    /// Records a successful spawn: the fresh handle plus the connection info
    /// and credentials it was launched with. Requires a prior stop, so a
    /// handle can never be overwritten (and leaked) by a later spawn.
    pub fn register(
        &mut self,
        child: ChildHandle,
        connection: Option<Connection>,
        credentials: Option<Credentials>,
    )
        requires
            old(self)@.child is None,
            old(self).wf(),
        ensures
            final(self)@ == worker_registered(old(self)@, child.pid, view_opt_connection(connection), view_opt_credentials(credentials)),
            final(self).wf(),
    {
        self.child = Some(child);
        self.child_exited = false;
        self.connection = connection;
        self.credentials = credentials;
    }
}

/// View of an optional connection.
pub open spec fn view_opt_connection(c: Option<Connection>) -> Option<ConnectionModel> {
    match c {
        Some(c) => Some(c@),
        None => None,
    }
}

/// View of optional credentials.
pub open spec fn view_opt_credentials(c: Option<Credentials>) -> Option<CredentialsModel> {
    match c {
        Some(c) => Some(c@),
        None => None,
    }
}

/// How a successful spawn changes the record.
pub open spec fn worker_registered(
    m: WorkerModel,
    pid: u32,
    connection: Option<ConnectionModel>,
    credentials: Option<CredentialsModel>,
) -> WorkerModel {
    WorkerModel { child: Some(pid), child_exited: false, connection, credentials, ..m }
}

/// Law: output buffers never exceed the configured cap, however much the
/// child writes, and what is kept is always the most recent output: after
/// any event, each buffer is the longest suffix of (old buffer + new chunk)
/// that fits the cap.
pub proof fn lemma_buffer_cap_and_recency(m: WorkerModel, e: EventModel)
    requires
        m.stdout.len() <= OUTPUT_CAP,
        m.stderr.len() <= OUTPUT_CAP,
    ensures
        worker_apply(m, e).stdout.len() <= OUTPUT_CAP,
        worker_apply(m, e).stderr.len() <= OUTPUT_CAP,
        e matches EventModel::Stdout(c) ==> {
            let kept = worker_apply(m, e).stdout;
            let whole = m.stdout + c;
            kept.len() == if whole.len() <= OUTPUT_CAP {
                whole.len()
            } else {
                OUTPUT_CAP as nat
            } && crate::text::ends_with_seq(whole, kept)
        },
        e matches EventModel::Stderr(c) ==> {
            let kept = worker_apply(m, e).stderr;
            let whole = m.stderr + c;
            kept.len() == if whole.len() <= OUTPUT_CAP {
                whole.len()
            } else {
                OUTPUT_CAP as nat
            } && crate::text::ends_with_seq(whole, kept)
        },
{
    match e {
        EventModel::Stdout(c) => {
            let whole = m.stdout + c;
            let kept = bounded_tail(whole, OUTPUT_CAP as nat);
            assert(whole.subrange(whole.len() - kept.len(), whole.len() as int) =~= kept);
        },
        EventModel::Stderr(c) => {
            let whole = m.stderr + c;
            let kept = bounded_tail(whole, OUTPUT_CAP as nat);
            assert(whole.subrange(whole.len() - kept.len(), whole.len() as int) =~= kept);
        },
        EventModel::SpawnError(msg) => {
            let whole = m.stderr + msg;
            let kept = bounded_tail(whole, OUTPUT_CAP as nat);
            assert(whole.subrange(whole.len() - kept.len(), whole.len() as int) =~= kept);
        },
        EventModel::Terminated(_) => {},
    }
}

/// Law: a process exit observed by the drain task (a termination event, even
/// for a child killed out-of-band) flips the very next snapshot to
/// not-running, with no explicit stop required, and that snapshot reaps the
/// handle.
pub proof fn lemma_exit_seen_on_next_snapshot(m: WorkerModel, code: Option<i32>)
    ensures
        !worker_running(worker_apply(m, EventModel::Terminated(code))),
        worker_pid(worker_apply(m, EventModel::Terminated(code))) is None,
        m.child is Some ==> worker_after_probe(worker_apply(m, EventModel::Terminated(code))).child
            is None,
{
}

/// Law: stopping is idempotent and a stop with no running child is a no-op;
/// after any stop, a snapshot reports not-running with empty connection info
/// and does not change the record further.
pub proof fn lemma_stop_idempotent_and_clean()
    ensures
        !worker_running(worker_stopped()),
        worker_pid(worker_stopped()) is None,
        worker_stopped().connection is None,
        worker_stopped().credentials is None,
        worker_after_probe(worker_stopped()) == worker_stopped(),
{
}

} // verus!
