use openwork_core::manager::{EngineManager, EngineState};
use openwork_core::orchestrator::{
    record_secondary_failure, stop_all, warmup_step, WarmupVerdict,
};
use openwork_core::manager::{OpenworkServerState, OpenwrkState, OwpenbotState};
use openwork_core::worker::{ChildHandle, Connection, ProcessEvent, WorkerState, OUTPUT_CAP};

fn running_engine(pid: u32, port: u16) -> EngineState {
    let mut state = EngineState::new();
    state.register_spawn(
        ChildHandle { pid },
        Connection {
            host: "127.0.0.1".to_string(),
            port,
            base_url: format!("http://127.0.0.1:{port}"),
        },
        None,
        "/tmp/work".to_string(),
    );
    state
}

#[test]
fn second_start_holds_exactly_one_child_per_kind() {
    let mut engine = running_engine(41, 4141);
    let mut openwrk = OpenwrkState::new();
    let mut gateway = OpenworkServerState::new();
    let mut bot = OwpenbotState::new();
    bot.register_spawn(ChildHandle { pid: 42 }, "/tmp/work".to_string(), None);

    // The restart first stops everything, handing back every live handle.
    let handles = stop_all(&mut engine, &mut openwrk, &mut gateway, &mut bot);
    let pids: Vec<u32> = handles.iter().map(|h| h.pid).collect();
    assert_eq!(pids, vec![41, 42]);
    assert!(engine.worker.child.is_none());
    assert!(bot.worker.child.is_none());

    // The second start registers fresh children; each manager holds one.
    engine.register_spawn(
        ChildHandle { pid: 51 },
        Connection {
            host: "127.0.0.1".to_string(),
            port: 5151,
            base_url: "http://127.0.0.1:5151".to_string(),
        },
        None,
        "/tmp/work".to_string(),
    );
    bot.register_spawn(ChildHandle { pid: 52 }, "/tmp/work".to_string(), None);
    let info = EngineManager::snapshot_locked(&mut engine);
    assert!(info.running);
    assert_eq!(info.pid, Some(51));
    let bot_info = openwork_core::manager::OwpenbotManager::snapshot_locked(&mut bot);
    assert!(bot_info.running);
    assert_eq!(bot_info.pid, Some(52));
}

#[test]
fn stop_without_child_is_noop_and_snapshot_reports_not_running() {
    let mut state = EngineState::new();
    let taken = EngineManager::stop_locked(&mut state);
    assert!(taken.is_none());
    let info = EngineManager::snapshot_locked(&mut state);
    assert!(!info.running);
    assert!(info.base_url.is_none());
    assert!(info.hostname.is_none());
    assert!(info.port.is_none());
    assert!(info.pid.is_none());
}

#[test]
fn warmup_crash_error_carries_stderr_and_leaves_nothing_running() {
    let state = EngineState::new();
    let verdict = warmup_step(true, Some(1), "", "bind failed: address in use\n", false);
    match verdict {
        WarmupVerdict::Failed(msg) => {
            assert!(msg.contains("bind failed: address in use"));
            assert_eq!(
                msg,
                "OpenCode exited immediately with status 1.\n\nstderr:\nbind failed: address in use"
            );
        }
        _ => panic!("an exited process must fail the warm-up gate"),
    }
    // The spawn was never registered, so nothing is left running.
    let mut state = state;
    let info = EngineManager::snapshot_locked(&mut state);
    assert!(!info.running);
}

#[test]
fn warmup_gate_waits_then_accepts() {
    assert!(matches!(warmup_step(false, None, "", "", false), WarmupVerdict::Continue));
    assert!(matches!(warmup_step(false, None, "", "", true), WarmupVerdict::Ready));
}

#[test]
fn warmup_crash_message_without_output_is_bare() {
    match warmup_step(true, None, "  ", "\n", false) {
        WarmupVerdict::Failed(msg) => {
            assert_eq!(msg, "OpenCode exited immediately with status -1.");
        }
        _ => panic!("expected a failure verdict"),
    }
}

#[test]
fn output_buffers_never_exceed_cap_and_keep_recent_bytes() {
    let mut worker = WorkerState::new();
    let first: Vec<u8> = std::iter::repeat(b'a').take(5000).collect();
    let second: Vec<u8> = std::iter::repeat(b'b').take(5000).collect();
    worker.apply_event(&ProcessEvent::Stdout(first));
    worker.apply_event(&ProcessEvent::Stdout(second));
    let kept = worker.stdout_buffer.clone();
    assert_eq!(kept.len(), OUTPUT_CAP);
    // The oldest output fell off the front; the most recent bytes survive.
    assert!(kept.starts_with(&"a".repeat(3000)));
    assert!(kept.ends_with(&"b".repeat(5000)));
}

#[test]
fn stderr_buffer_is_capped_too() {
    let mut worker = WorkerState::new();
    let noise: Vec<u8> = std::iter::repeat(b'x').take(20000).collect();
    worker.apply_event(&ProcessEvent::Stderr(noise));
    assert_eq!(worker.stderr_buffer.len(), OUTPUT_CAP);
}

#[test]
fn invalid_utf8_is_decoded_lossily() {
    let mut worker = WorkerState::new();
    worker.apply_event(&ProcessEvent::Stdout(vec![0xff, b'o', b'k']));
    assert_eq!(worker.stdout_buffer, "\u{FFFD}ok");
}

#[test]
fn secondary_failure_is_recorded_without_unwinding_primary() {
    let mut state = running_engine(77, 7777);
    record_secondary_failure(&mut state, "OpenWork server", "spawn failed");
    let info = EngineManager::snapshot_locked(&mut state);
    assert!(info.running);
    assert_eq!(info.base_url.as_deref(), Some("http://127.0.0.1:7777"));
    assert_eq!(info.last_stderr.as_deref(), Some("OpenWork server: spawn failed"));
}

#[test]
fn out_of_band_exit_flips_next_snapshot_to_not_running() {
    let mut state = running_engine(88, 8888);
    let info = EngineManager::snapshot_locked(&mut state);
    assert!(info.running);
    // The drain task observes the termination of the externally killed child.
    state.worker.apply_event(&ProcessEvent::Terminated(Some(137)));
    let info = EngineManager::snapshot_locked(&mut state);
    assert!(!info.running);
    assert!(info.pid.is_none());
    // The connection info stays readable after the crash.
    assert_eq!(info.base_url.as_deref(), Some("http://127.0.0.1:8888"));
    // The exit was reaped: the handle is gone for good.
    assert!(state.worker.child.is_none());
    let info = EngineManager::snapshot_locked(&mut state);
    assert!(!info.running);
}

#[test]
fn spawn_error_event_marks_exit_and_logs() {
    let mut worker = WorkerState::new();
    worker.apply_event(&ProcessEvent::SpawnError("exec failed".to_string()));
    assert!(worker.child_exited);
    assert_eq!(worker.stderr_buffer, "exec failed");
}

#[test]
fn stop_returns_handle_and_clears_everything() {
    let mut state = running_engine(99, 9999);
    state.worker.apply_event(&ProcessEvent::Stdout(b"hello".to_vec()));
    let taken = EngineManager::stop_locked(&mut state);
    assert_eq!(taken.map(|h| h.pid), Some(99));
    assert!(state.worker.connection.is_none());
    assert!(state.project_dir.is_none());
    assert_eq!(state.worker.stdout_buffer, "");
    let info = EngineManager::snapshot_locked(&mut state);
    assert!(!info.running);
    assert!(info.last_stdout.is_none());
}
