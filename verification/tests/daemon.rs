use openwork_core::jsonval::parse_json;
use openwork_core::manager::{OwpenbotManager, OwpenbotState};
use openwork_core::openwrk::{
    assess_health_probe, combine_status, endpoint_url, fetch_openwrk_health, health_from_json,
    health_timeout_error, openwrk_state_path, openwrk_status_from_state, resolve_openwrk_data_dir,
    state_file_from_json, workspace_list_from_json, HealthWait, OpenwrkWorkspaceList,
};
use openwork_core::orchestrator::{
    default_project_config, prepare_workspace_paths, resolve_auth_enabled, resolve_bind_host,
    session_credentials, validate_project_dir,
};
use openwork_core::owpenbot::{
    apply_bot_event, command_failure, detect_whatsapp_link, owpenbot_status_report,
    qr_from_response,
};
use openwork_core::worker::ProcessEvent;

#[test]
fn project_dir_is_validated_and_trimmed() {
    assert_eq!(validate_project_dir(" /ws ").unwrap(), "/ws");
    assert_eq!(validate_project_dir("   ").unwrap_err(), "projectDir is required");
}

#[test]
fn default_config_is_valid_json() {
    let content = default_project_config();
    let value = parse_json(&content).unwrap();
    assert!(value.get("$schema").is_some());
}

#[test]
fn workspace_paths_put_project_first_and_drop_blanks() {
    let extra = vec![
        " ".to_string(),
        "/other".to_string(),
        "/ws".to_string(),
        "/other".to_string(),
    ];
    let paths = prepare_workspace_paths(&"/ws".to_string(), &extra);
    assert_eq!(paths, vec!["/ws", "/other", "/other"]);
}

#[test]
fn bind_host_and_auth_follow_environment() {
    assert_eq!(resolve_bind_host(None), "0.0.0.0");
    assert_eq!(resolve_bind_host(Some("  ".to_string())), "0.0.0.0");
    assert_eq!(resolve_bind_host(Some("127.0.0.1".to_string())), "127.0.0.1");
    assert!(resolve_auth_enabled(None));
    assert!(resolve_auth_enabled(Some("1".to_string())));
    assert!(resolve_auth_enabled(Some("TRUE".to_string())));
    assert!(!resolve_auth_enabled(Some("0".to_string())));
    assert!(!resolve_auth_enabled(Some("yes".to_string())));
}

#[test]
fn session_credentials_are_fresh_uuids() {
    assert!(session_credentials(false).is_none());
    let a = session_credentials(true).unwrap();
    let b = session_credentials(true).unwrap();
    assert_eq!(a.username, "opencode");
    assert_eq!(a.password.len(), 36);
    assert_ne!(a.password, b.password);
}

#[test]
fn data_dir_resolution_prefers_env_overrides() {
    assert_eq!(
        resolve_openwrk_data_dir(Some("/d1".to_string()), Some("/d2".to_string()), None),
        "/d1"
    );
    assert_eq!(
        resolve_openwrk_data_dir(Some(" ".to_string()), Some("/d2".to_string()), None),
        "/d2"
    );
    assert_eq!(
        resolve_openwrk_data_dir(None, None, Some("/home/u".to_string())),
        "/home/u/.openwork/openwrk"
    );
    assert_eq!(resolve_openwrk_data_dir(None, None, None), ".openwork/openwrk");
    assert_eq!(openwrk_state_path("/data"), "/data/openwrk-state.json");
}

#[test]
fn endpoint_urls_strip_trailing_slashes() {
    assert_eq!(endpoint_url("http://h:1/", "/health"), "http://h:1/health");
    assert_eq!(endpoint_url("http://h:1", "/health"), "http://h:1/health");
    assert_eq!(endpoint_url("http://h:1//", "/workspaces"), "http://h:1/workspaces");
}

#[test]
fn health_payload_is_decoded() {
    let v = parse_json(
        "{\"ok\": true, \"daemon\": {\"baseUrl\": \"http://127.0.0.1:7\", \"pid\": 5, \"port\": 7}, \
         \"opencode\": {\"pid\": 9, \"port\": 4096}, \"activeId\": \"ws-1\", \"workspaceCount\": 2}",
    )
    .unwrap();
    let health = health_from_json(&v).unwrap();
    assert!(health.ok);
    let daemon = health.daemon.unwrap();
    assert_eq!(daemon.base_url, "http://127.0.0.1:7");
    assert_eq!(daemon.pid, Some(5));
    assert_eq!(daemon.port, Some(7));
    let opencode = health.opencode.unwrap();
    assert_eq!(opencode.pid, 9);
    assert_eq!(opencode.port, 4096);
    assert_eq!(health.active_id.as_deref(), Some("ws-1"));
    assert_eq!(health.workspace_count, Some(2));
    assert!(health_from_json(&parse_json("{}").unwrap()).is_none());
}

#[test]
fn state_file_and_workspace_list_are_decoded() {
    let v = parse_json(
        "{\"version\": 1, \"activeId\": \"a\", \"workspaces\": [{\"id\": \"a\", \"path\": \"/a\"}, {\"path\": \"/broken\"}]}",
    )
    .unwrap();
    let state = state_file_from_json(&v);
    assert_eq!(state.version, Some(1));
    assert_eq!(state.workspaces.len(), 1);
    assert_eq!(state.workspaces[0].id, "a");
    let list = workspace_list_from_json(&v);
    assert_eq!(list.active_id.as_deref(), Some("a"));
    assert_eq!(list.workspaces.len(), 1);
}

#[test]
fn status_from_state_never_claims_running() {
    let v = parse_json(
        "{\"daemon\": {\"baseUrl\": \"http://h:1\"}, \"activeId\": \"  \", \"workspaces\": [{\"id\": \"a\", \"path\": \"/a\"}]}",
    )
    .unwrap();
    let state = state_file_from_json(&v);
    let status = openwrk_status_from_state("/data", Some(state), Some("boom".to_string()));
    assert!(!status.running);
    assert_eq!(status.data_dir, "/data");
    assert!(status.active_id.is_none(), "a blank active id is dropped");
    assert_eq!(status.workspace_count, 1);
    assert_eq!(status.last_error.as_deref(), Some("boom"));
}

#[test]
fn combine_status_keeps_fallback_on_probe_failure() {
    let fallback = openwrk_status_from_state("/data", None, None);
    let status = combine_status(fallback, Err("connection refused".to_string()), None);
    assert!(!status.running);
    assert_eq!(status.data_dir, "/data");
    assert_eq!(status.last_error.as_deref(), Some("connection refused"));
}

#[test]
fn combine_status_takes_live_report() {
    let fallback = openwrk_status_from_state("/data", None, None);
    let v = parse_json("{\"ok\": true, \"activeId\": \"h\", \"workspaceCount\": 3}").unwrap();
    let health = health_from_json(&v).unwrap();
    let payload = OpenwrkWorkspaceList {
        active_id: Some("p".to_string()),
        workspaces: vec![],
    };
    let status = combine_status(fallback, Ok(health), Some(payload));
    assert!(status.running);
    assert_eq!(status.active_id.as_deref(), Some("p"));
    assert_eq!(status.workspace_count, 0, "the payload's list wins over the count");
    assert!(status.last_error.is_none());
}

#[test]
fn health_probe_verdicts_cover_all_outcomes() {
    let v = parse_json("{\"ok\": true}").unwrap();
    let healthy = health_from_json(&v).unwrap();
    assert!(matches!(assess_health_probe(Ok(healthy)), HealthWait::Ready(_)));
    let v = parse_json("{\"ok\": false}").unwrap();
    let unhealthy = health_from_json(&v).unwrap();
    match assess_health_probe(Ok(unhealthy)) {
        HealthWait::Retry(e) => assert_eq!(e, "Openwrk reported unhealthy"),
        _ => panic!("an unhealthy report must retry"),
    }
    match assess_health_probe(Err("refused".to_string())) {
        HealthWait::Retry(e) => assert_eq!(e, "refused"),
        _ => panic!("a failed probe must retry"),
    }
    assert_eq!(health_timeout_error(Some("refused".to_string())), "refused");
    assert_eq!(health_timeout_error(None), "Timed out waiting for openwrk");
}

#[test]
fn unreachable_daemon_reports_an_error() {
    // Nothing listens on this port; the probe must fail, not hang or panic.
    let outcome = fetch_openwrk_health("http://127.0.0.1:9");
    assert!(outcome.is_err());
}

#[test]
fn bot_events_track_link_and_exit() {
    let mut state = OwpenbotState::new();
    assert!(detect_whatsapp_link("... WhatsApp linked ..."));
    assert!(!detect_whatsapp_link("nothing to see"));
    apply_bot_event(&mut state, &ProcessEvent::Stdout(b"setup: WhatsApp linked\n".to_vec()));
    assert!(state.whatsapp_linked);
    apply_bot_event(&mut state, &ProcessEvent::Terminated(Some(2)));
    assert!(state.worker.child_exited);
    assert_eq!(state.worker.stderr_buffer, "Owpenbot exited (code 2).");
    let info = OwpenbotManager::snapshot_locked(&mut state);
    assert!(!info.running);
    assert_eq!(info.last_stderr.as_deref(), Some("Owpenbot exited (code 2)."));
}

#[test]
fn bot_stop_clears_all_fields() {
    let mut state = OwpenbotState::new();
    state.register_spawn(
        openwork_core::worker::ChildHandle { pid: 7 },
        "/ws".to_string(),
        Some("http://127.0.0.1:1".to_string()),
    );
    let taken = OwpenbotManager::stop_locked(&mut state);
    assert_eq!(taken.map(|h| h.pid), Some(7));
    assert!(state.workspace_path.is_none());
    assert!(state.opencode_url.is_none());
    assert!(!state.whatsapp_linked);
}

#[test]
fn command_failures_carry_context() {
    assert_eq!(command_failure("get status", "exit 1"), "Failed to get status: exit 1");
}

#[test]
fn qr_errors_are_reported() {
    assert_eq!(qr_from_response("{\"error\": \"not linked\"}").unwrap_err(), "not linked");
    assert_eq!(qr_from_response("{}").unwrap_err(), "No QR code returned");
    assert!(qr_from_response("not json").unwrap_err().starts_with("Failed to parse QR response:"));
}

#[test]
fn qr_payload_becomes_a_png() {
    let encoded = qr_from_response("{\"qr\": \"hello-world\"}").unwrap();
    let bytes = base64::Engine::decode(&base64::engine::general_purpose::STANDARD, &encoded)
        .expect("the QR payload must be valid base64");
    // A PNG starts with its fixed signature, so the pipeline really rendered.
    assert_eq!(&bytes[..8], &[0x89, b'P', b'N', b'G', 0x0d, 0x0a, 0x1a, 0x0a]);
}

#[test]
fn status_report_prefers_manager_port() {
    let status = parse_json(
        "{\"config\": \"/c\", \"healthPort\": 9001, \"opencode\": {\"url\": \"http://e:1\"}}",
    )
    .unwrap();
    let whatsapp = parse_json("{\"linked\": true, \"dmPolicy\": \"open\", \"allowFrom\": [\"a\", 2]}").unwrap();
    let telegram = parse_json("{\"configured\": true, \"enabled\": false}").unwrap();
    let report = owpenbot_status_report(&status, &whatsapp, &telegram, true, Some(9002));
    assert!(report.running);
    assert_eq!(report.config_path, "/c");
    assert_eq!(report.health_port, Some(9002));
    assert!(report.whatsapp_linked);
    assert_eq!(report.whatsapp_dm_policy, "open");
    assert_eq!(report.whatsapp_allow_from, vec!["a"]);
    assert!(report.telegram_configured);
    assert!(!report.telegram_enabled);
    assert_eq!(report.opencode_url, "http://e:1");
    let report = owpenbot_status_report(&status, &whatsapp, &telegram, false, None);
    assert!(!report.running);
    assert_eq!(report.health_port, Some(9001));
    assert_eq!(report.whatsapp_dm_policy, "open");
}

#[test]
fn daemon_mode_engine_info_derives_loopback_url() {
    let v = parse_json(
        "{\"ok\": true, \"opencode\": {\"pid\": 9, \"port\": 4096}, \"activeId\": \"a\", \"workspaceCount\": 1}",
    )
    .unwrap();
    let health = health_from_json(&v).unwrap();
    let fallback = openwrk_status_from_state("/data", None, None);
    let payload = OpenwrkWorkspaceList {
        active_id: Some("a".to_string()),
        workspaces: vec![openwork_core::openwrk::OpenwrkWorkspace {
            id: "a".to_string(),
            path: "/ws/a".to_string(),
        }],
    };
    let status = combine_status(fallback, Ok(health), Some(payload));
    let info = openwork_core::openwrk::engine_info_for_daemon(&status, Some("/fb".to_string()), None, None);
    assert!(info.running);
    assert_eq!(info.base_url.as_deref(), Some("http://127.0.0.1:4096"));
    assert_eq!(info.port, Some(4096));
    assert_eq!(info.pid, Some(9));
    assert_eq!(info.hostname.as_deref(), Some("127.0.0.1"));
    assert_eq!(info.project_dir.as_deref(), Some("/ws/a"));
    let empty = openwrk_status_from_state("/data", None, None);
    let info = openwork_core::openwrk::engine_info_for_daemon(&empty, Some("/fb".to_string()), None, None);
    assert!(!info.running);
    assert_eq!(info.project_dir.as_deref(), Some("/fb"));
    assert!(info.base_url.is_none());
}
