use openwork_core::workspace::{
    add_authorized_root, forget_workspace, set_active_workspace, stable_workspace_id,
    stable_workspace_id_for_remote, starter_workspace_info, upsert_workspace, WorkspaceInfo,
    WorkspaceOpenworkConfig, WorkspaceState, WorkspaceType, WORKSPACE_STATE_VERSION,
};

fn info(id: &str, path: &str) -> WorkspaceInfo {
    WorkspaceInfo {
        id: id.to_string(),
        name: id.to_string(),
        path: path.to_string(),
        preset: "starter".to_string(),
        workspace_type: WorkspaceType::Local,
        remote_type: None,
        base_url: None,
        directory: None,
        display_name: None,
        openwork_host_url: None,
        openwork_workspace_id: None,
        openwork_workspace_name: None,
    }
}

#[test]
fn stable_ids_are_deterministic_and_distinct() {
    let a = stable_workspace_id("/home/u/project");
    let b = stable_workspace_id("/home/u/project");
    let c = stable_workspace_id("/home/u/other");
    assert_eq!(a, b);
    assert_ne!(a, c);
    assert!(a.starts_with("ws-"));
}

#[test]
fn remote_ids_separate_url_and_directory() {
    let a = stable_workspace_id_for_remote("http://h:1", Some("/x"));
    let b = stable_workspace_id_for_remote("http://h:1", Some("/y"));
    let c = stable_workspace_id_for_remote("http://h:1", Some("/x"));
    assert_ne!(a, b);
    assert_eq!(a, c);
    assert!(a.starts_with("ws-remote-"));
}

#[test]
fn fresh_registry_defaults_to_starter() {
    let state = WorkspaceState::default();
    assert_eq!(state.version, WORKSPACE_STATE_VERSION);
    assert_eq!(state.active_id, "starter");
    assert!(state.workspaces.is_empty());
}

#[test]
fn upsert_replaces_same_id_and_activates() {
    let mut state = WorkspaceState::default();
    upsert_workspace(&mut state, info("a", "/a"));
    upsert_workspace(&mut state, info("b", "/b"));
    upsert_workspace(&mut state, info("a", "/a2"));
    assert_eq!(state.active_id, "a");
    let ids: Vec<&str> = state.workspaces.iter().map(|w| w.id.as_str()).collect();
    assert_eq!(ids, vec!["b", "a"]);
    assert_eq!(state.workspaces[1].path, "/a2");
}

#[test]
fn forget_validates_and_moves_active() {
    let mut state = WorkspaceState::default();
    upsert_workspace(&mut state, info("a", "/a"));
    upsert_workspace(&mut state, info("b", "/b"));
    assert_eq!(forget_workspace(&mut state, "  ").unwrap_err(), "workspaceId is required");
    assert_eq!(forget_workspace(&mut state, "zz").unwrap_err(), "Unknown workspaceId");
    forget_workspace(&mut state, "b").unwrap();
    assert_eq!(state.active_id, "a");
    forget_workspace(&mut state, "a").unwrap();
    assert_eq!(state.active_id, "");
    assert!(state.workspaces.is_empty());
}

#[test]
fn set_active_requires_known_id() {
    let mut state = WorkspaceState::default();
    upsert_workspace(&mut state, info("a", "/a"));
    upsert_workspace(&mut state, info("b", "/b"));
    assert_eq!(set_active_workspace(&mut state, "").unwrap_err(), "workspaceId is required");
    assert_eq!(set_active_workspace(&mut state, "zz").unwrap_err(), "Unknown workspaceId");
    set_active_workspace(&mut state, " a ").unwrap();
    assert_eq!(state.active_id, "a");
}

#[test]
fn openwork_config_infers_workspace_name() {
    let config = WorkspaceOpenworkConfig::new("/home/u/My Project", "starter", 123);
    let workspace = config.workspace.unwrap();
    assert_eq!(workspace.name.as_deref(), Some("My Project"));
    assert_eq!(workspace.created_at, Some(123));
    assert_eq!(workspace.preset.as_deref(), Some("starter"));
    assert_eq!(config.authorized_roots, vec!["/home/u/My Project"]);
    assert_eq!(config.version, 1);
}

#[test]
fn openwork_config_falls_back_to_fixed_name() {
    let config = WorkspaceOpenworkConfig::new("/", "starter", 1);
    let workspace = config.workspace.unwrap();
    assert_eq!(workspace.name.as_deref(), Some("Workspace"));
}

#[test]
fn authorized_roots_never_duplicate() {
    let mut config = WorkspaceOpenworkConfig::default();
    add_authorized_root(&mut config, "/ws");
    add_authorized_root(&mut config, "/extra");
    add_authorized_root(&mut config, "/ws");
    assert_eq!(config.authorized_roots, vec!["/ws", "/extra"]);
}

#[test]
fn starter_workspace_is_local_and_stable() {
    let starter = starter_workspace_info("/data/workspaces/starter".to_string());
    assert_eq!(starter.name, "Starter");
    assert_eq!(starter.preset, "starter");
    assert_eq!(starter.id, stable_workspace_id("/data/workspaces/starter"));
    assert!(matches!(starter.workspace_type, WorkspaceType::Local));
}

use openwork_core::workspace::{local_workspace_info, remote_workspace_info, update_remote_workspace};

#[test]
fn local_and_remote_constructors_fill_the_record() {
    let local = local_workspace_info("/p".to_string(), "P".to_string(), "starter".to_string());
    assert_eq!(local.id, stable_workspace_id("/p"));
    assert_eq!(local.name, "P");
    assert!(matches!(local.workspace_type, WorkspaceType::Local));

    let remote = remote_workspace_info("http://h:1".to_string(), Some("/d".to_string()), None);
    assert_eq!(remote.name, "http://h:1");
    assert_eq!(remote.path, "/d");
    assert_eq!(remote.preset, "remote");
    assert!(matches!(remote.workspace_type, WorkspaceType::Remote));
    assert_eq!(remote.id, stable_workspace_id_for_remote("http://h:1", Some("/d")));
}

#[test]
fn remote_updates_validate_scheme_and_target() {
    let mut state = WorkspaceState::default();
    upsert_workspace(&mut state, info("local", "/l"));
    upsert_workspace(
        &mut state,
        remote_workspace_info("http://h:1".to_string(), None, None),
    );
    let remote_id = state.workspaces[1].id.clone();
    assert_eq!(
        update_remote_workspace(&mut state, " ", None, None, None).unwrap_err(),
        "workspaceId is required"
    );
    assert_eq!(
        update_remote_workspace(&mut state, "zz", None, None, None).unwrap_err(),
        "Unknown workspaceId"
    );
    assert_eq!(
        update_remote_workspace(&mut state, "local", None, None, None).unwrap_err(),
        "workspaceId is not remote"
    );
    assert_eq!(
        update_remote_workspace(&mut state, &remote_id, Some("ftp://x".to_string()), None, None)
            .unwrap_err(),
        "baseUrl must start with http:// or https://"
    );
    update_remote_workspace(
        &mut state,
        &remote_id,
        Some(" https://new:2 ".to_string()),
        Some("/dir".to_string()),
        Some("Nice".to_string()),
    )
    .unwrap();
    let entry = &state.workspaces[1];
    assert_eq!(entry.base_url.as_deref(), Some("https://new:2"));
    assert_eq!(entry.directory.as_deref(), Some("/dir"));
    assert_eq!(entry.path, "/dir");
    assert_eq!(entry.name, "Nice");
    assert_eq!(entry.display_name.as_deref(), Some("Nice"));
}

use openwork_core::workspace::{bootstrap_registry, openwork_config_path, openwork_read_fallback};

#[test]
fn bootstrap_registers_starter_and_repairs_active() {
    let starter = starter_workspace_info("/data/workspaces/starter".to_string());
    let starter_id = starter.id.clone();
    let mut state = WorkspaceState::default();
    bootstrap_registry(&mut state, starter.duplicate());
    assert_eq!(state.workspaces.len(), 1);
    assert_eq!(state.active_id, starter_id, "a dangling active id falls back to the starter");
    // A second bootstrap neither duplicates nor reactivates.
    upsert_workspace(&mut state, info("a", "/a"));
    bootstrap_registry(&mut state, starter.duplicate());
    assert_eq!(state.workspaces.len(), 2);
    assert_eq!(state.active_id, "a");
}

#[test]
fn per_workspace_config_location_and_fallback() {
    assert_eq!(openwork_config_path("/ws"), "/ws/.opencode/openwork.json");
    let fallback = openwork_read_fallback("/ws");
    assert_eq!(fallback.version, 1);
    assert!(fallback.workspace.is_none());
    assert_eq!(fallback.authorized_roots, vec!["/ws"]);
}
