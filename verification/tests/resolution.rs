use openwork_core::resolve::{
    candidate_opencode_paths, candidate_xdg_config_dirs, candidate_xdg_data_dirs, home_dir_from,
    maybe_infer_xdg_home, resolve_engine_path, resolve_in_path, resolve_opencode_executable,
    resolve_sidecar_candidate, sidecar_candidate_paths,
};

#[test]
fn sidecar_candidates_are_ordered() {
    let cands = sidecar_candidate_paths(Some("/res".to_string()), Some("/bin".to_string()));
    assert_eq!(
        cands,
        vec![
            "/bin/opencode",
            "/res/sidecars/opencode",
            "/res/opencode",
            "src-tauri/sidecars/opencode",
        ]
    );
    let bare = sidecar_candidate_paths(None, None);
    assert_eq!(bare, vec!["src-tauri/sidecars/opencode"]);
}

#[test]
fn resolves_sidecar_from_current_binary_dir() {
    let cands = sidecar_candidate_paths(None, Some("/tmp/bindir".to_string()));
    let present = vec![true];
    let (resolved, notes) = resolve_sidecar_candidate(true, &cands, &present);
    assert_eq!(resolved.as_deref(), Some("/tmp/bindir/opencode"));
    assert!(notes.iter().any(|note| note.contains("Using bundled sidecar")), "missing success note: {:?}", notes);
}

#[test]
fn sidecar_scan_notes_each_miss() {
    let cands = vec!["/a/opencode".to_string(), "/b/opencode".to_string()];
    let present = vec![false, true];
    let (resolved, notes) = resolve_sidecar_candidate(true, &cands, &present);
    assert_eq!(resolved.as_deref(), Some("/b/opencode"));
    assert_eq!(
        notes,
        vec!["Sidecar missing: /a/opencode", "Using bundled sidecar: /b/opencode"]
    );
}

#[test]
fn sidecar_not_preferred_is_not_probed() {
    let cands = vec!["/a/opencode".to_string()];
    let present = vec![true];
    let (resolved, notes) = resolve_sidecar_candidate(false, &cands, &present);
    assert!(resolved.is_none());
    assert!(notes.is_empty());
}

#[test]
fn resolve_engine_path_prefers_sidecar() {
    let sidecar_cands = vec!["/bin/opencode".to_string()];
    let sidecar_present = vec![true];
    let fallback = vec!["/usr/bin/opencode".to_string()];
    let fallback_present = vec![true];
    let (resolved, in_path, _notes) = resolve_engine_path(
        true,
        &sidecar_cands,
        &sidecar_present,
        None,
        false,
        Some("/from/path/opencode".to_string()),
        &fallback,
        &fallback_present,
    );
    assert_eq!(resolved.as_deref(), Some("/bin/opencode"));
    assert!(!in_path);
}

#[test]
fn engine_path_falls_back_to_search_path() {
    let sidecar_cands = vec!["/bin/opencode".to_string()];
    let sidecar_present = vec![false];
    let fallback = vec!["/usr/bin/opencode".to_string()];
    let fallback_present = vec![false];
    let (resolved, in_path, notes) = resolve_engine_path(
        true,
        &sidecar_cands,
        &sidecar_present,
        None,
        false,
        Some("/from/path/opencode".to_string()),
        &fallback,
        &fallback_present,
    );
    assert_eq!(resolved.as_deref(), Some("/from/path/opencode"));
    assert!(in_path);
    assert_eq!(
        notes,
        vec!["Sidecar missing: /bin/opencode", "Found in PATH: /from/path/opencode"]
    );
}

#[test]
fn override_beats_search_path() {
    let cands: Vec<String> = Vec::new();
    let present: Vec<bool> = Vec::new();
    let (resolved, in_path, notes) = resolve_opencode_executable(
        Some(" /custom/opencode ".to_string()),
        true,
        Some("/from/path/opencode".to_string()),
        &cands,
        &present,
    );
    assert_eq!(resolved.as_deref(), Some("/custom/opencode"));
    assert!(!in_path);
    assert_eq!(notes, vec!["Using OPENCODE_BIN_PATH: /custom/opencode"]);
}

#[test]
fn missing_override_is_noted_then_locations_scanned() {
    let cands = vec!["/opt/homebrew/bin/opencode".to_string(), "/usr/bin/opencode".to_string()];
    let present = vec![false, true];
    let (resolved, in_path, notes) =
        resolve_opencode_executable(Some("/custom/opencode".to_string()), false, None, &cands, &present);
    assert_eq!(resolved.as_deref(), Some("/usr/bin/opencode"));
    assert!(!in_path);
    assert_eq!(
        notes,
        vec![
            "OPENCODE_BIN_PATH set but missing: /custom/opencode",
            "Not found on PATH",
            "Missing: /opt/homebrew/bin/opencode",
            "Found at /usr/bin/opencode",
        ]
    );
}

#[test]
fn nothing_found_reports_every_probe() {
    let cands = vec!["/usr/bin/opencode".to_string()];
    let present = vec![false];
    let (resolved, in_path, notes) = resolve_opencode_executable(None, false, None, &cands, &present);
    assert!(resolved.is_none());
    assert!(!in_path);
    assert_eq!(notes, vec!["Not found on PATH", "Missing: /usr/bin/opencode"]);
}

#[test]
fn search_path_takes_first_existing_candidate() {
    let dirs = vec!["/a".to_string(), "/b".to_string(), "/c".to_string()];
    let is_file = vec![false, true, true];
    assert_eq!(resolve_in_path("opencode", &dirs, &is_file).as_deref(), Some("/b/opencode"));
    let none = vec![false, false, false];
    assert!(resolve_in_path("opencode", &dirs, &none).is_none());
}

#[test]
fn xdg_candidates_are_conventional() {
    let data = candidate_xdg_data_dirs(Some("/home/u".to_string()), false);
    assert_eq!(data, vec!["/home/u/.local/share", "/home/u/.config"]);
    let data_mac = candidate_xdg_data_dirs(Some("/home/u".to_string()), true);
    assert_eq!(data_mac.last().map(|s| s.as_str()), Some("/home/u/Library/Application Support"));
    assert!(candidate_xdg_data_dirs(None, true).is_empty());
    let config = candidate_xdg_config_dirs(Some("/home/u".to_string()), false);
    assert_eq!(config, vec!["/home/u/.config"]);
}

#[test]
fn xdg_home_inferred_only_when_unset() {
    let cands = vec!["/home/u/.local/share".to_string(), "/home/u/.config".to_string()];
    let found = vec![false, true];
    assert!(maybe_infer_xdg_home(true, &cands, &found).is_none());
    assert_eq!(maybe_infer_xdg_home(false, &cands, &found).as_deref(), Some("/home/u/.config"));
    let missing = vec![false, false];
    assert!(maybe_infer_xdg_home(false, &cands, &missing).is_none());
}

#[test]
fn home_dir_prefers_first_nonblank_variable() {
    assert_eq!(
        home_dir_from(Some("/home/u".to_string()), Some("/profile".to_string())).as_deref(),
        Some("/home/u")
    );
    assert_eq!(
        home_dir_from(Some("  ".to_string()), Some("/profile".to_string())).as_deref(),
        Some("/profile")
    );
    assert!(home_dir_from(None, None).is_none());
}

#[test]
fn known_locations_include_home_install() {
    let cands = candidate_opencode_paths(Some("/home/u".to_string()));
    assert_eq!(
        cands,
        vec![
            "/home/u/.opencode/bin/opencode",
            "/opt/homebrew/bin/opencode",
            "/usr/local/bin/opencode",
            "/usr/bin/opencode",
            "/usr/local/bin/opencode",
        ]
    );
}
