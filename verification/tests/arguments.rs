use openwork_core::orchestrator::base_url_for;
use openwork_core::spawn::{
    build_engine_args, build_openwork_args, build_owpenbot_args, build_openwrk_args,
    OpenwrkSpawnOptions,
};

#[test]
fn engine_args_are_exact() {
    let args = build_engine_args("0.0.0.0", 4096);
    assert_eq!(
        args,
        vec![
            "serve",
            "--hostname",
            "0.0.0.0",
            "--port",
            "4096",
            "--cors",
            "http://localhost:5173",
            "--cors",
            "tauri://localhost",
            "--cors",
            "http://tauri.localhost",
        ]
    );
}

#[test]
fn openwork_args_without_upstream() {
    let args = build_openwork_args("0.0.0.0", 8787, "/ws", "tok", "host-tok", None, None, false);
    assert_eq!(
        args,
        vec![
            "--host",
            "0.0.0.0",
            "--port",
            "8787",
            "--token",
            "tok",
            "--host-token",
            "host-tok",
            "--workspace",
            "/ws",
            "--cors",
            "http://localhost:5173",
            "--cors",
            "tauri://localhost",
            "--cors",
            "http://tauri.localhost",
        ]
    );
}

#[test]
fn openwork_args_with_upstream_and_wildcard() {
    let args = build_openwork_args(
        "0.0.0.0",
        1,
        "/ws",
        "t",
        "h",
        Some("http://127.0.0.1:999"),
        Some("/ws"),
        true,
    );
    let tail: Vec<&str> = args.iter().map(|s| s.as_str()).skip(16).collect();
    assert_eq!(
        tail,
        vec![
            "--cors",
            "*",
            "--opencode-base-url",
            "http://127.0.0.1:999",
            "--opencode-directory",
            "/ws",
        ]
    );
}

#[test]
fn openwork_args_skip_blank_upstream() {
    let args = build_openwork_args("h", 2, "/ws", "t", "h", Some("   "), None, false);
    assert_eq!(args.len(), 16);
}

#[test]
fn owpenbot_args_trim_the_url() {
    assert_eq!(build_owpenbot_args("/ws", None), vec!["start", "/ws"]);
    assert_eq!(
        build_owpenbot_args("/ws", Some(" http://127.0.0.1:7 ")),
        vec!["start", "/ws", "--opencode-url", "http://127.0.0.1:7"]
    );
    assert_eq!(build_owpenbot_args("/ws", Some("   ")), vec!["start", "/ws"]);
}

#[test]
fn openwrk_args_cover_all_options() {
    let options = OpenwrkSpawnOptions {
        data_dir: "/data".to_string(),
        daemon_host: "127.0.0.1".to_string(),
        daemon_port: 7000,
        opencode_bin: "/usr/bin/opencode".to_string(),
        opencode_host: "0.0.0.0".to_string(),
        opencode_workdir: "/ws".to_string(),
        opencode_port: Some(7001),
        opencode_username: Some("opencode".to_string()),
        opencode_password: Some("secret".to_string()),
        cors: Some("*".to_string()),
    };
    let args = build_openwrk_args(&options);
    assert_eq!(
        args,
        vec![
            "daemon",
            "run",
            "--data-dir",
            "/data",
            "--daemon-host",
            "127.0.0.1",
            "--daemon-port",
            "7000",
            "--opencode-bin",
            "/usr/bin/opencode",
            "--opencode-host",
            "0.0.0.0",
            "--opencode-workdir",
            "/ws",
            "--opencode-port",
            "7001",
            "--opencode-username",
            "opencode",
            "--opencode-password",
            "secret",
            "--cors",
            "*",
        ]
    );
}

#[test]
fn openwrk_args_skip_blank_credentials() {
    let options = OpenwrkSpawnOptions {
        data_dir: "/data".to_string(),
        daemon_host: "127.0.0.1".to_string(),
        daemon_port: 7000,
        opencode_bin: "opencode".to_string(),
        opencode_host: "0.0.0.0".to_string(),
        opencode_workdir: "/ws".to_string(),
        opencode_port: None,
        opencode_username: Some("  ".to_string()),
        opencode_password: None,
        cors: None,
    };
    let args = build_openwrk_args(&options);
    assert_eq!(args.len(), 14);
}

#[test]
fn base_url_renders_host_and_port() {
    assert_eq!(base_url_for("127.0.0.1", 8080), "http://127.0.0.1:8080");
    assert_eq!(base_url_for("localhost", 1), "http://localhost:1");
}
