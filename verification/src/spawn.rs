//! Deterministic launch-argument construction for each worker kind: network
//! bind flags, the fixed CORS allow-list, auth flags when credentials were
//! generated, and upstream-connection flags for dependent services. The
//! application hands these straight to the spawned command.

use vstd::prelude::*;
use vstd::string::*;
use crate::text::{dec_digits, trimmed};

verus! {

/// The arguments the primary engine is served with: the serve subcommand,
/// bind host and port, and the fixed CORS allow-list.
pub open spec fn engine_args_spec(bind_host: Seq<char>, port: u16) -> Seq<Seq<char>> {
    seq![
        "serve"@,
        "--hostname"@,
        bind_host,
        "--port"@,
        dec_digits(port as nat),
        "--cors"@,
        "http://localhost:5173"@,
        "--cors"@,
        "tauri://localhost"@,
        "--cors"@,
        "http://tauri.localhost"@,
    ]
}

/// Builds the engine's launch arguments.
pub fn build_engine_args(bind_host: &str, port: u16) -> (r: Vec<String>)
    ensures
        r.deep_view() =~~= engine_args_spec(bind_host@, port),
{
    let mut out: Vec<String> = Vec::new();
    out.push(String::from_str("serve"));
    out.push(String::from_str("--hostname"));
    out.push(String::from_str(bind_host));
    out.push(String::from_str("--port"));
    out.push(crate::text::u64_to_string(port as u64));
    out.push(String::from_str("--cors"));
    out.push(String::from_str("http://localhost:5173"));
    out.push(String::from_str("--cors"));
    out.push(String::from_str("tauri://localhost"));
    out.push(String::from_str("--cors"));
    out.push(String::from_str("http://tauri.localhost"));
    out
}

/// A sequence extended by a flag and its value only when the value is set
/// and not blank.
pub open spec fn with_optional_flag(
    args: Seq<Seq<char>>,
    flag: Seq<char>,
    value: Option<Seq<char>>,
) -> Seq<Seq<char>> {
    match value {
        Some(v) => if trimmed(v).len() > 0 {
            args + seq![flag, v]
        } else {
            args
        },
        None => args,
    }
}

/// The gateway server's launch arguments: bind host and port, the two access
/// tokens, the workspace, the fixed CORS allow-list (plus a wildcard in
/// development builds), and the upstream engine flags when known.
pub open spec fn openwork_args_spec(
    host: Seq<char>,
    port: u16,
    workspace_path: Seq<char>,
    token: Seq<char>,
    host_token: Seq<char>,
    opencode_base_url: Option<Seq<char>>,
    opencode_directory: Option<Seq<char>>,
    allow_any_origin: bool,
) -> Seq<Seq<char>> {
    let base = seq![
        "--host"@,
        host,
        "--port"@,
        dec_digits(port as nat),
        "--token"@,
        token,
        "--host-token"@,
        host_token,
        "--workspace"@,
        workspace_path,
        "--cors"@,
        "http://localhost:5173"@,
        "--cors"@,
        "tauri://localhost"@,
        "--cors"@,
        "http://tauri.localhost"@,
    ];
    let with_dev = if allow_any_origin {
        base + seq!["--cors"@, "*"@]
    } else {
        base
    };
    with_optional_flag(
        with_optional_flag(with_dev, "--opencode-base-url"@, opencode_base_url),
        "--opencode-directory"@,
        opencode_directory,
    )
}

/// Builds the gateway server's launch arguments. `allow_any_origin` stands in
/// for a development build, where the CORS wildcard is added.
pub fn build_openwork_args(
    host: &str,
    port: u16,
    workspace_path: &str,
    token: &str,
    host_token: &str,
    opencode_base_url: Option<&str>,
    opencode_directory: Option<&str>,
    allow_any_origin: bool,
) -> (r: Vec<String>)
    ensures
        r.deep_view() =~~= openwork_args_spec(
            host@,
            port,
            workspace_path@,
            token@,
            host_token@,
            match opencode_base_url {
                Some(u) => Some(u@),
                None => None,
            },
            match opencode_directory {
                Some(d) => Some(d@),
                None => None,
            },
            allow_any_origin,
        ),
{
    let mut out: Vec<String> = Vec::new();
    out.push(String::from_str("--host"));
    out.push(String::from_str(host));
    out.push(String::from_str("--port"));
    out.push(crate::text::u64_to_string(port as u64));
    out.push(String::from_str("--token"));
    out.push(String::from_str(token));
    out.push(String::from_str("--host-token"));
    out.push(String::from_str(host_token));
    out.push(String::from_str("--workspace"));
    out.push(String::from_str(workspace_path));
    out.push(String::from_str("--cors"));
    out.push(String::from_str("http://localhost:5173"));
    out.push(String::from_str("--cors"));
    out.push(String::from_str("tauri://localhost"));
    out.push(String::from_str("--cors"));
    out.push(String::from_str("http://tauri.localhost"));
    if allow_any_origin {
        out.push(String::from_str("--cors"));
        out.push(String::from_str("*"));
    }
    if let Some(u) = opencode_base_url {
        let t = crate::text::trim_str(u);
        if t.as_str().unicode_len() > 0 {
            out.push(String::from_str("--opencode-base-url"));
            out.push(String::from_str(u));
        }
    }
    if let Some(d) = opencode_directory {
        let t = crate::text::trim_str(d);
        if t.as_str().unicode_len() > 0 {
            out.push(String::from_str("--opencode-directory"));
            out.push(String::from_str(d));
        }
    }
    out
}

/// The messaging bot's launch arguments: the start subcommand, the workspace,
/// and the upstream engine URL when known. The URL is trimmed before use.
pub open spec fn owpenbot_args_spec(
    workspace_path: Seq<char>,
    opencode_url: Option<Seq<char>>,
) -> Seq<Seq<char>> {
    let base = seq!["start"@, workspace_path];
    match opencode_url {
        Some(u) => if trimmed(u).len() > 0 {
            base + seq!["--opencode-url"@, trimmed(u)]
        } else {
            base
        },
        None => base,
    }
}

/// Builds the messaging bot's launch arguments.
pub fn build_owpenbot_args(workspace_path: &str, opencode_url: Option<&str>) -> (r: Vec<String>)
    ensures
        r.deep_view() =~~= owpenbot_args_spec(
            workspace_path@,
            match opencode_url {
                Some(u) => Some(u@),
                None => None,
            },
        ),
{
    let mut out: Vec<String> = Vec::new();
    out.push(String::from_str("start"));
    out.push(String::from_str(workspace_path));
    if let Some(u) = opencode_url {
        let t = crate::text::trim_str(u);
        if t.as_str().unicode_len() > 0 {
            out.push(String::from_str("--opencode-url"));
            out.push(t);
        }
    }
    out
}

/// Everything the multi-engine daemon is launched with.
pub struct OpenwrkSpawnOptions {
    pub data_dir: String,
    pub daemon_host: String,
    pub daemon_port: u16,
    pub opencode_bin: String,
    pub opencode_host: String,
    pub opencode_workdir: String,
    pub opencode_port: Option<u16>,
    pub opencode_username: Option<String>,
    pub opencode_password: Option<String>,
    pub cors: Option<String>,
}

/// The daemon's launch arguments: its run subcommand, data directory, its own
/// bind flags, and the engine binary, host, working directory and optional
/// port, credentials and CORS value it manages engines with.
pub open spec fn openwrk_args_spec(o: OpenwrkSpawnOptions) -> Seq<Seq<char>> {
    let base = seq![
        "daemon"@,
        "run"@,
        "--data-dir"@,
        o.data_dir@,
        "--daemon-host"@,
        o.daemon_host@,
        "--daemon-port"@,
        dec_digits(o.daemon_port as nat),
        "--opencode-bin"@,
        o.opencode_bin@,
        "--opencode-host"@,
        o.opencode_host@,
        "--opencode-workdir"@,
        o.opencode_workdir@,
    ];
    let with_port = match o.opencode_port {
        Some(p) => base + seq!["--opencode-port"@, dec_digits(p as nat)],
        None => base,
    };
    let with_user = with_optional_flag(
        with_port,
        "--opencode-username"@,
        crate::manager::opt_view(o.opencode_username),
    );
    let with_pass = with_optional_flag(
        with_user,
        "--opencode-password"@,
        crate::manager::opt_view(o.opencode_password),
    );
    with_optional_flag(with_pass, "--cors"@, crate::manager::opt_view(o.cors))
}

/// Builds the daemon's launch arguments.
pub fn build_openwrk_args(options: &OpenwrkSpawnOptions) -> (r: Vec<String>)
    ensures
        r.deep_view() =~~= openwrk_args_spec(*options),
{
    let mut out: Vec<String> = Vec::new();
    out.push(String::from_str("daemon"));
    out.push(String::from_str("run"));
    out.push(String::from_str("--data-dir"));
    out.push(options.data_dir.clone());
    out.push(String::from_str("--daemon-host"));
    out.push(options.daemon_host.clone());
    out.push(String::from_str("--daemon-port"));
    out.push(crate::text::u64_to_string(options.daemon_port as u64));
    out.push(String::from_str("--opencode-bin"));
    out.push(options.opencode_bin.clone());
    out.push(String::from_str("--opencode-host"));
    out.push(options.opencode_host.clone());
    out.push(String::from_str("--opencode-workdir"));
    out.push(options.opencode_workdir.clone());
    if let Some(p) = options.opencode_port {
        out.push(String::from_str("--opencode-port"));
        out.push(crate::text::u64_to_string(p as u64));
    }
    if let Some(u) = &options.opencode_username {
        let t = crate::text::trim_str(u.as_str());
        if t.as_str().unicode_len() > 0 {
            out.push(String::from_str("--opencode-username"));
            out.push(u.clone());
        }
    }
    if let Some(p) = &options.opencode_password {
        let t = crate::text::trim_str(p.as_str());
        if t.as_str().unicode_len() > 0 {
            out.push(String::from_str("--opencode-password"));
            out.push(p.clone());
        }
    }
    if let Some(c) = &options.cors {
        let t = crate::text::trim_str(c.as_str());
        if t.as_str().unicode_len() > 0 {
            out.push(String::from_str("--cors"));
            out.push(c.clone());
        }
    }
    out
}

} // verus!
