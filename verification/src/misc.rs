//! Smaller decisions around the supervisor: interpreting probe command
//! output, cache locations, reset-mode validation, configuration paths and
//! the updater environment.

use vstd::prelude::*;
use vstd::string::*;
use crate::text::{bounded_tail, contains_seq, joined, trimmed};
use crate::types::{EngineDoctorResult, UpdaterEnvironment};

verus! {

/// Outcome of wiping the engine's cache directories.
pub struct CacheResetResult {
    pub removed: Vec<String>,
    pub missing: Vec<String>,
    pub errors: Vec<String>,
}

/// The version a probe command reported: its trimmed stdout when there was
/// any, else its trimmed stderr, else nothing.
pub fn pick_version_output(stdout: &str, stderr: &str) -> (r: Option<String>)
    ensures
        trimmed(stdout@).len() > 0 ==> (r matches Some(v) && v@ == trimmed(stdout@)),
        trimmed(stdout@).len() == 0 && trimmed(stderr@).len() > 0 ==> (r matches Some(v) && v@
            == trimmed(stderr@)),
        trimmed(stdout@).len() == 0 && trimmed(stderr@).len() == 0 ==> r is None,
{
    let out = crate::text::trim_str(stdout);
    if out.as_str().unicode_len() > 0 {
        return Some(out);
    }
    let err = crate::text::trim_str(stderr);
    if err.as_str().unicode_len() > 0 {
        return Some(err);
    }
    None
}

/// Character cap on retained probe-command output.
pub const PROBE_OUTPUT_CAP: usize = 4000;

/// A probe command's output as kept for diagnostics: trimmed, capped to its
/// most recent characters, and dropped entirely when blank.
pub open spec fn probe_output(s: Seq<char>) -> Option<Seq<char>> {
    if trimmed(s).len() == 0 {
        None
    } else {
        Some(bounded_tail(trimmed(s), PROBE_OUTPUT_CAP as nat))
    }
}

/// Prepares one captured output stream of a probe command for the doctor
/// report.
pub fn keep_probe_output(s: &str) -> (r: Option<String>)
    ensures
        match probe_output(s@) {
            Some(t) => r matches Some(v) && v@ == t,
            None => r is None,
        },
{
    let t = crate::text::trim_str(s);
    if t.as_str().unicode_len() == 0 {
        None
    } else {
        Some(crate::text::truncate_output(t.as_str(), PROBE_OUTPUT_CAP))
    }
}

/// Assembles the doctor report from the resolution outcome and what the
/// probe commands reported.
pub fn doctor_result(
    resolved_path: Option<String>,
    in_path: bool,
    notes: Vec<String>,
    version: Option<String>,
    supports_serve: bool,
    serve_help_status: Option<i32>,
    serve_help_stdout: Option<String>,
    serve_help_stderr: Option<String>,
) -> (r: EngineDoctorResult)
    ensures
        r.found == resolved_path is Some,
        r.resolved_path == resolved_path,
        r.in_path == in_path,
        r.notes == notes,
        r.version == version,
        r.supports_serve == supports_serve,
        r.serve_help_status == serve_help_status,
        r.serve_help_stdout == serve_help_stdout,
        r.serve_help_stderr == serve_help_stderr,
{
    let found = resolved_path.is_some();
    EngineDoctorResult {
        found,
        in_path,
        resolved_path,
        version,
        supports_serve,
        notes,
        serve_help_status,
        serve_help_stdout,
        serve_help_stderr,
    }
}

/// The views of a string sequence.
pub open spec fn views_of(items: Seq<String>) -> Seq<Seq<char>> {
    items.map_values(|s: String| s@)
}

/// A view-level deduplication, keeping first occurrences in order.
pub open spec fn dedup_view(items: Seq<Seq<char>>) -> Seq<Seq<char>>
    decreases items.len(),
{
    if items.len() == 0 {
        Seq::empty()
    } else {
        let prev = dedup_view(items.drop_last());
        if prev.contains(items.last()) {
            prev
        } else {
            prev.push(items.last())
        }
    }
}

/// Deduplication by string equality and by view equality agree.
pub proof fn lemma_deduped_views(items: Seq<String>)
    ensures
        views_of(crate::skills::deduped(items)) =~~= dedup_view(views_of(items)),
    decreases items.len(),
{
    if items.len() > 0 {
        lemma_deduped_views(items.drop_last());
        assert(views_of(items.drop_last()) =~~= views_of(items).drop_last());
        let prev = crate::skills::deduped(items.drop_last());
        let prev_views = dedup_view(views_of(items).drop_last());
        assert(views_of(prev) =~~= prev_views);
        if crate::templates::has_str(prev, items.last()@) {
            let w = choose|i: int| 0 <= i < prev.len() && #[trigger] prev[i]@ == items.last()@;
            assert(views_of(prev)[w] == items.last()@);
            assert(prev_views.contains(views_of(items).last()));
        } else {
            if prev_views.contains(views_of(items).last()) {
                let w = choose|i: int| 0 <= i < prev_views.len() && prev_views[i] == views_of(
                    items,
                ).last();
                assert(prev[w]@ == items.last()@);
                assert(false);
            }
            assert(views_of(prev.push(items.last())) =~~= views_of(prev).push(items.last()@));
        }
    }
}

/// The cache directory views probed by a cache reset, before deduplication.
pub open spec fn cache_candidate_views(
    xdg_cache_home: Option<Seq<char>>,
    home: Option<Seq<char>>,
    include_mac_caches: bool,
) -> Seq<Seq<char>> {
    (match xdg_cache_home {
        Some(x) => if trimmed(x).len() > 0 {
            seq![joined(trimmed(x), "opencode"@)]
        } else {
            Seq::<Seq<char>>::empty()
        },
        None => Seq::<Seq<char>>::empty(),
    }) + (match home {
        Some(h) => seq![joined(h, ".cache/opencode"@)] + if include_mac_caches {
            seq![joined(h, "Library/Caches/opencode"@)]
        } else {
            Seq::<Seq<char>>::empty()
        },
        None => Seq::<Seq<char>>::empty(),
    })
}

/// The cache directories wiped by a cache reset, deduplicated: the override
/// from the environment, then the conventional locations under home.
pub fn opencode_cache_candidates(
    xdg_cache_home: Option<String>,
    home: Option<String>,
    include_mac_caches: bool,
) -> (r: Vec<String>)
    ensures
        r.deep_view() =~~= dedup_view(
            cache_candidate_views(
                crate::manager::opt_view(xdg_cache_home),
                crate::manager::opt_view(home),
                include_mac_caches,
            ),
        ),
{
    let ghost want = cache_candidate_views(
        crate::manager::opt_view(xdg_cache_home),
        crate::manager::opt_view(home),
        include_mac_caches,
    );
    let mut cands: Vec<String> = Vec::new();
    if let Some(x) = xdg_cache_home {
        let t = crate::text::trim_str(x.as_str());
        if t.as_str().unicode_len() > 0 {
            cands.push(crate::text::join_path(t.as_str(), "opencode"));
        }
    }
    if let Some(h) = home {
        cands.push(crate::text::join_path(h.as_str(), ".cache/opencode"));
        if include_mac_caches {
            cands.push(crate::text::join_path(h.as_str(), "Library/Caches/opencode"));
        }
    }
    let ghost cv = cands@;
    proof {
        assert(views_of(cv) =~~= want);
    }
    let r = crate::skills::dedup_roots(cands);
    proof {
        lemma_deduped_views(cv);
        assert(r.deep_view() =~~= views_of(r@));
    }
    r
}

/// How far a state reset reaches.
#[derive(Clone, Copy, PartialEq, Eq, Structural, Debug)]
pub enum ResetMode {
    Onboarding,
    All,
}

/// Parses a reset request: only the two known modes are accepted.
pub fn parse_reset_mode(mode: &str) -> (r: Result<ResetMode, String>)
    ensures
        trimmed(mode@) == "onboarding"@ ==> (r matches Ok(m) && m == ResetMode::Onboarding),
        trimmed(mode@) == "all"@ ==> (r matches Ok(m) && m == ResetMode::All),
        trimmed(mode@) != "onboarding"@ && trimmed(mode@) != "all"@ ==> (r matches Err(e) && e@
            == "mode must be 'onboarding' or 'all'"@),
{
    proof {
        reveal_strlit("onboarding");
        reveal_strlit("all");
        assert("onboarding"@.len() == 10);
        assert("all"@.len() == 3);
    }
    let t = crate::text::trim_str(mode);
    if crate::text::str_eq(t.as_str(), "onboarding") {
        Ok(ResetMode::Onboarding)
    } else if crate::text::str_eq(t.as_str(), "all") {
        Ok(ResetMode::All)
    } else {
        Err(String::from_str("mode must be 'onboarding' or 'all'"))
    }
}

/// Whether a path points into a mounted disk image or a translocated
/// application, from which in-place updates cannot be applied.
pub fn is_mac_dmg_or_translocated(path: &str) -> (r: bool)
    ensures
        r == (contains_seq(path@, "/Volumes/"@) || contains_seq(path@, "AppTranslocation"@)),
{
    let chars = crate::text::str_to_chars(path);
    let volumes = crate::text::str_to_chars("/Volumes/");
    let transloc = crate::text::str_to_chars("AppTranslocation");
    crate::text::contains_chars(&chars, &volumes) || crate::text::contains_chars(
        &chars,
        &transloc,
    )
}

/// Whether either location blocks in-place updates.
pub open spec fn update_blocked(exe: Option<Seq<char>>, bundle: Option<Seq<char>>) -> bool {
    let blocked = |p: Seq<char>|
        contains_seq(p, "/Volumes/"@) || contains_seq(p, "AppTranslocation"@);
    (exe matches Some(e) && blocked(e)) || (bundle matches Some(b) && blocked(b))
}

/// Judges whether in-place updates are possible from where the program runs:
/// not from a mounted disk image nor a translocated bundle, with the reason
/// spelled out when they are not.
pub fn updater_environment_from(
    executable_path: Option<String>,
    app_bundle_path: Option<String>,
) -> (r: UpdaterEnvironment)
    ensures
        r.supported == !update_blocked(
            crate::manager::opt_view(executable_path),
            crate::manager::opt_view(app_bundle_path),
        ),
        !r.supported ==> (r.reason matches Some(m) && m@
            == "OpenWork is running from a mounted disk image. Install it to Applications to enable updates."@),
        r.supported ==> r.reason is None,
        r.executable_path == executable_path,
        r.app_bundle_path == app_bundle_path,
{
    let exe_blocked = match &executable_path {
        Some(p) => is_mac_dmg_or_translocated(p.as_str()),
        None => false,
    };
    let bundle_blocked = match &app_bundle_path {
        Some(p) => is_mac_dmg_or_translocated(p.as_str()),
        None => false,
    };
    let supported = !exe_blocked && !bundle_blocked;
    let reason = if supported {
        None
    } else {
        Some(
            String::from_str(
                "OpenWork is running from a mounted disk image. Install it to Applications to enable updates.",
            ),
        )
    };
    UpdaterEnvironment { supported, reason, executable_path, app_bundle_path }
}

/// The command lines tried, in order, to install a package: the dedicated
/// installers first, then the two runner fallbacks. Each is a program name
/// followed by its arguments; the runner moves to the next only when a
/// program is not present at all.
pub fn opkg_install_plan(project_dir: &str, package: &str) -> (r: Result<
    Vec<Vec<String>>,
    String,
>)
    ensures
        trimmed(project_dir@).len() == 0 ==> (r matches Err(e) && e@ == "projectDir is required"@),
        trimmed(project_dir@).len() > 0 && trimmed(package@).len() == 0 ==> (r matches Err(e)
            && e@ == "package is required"@),
        trimmed(project_dir@).len() > 0 && trimmed(package@).len() > 0 ==> (r matches Ok(plan)
            && plan.deep_view() =~~= seq![
            seq!["opkg"@, "install"@, trimmed(package@)],
            seq!["openpackage"@, "install"@, trimmed(package@)],
            seq!["pnpm"@, "dlx"@, "opkg"@, "install"@, trimmed(package@)],
            seq!["npx"@, "opkg"@, "install"@, trimmed(package@)],
        ]),
{
    let dir = crate::text::trim_str(project_dir);
    if dir.as_str().unicode_len() == 0 {
        return Err(String::from_str("projectDir is required"));
    }
    let pkg = crate::text::trim_str(package);
    if pkg.as_str().unicode_len() == 0 {
        return Err(String::from_str("package is required"));
    }
    let mut plan: Vec<Vec<String>> = Vec::new();
    let mut a: Vec<String> = Vec::new();
    a.push(String::from_str("opkg"));
    a.push(String::from_str("install"));
    a.push(pkg.clone());
    plan.push(a);
    let mut b: Vec<String> = Vec::new();
    b.push(String::from_str("openpackage"));
    b.push(String::from_str("install"));
    b.push(pkg.clone());
    plan.push(b);
    let mut c: Vec<String> = Vec::new();
    c.push(String::from_str("pnpm"));
    c.push(String::from_str("dlx"));
    c.push(String::from_str("opkg"));
    c.push(String::from_str("install"));
    c.push(pkg.clone());
    plan.push(c);
    let mut d: Vec<String> = Vec::new();
    d.push(String::from_str("npx"));
    d.push(String::from_str("opkg"));
    d.push(String::from_str("install"));
    d.push(pkg);
    plan.push(d);
    Ok(plan)
}

/// The result reported when no installer program could be found at all.
pub fn opkg_not_found_result() -> (r: crate::types::ExecResult)
    ensures
        !r.ok,
        r.status == -1,
        r.stdout@.len() == 0,
        r.stderr@
            == "OpenPackage CLI not found. Install with `npm install -g opkg` (or `openpackage`), or ensure pnpm/npx is available."@,
{
    crate::types::ExecResult {
        ok: false,
        status: -1,
        stdout: String::new(),
        stderr: String::from_str(
            "OpenPackage CLI not found. Install with `npm install -g opkg` (or `openpackage`), or ensure pnpm/npx is available.",
        ),
    }
}

/// The arguments for an authentication run against a configured tool server;
/// blank inputs are rejected with the caller's own errors.
pub fn mcp_auth_args(project_dir: &str, server_name: &str) -> (r: Result<Vec<String>, String>)
    ensures
        trimmed(project_dir@).len() == 0 ==> (r matches Err(e) && e@
            == "project_dir is required"@),
        trimmed(project_dir@).len() > 0 && trimmed(server_name@).len() == 0 ==> (r matches Err(e)
            && e@ == "server_name is required"@),
        trimmed(project_dir@).len() > 0 && trimmed(server_name@).len() > 0 ==> (r matches Ok(args)
            && args.deep_view() =~~= seq!["mcp"@, "auth"@, trimmed(server_name@)]),
{
    let dir = crate::text::trim_str(project_dir);
    if dir.as_str().unicode_len() == 0 {
        return Err(String::from_str("project_dir is required"));
    }
    let server = crate::text::trim_str(server_name);
    if server.as_str().unicode_len() == 0 {
        return Err(String::from_str("server_name is required"));
    }
    let mut args: Vec<String> = Vec::new();
    args.push(String::from_str("mcp"));
    args.push(String::from_str("auth"));
    args.push(server);
    Ok(args)
}

/// Where a configuration read or write lands: the project's own file, or the
/// global one under the config home.
pub fn resolve_opencode_config_path(
    scope: &str,
    project_dir: &str,
    xdg_config_home: Option<String>,
    home: Option<String>,
) -> (r: Result<String, String>)
    ensures
        scope@ == "project"@ && trimmed(project_dir@).len() == 0 ==> (r matches Err(e) && e@
            == "projectDir is required"@),
        scope@ == "project"@ && trimmed(project_dir@).len() > 0 ==> (r matches Ok(p) && p@
            == joined(project_dir@, "opencode.json"@)),
        scope@ == "global"@ ==> match xdg_config_home {
            Some(x) => r matches Ok(p) && p@ == joined(x@, "opencode/opencode.json"@),
            None => match home {
                Some(h) => r matches Ok(p) && p@ == joined(
                    joined(h@, ".config"@),
                    "opencode/opencode.json"@,
                ),
                None => r matches Err(e) && e@ == "Unable to resolve config directory"@,
            },
        },
        scope@ != "project"@ && scope@ != "global"@ ==> (r matches Err(e) && e@
            == "scope must be 'project' or 'global'"@),
{
    proof {
        reveal_strlit("project");
        reveal_strlit("global");
        assert("project"@[0] != "global"@[0]);
    }
    if crate::text::str_eq(scope, "project") {
        let t = crate::text::trim_str(project_dir);
        if t.as_str().unicode_len() == 0 {
            Err(String::from_str("projectDir is required"))
        } else {
            Ok(crate::text::join_path(project_dir, "opencode.json"))
        }
    } else if crate::text::str_eq(scope, "global") {
        match xdg_config_home {
            Some(x) => Ok(crate::text::join_path(x.as_str(), "opencode/opencode.json")),
            None => match home {
                Some(h) => {
                    let base = crate::text::join_path(h.as_str(), ".config");
                    Ok(crate::text::join_path(base.as_str(), "opencode/opencode.json"))
                },
                None => Err(String::from_str("Unable to resolve config directory")),
            },
        }
    } else {
        Err(String::from_str("scope must be 'project' or 'global'"))
    }
}

} // verus!
