//! Workspace-watching decisions: which changed paths call for a UI reload,
//! the debounce between reload events, and which folder (if any) a workspace
//! should be watched at. The filesystem watcher itself runs in the
//! application.

use vstd::prelude::*;
use vstd::string::*;
use crate::text::{ascii_lower_seq, contains_seq, ends_with_seq, trimmed};
use crate::workspace::{WorkspaceInfo, WorkspaceType};

verus! {

/// A path with backslashes turned into forward slashes.
pub open spec fn normalized_path(p: Seq<char>) -> Seq<char> {
    p.map_values(
        |c: char|
            if c == '\\' {
                '/'
            } else {
                c
            },
    )
}

/// Normalizes a path's separators for comparison.
pub fn normalize_path(path: &str) -> (r: String)
    ensures
        r@ == normalized_path(path@),
{
    let chars = crate::text::str_to_chars(path);
    let mut out: Vec<char> = Vec::new();
    let mut i: usize = 0;
    while i < chars.len()
        invariant
            i <= chars@.len(),
            chars@ == path@,
            out@ =~= path@.take(i as int).map_values(
                |c: char|
                    if c == '\\' {
                        '/'
                    } else {
                        c
                    },
            ),
        decreases chars@.len() - i,
    {
        if chars[i] == '\\' {
            out.push('/');
        } else {
            out.push(chars[i]);
        }
        proof {
            assert(path@.take(i + 1 as int) =~= path@.take(i as int).push(path@[i as int]));
        }
        i = i + 1;
    }
    proof {
        assert(path@.take(path@.len() as int) =~= path@);
    }
    crate::text::chars_to_string(&out)
}

/// Why a changed path calls for a reload: a change under the skills tree, or
/// one to the configuration; compared case-insensitively on normalized
/// separators.
pub open spec fn watch_reason(path: Seq<char>) -> Option<Seq<char>> {
    let l = ascii_lower_seq(normalized_path(path));
    if contains_seq(l, "/.opencode/skills/"@) || ends_with_seq(l, "/.opencode/skills"@) {
        Some("skills"@)
    } else if contains_seq(l, "/.opencode/"@) || ends_with_seq(l, "/.opencode"@) {
        Some("config"@)
    } else if ends_with_seq(l, "/opencode.json"@) || ends_with_seq(l, "/opencode.jsonc"@) {
        Some("config"@)
    } else {
        None
    }
}

/// Classifies a changed path: the reason to report, or nothing when the
/// change is not worth a reload.
pub fn reason_for_path(path: &str) -> (r: Option<&'static str>)
    ensures
        match watch_reason(path@) {
            Some(t) => r matches Some(s) && s@ == t,
            None => r is None,
        },
{
    let norm = normalize_path(path);
    let chars = crate::text::str_to_chars(norm.as_str());
    let lower = crate::text::lower_chars(&chars);
    let skills_inner = crate::text::str_to_chars("/.opencode/skills/");
    let skills_end = crate::text::str_to_chars("/.opencode/skills");
    if crate::text::contains_chars(&lower, &skills_inner) || crate::text::ends_with_chars(
        &lower,
        &skills_end,
    ) {
        return Some("skills");
    }
    let config_inner = crate::text::str_to_chars("/.opencode/");
    let config_end = crate::text::str_to_chars("/.opencode");
    if crate::text::contains_chars(&lower, &config_inner) || crate::text::ends_with_chars(
        &lower,
        &config_end,
    ) {
        return Some("config");
    }
    let json_end = crate::text::str_to_chars("/opencode.json");
    let jsonc_end = crate::text::str_to_chars("/opencode.jsonc");
    if crate::text::ends_with_chars(&lower, &json_end) || crate::text::ends_with_chars(
        &lower,
        &jsonc_end,
    ) {
        return Some("config");
    }
    None
}

/// Milliseconds two reload events must lie apart.
pub const RELOAD_DEBOUNCE_MS: u64 = 750;

/// Whether a reload fires now: suppressed while the last one lies closer than
/// the debounce window (a clock that has not advanced counts as closer).
pub open spec fn should_emit_now(last_emit_ms: Option<u64>, now: u64) -> bool {
    match last_emit_ms {
        Some(prev) => !(now < prev || now - prev < RELOAD_DEBOUNCE_MS),
        None => true,
    }
}

/// Debounces reload events: returns whether to emit now, and the guard value
/// to carry to the next call (updated only on an emit).
pub fn should_emit(last_emit_ms: Option<u64>, now: u64) -> (r: (bool, Option<u64>))
    ensures
        r.0 == should_emit_now(last_emit_ms, now),
        r.0 ==> r.1 == Some(now),
        !r.0 ==> r.1 == last_emit_ms,
{
    match last_emit_ms {
        Some(prev) => {
            if now < prev || now - prev < RELOAD_DEBOUNCE_MS {
                (false, Some(prev))
            } else {
                (true, Some(now))
            }
        },
        None => (true, Some(now)),
    }
}

/// Where the watcher should sit for the active workspace: its trimmed folder,
/// or nowhere when no local workspace with a usable path is active.
pub fn watch_plan(active: Option<&WorkspaceInfo>) -> (r: Option<String>)
    ensures
        match active {
            Some(w) => if w.workspace_type == WorkspaceType::Local && trimmed(w.path@).len() > 0 {
                r matches Some(p) && p@ == trimmed(w.path@)
            } else {
                r is None
            },
            None => r is None,
        },
{
    match active {
        Some(w) => {
            if !matches!(w.workspace_type, WorkspaceType::Local) {
                return None;
            }
            let t = crate::text::trim_str(w.path.as_str());
            if t.as_str().unicode_len() == 0 {
                None
            } else {
                Some(t)
            }
        },
        None => None,
    }
}

} // verus!
