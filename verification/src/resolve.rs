//! Engine executable resolution: an explicit override, a bundled sidecar, the
//! search path, then a fixed list of known install locations, probed in that
//! priority order. The application reports which candidate paths exist; the
//! decisions here pick the winner and word the diagnostic notes, so the
//! resolution order is testable in isolation.

use vstd::prelude::*;
use vstd::string::*;
use crate::text::{joined, trimmed};

verus! {

/// The first candidate whose probe succeeded.
pub open spec fn scan_result(cands: Seq<Seq<char>>, present: Seq<bool>) -> Option<Seq<char>>
    decreases cands.len(),
{
    if cands.len() == 0 || present.len() == 0 {
        None
    } else if present.first() {
        Some(cands.first())
    } else {
        scan_result(cands.drop_first(), present.drop_first())
    }
}

/// The notes a scan leaves: one miss note per candidate tried and rejected,
/// then a hit note for the winner, if any.
pub open spec fn scan_notes(
    cands: Seq<Seq<char>>,
    present: Seq<bool>,
    hit_prefix: Seq<char>,
    miss_prefix: Seq<char>,
) -> Seq<Seq<char>>
    decreases cands.len(),
{
    if cands.len() == 0 || present.len() == 0 {
        Seq::empty()
    } else if present.first() {
        seq![hit_prefix + cands.first()]
    } else {
        seq![miss_prefix + cands.first()] + scan_notes(
            cands.drop_first(),
            present.drop_first(),
            hit_prefix,
            miss_prefix,
        )
    }
}

proof fn lemma_scan_skip(
    cands: Seq<Seq<char>>,
    present: Seq<bool>,
    hit_prefix: Seq<char>,
    miss_prefix: Seq<char>,
    i: int,
)
    requires
        cands.len() == present.len(),
        0 <= i <= cands.len(),
        forall|k: int| 0 <= k < i ==> !present[k],
    ensures
        scan_result(cands, present) == scan_result(cands.skip(i), present.skip(i)),
        scan_notes(cands, present, hit_prefix, miss_prefix) =~~= cands.take(i).map_values(
            |c: Seq<char>| miss_prefix + c,
        ) + scan_notes(cands.skip(i), present.skip(i), hit_prefix, miss_prefix),
    decreases i,
{
    if i == 0 {
        assert(cands.skip(0) =~~= cands);
        assert(present.skip(0) =~= present);
        assert(cands.take(0).map_values(|c: Seq<char>| miss_prefix + c) =~~= Seq::empty());
    } else {
        assert(!present.first());
        lemma_scan_skip(cands.drop_first(), present.drop_first(), hit_prefix, miss_prefix, i - 1);
        assert(cands.drop_first().skip(i - 1) =~~= cands.skip(i));
        assert(present.drop_first().skip(i - 1) =~= present.skip(i));
        assert(cands.drop_first().take(i - 1) =~~= cands.skip(1).take(i - 1));
        assert(seq![miss_prefix + cands.first()] + cands.drop_first().take(i - 1).map_values(
            |c: Seq<char>| miss_prefix + c,
        ) =~~= cands.take(i).map_values(|c: Seq<char>| miss_prefix + c));
    }
}

/// Walks the candidates in order, collecting a note per probe, and returns
/// the first candidate that exists together with the notes.
fn scan_candidates(
    cands: &Vec<String>,
    present: &Vec<bool>,
    hit_prefix: &str,
    miss_prefix: &str,
) -> (r: (Option<String>, Vec<String>))
    requires
        cands@.len() == present@.len(),
    ensures
        match scan_result(cands.deep_view(), present@) {
            Some(p) => r.0 matches Some(q) && q@ == p,
            None => r.0 is None,
        },
        r.1.deep_view() =~~= scan_notes(cands.deep_view(), present@, hit_prefix@, miss_prefix@),
{
    let ghost cv = cands.deep_view();
    let mut notes: Vec<String> = Vec::new();
    let mut i: usize = 0;
    while i < cands.len()
        invariant
            cands@.len() == present@.len(),
            cv == cands.deep_view(),
            i <= cands@.len(),
            forall|k: int| 0 <= k < i ==> !present@[k],
            notes.deep_view() =~~= cv.take(i as int).map_values(
                |c: Seq<char>| miss_prefix@ + c,
            ),
        decreases cands@.len() - i,
    {
        proof {
            assert(cv[i as int] == cands@[i as int]@);
        }
        if present[i] {
            let mut note = String::from_str(hit_prefix);
            note.append(cands[i].as_str());
            notes.push(note);
            let winner = Some(cands[i].clone());
            proof {
                lemma_scan_skip(cv, present@, hit_prefix@, miss_prefix@, i as int);
                assert(present@.skip(i as int).first() == present@[i as int]);
                assert(cv.skip(i as int).first() == cv[i as int]);
                assert(scan_result(cv, present@) == Some(cv[i as int]));
                assert(notes.deep_view() =~~= scan_notes(
                    cv,
                    present@,
                    hit_prefix@,
                    miss_prefix@,
                ));
            }
            return (winner, notes);
        }
        let mut note = String::from_str(miss_prefix);
        note.append(cands[i].as_str());
        let ghost pre = notes.deep_view();
        notes.push(note);
        proof {
            assert(notes.deep_view() =~~= pre.push(miss_prefix@ + cv[i as int]));
            assert(cv.take(i + 1 as int).map_values(|c: Seq<char>| miss_prefix@ + c) =~~= cv.take(
                i as int,
            ).map_values(|c: Seq<char>| miss_prefix@ + c).push(miss_prefix@ + cv[i as int]));
        }
        i = i + 1;
    }
    proof {
        lemma_scan_skip(cv, present@, hit_prefix@, miss_prefix@, cands@.len() as int);
        assert(cv.take(cands@.len() as int) =~~= cv);
    }
    (None, notes)
}

/// The bundled sidecar paths probed for the engine, in priority order: next
/// to the running binary, inside the resource directory (in its sidecar
/// folder, then at its root), and finally the development-tree location.
pub fn sidecar_candidate_paths(
    resource_dir: Option<String>,
    current_bin_dir: Option<String>,
) -> (r: Vec<String>)
    ensures
        r.deep_view() =~~= (match current_bin_dir {
            Some(b) => seq![joined(b@, "opencode"@)],
            None => Seq::<Seq<char>>::empty(),
        }) + (match resource_dir {
            Some(d) => seq![
                joined(joined(d@, "sidecars"@), "opencode"@),
                joined(d@, "opencode"@),
            ],
            None => Seq::<Seq<char>>::empty(),
        }) + seq!["src-tauri/sidecars/opencode"@],
{
    let mut out: Vec<String> = Vec::new();
    if let Some(b) = current_bin_dir {
        out.push(crate::text::join_path(b.as_str(), "opencode"));
    }
    if let Some(d) = resource_dir {
        let sidecars = crate::text::join_path(d.as_str(), "sidecars");
        out.push(crate::text::join_path(sidecars.as_str(), "opencode"));
        out.push(crate::text::join_path(d.as_str(), "opencode"));
    }
    out.push(String::from_str("src-tauri/sidecars/opencode"));
    out
}

/// What sidecar resolution returns: the winning path, if any, and its notes.
pub open spec fn sidecar_resolution(
    prefer_sidecar: bool,
    cands: Seq<Seq<char>>,
    present: Seq<bool>,
) -> (Option<Seq<char>>, Seq<Seq<char>>) {
    if !prefer_sidecar {
        (None, Seq::empty())
    } else {
        (
            scan_result(cands, present),
            scan_notes(cands, present, "Using bundled sidecar: "@, "Sidecar missing: "@),
        )
    }
}

/// Resolves the bundled sidecar: when one is preferred, the first candidate
/// path that exists wins; each probe leaves a diagnostic note. `present[i]`
/// reports whether `candidates[i]` exists as a file.
pub fn resolve_sidecar_candidate(
    prefer_sidecar: bool,
    candidates: &Vec<String>,
    present: &Vec<bool>,
) -> (r: (Option<String>, Vec<String>))
    requires
        candidates@.len() == present@.len(),
    ensures
        ({
            let (want, want_notes) = sidecar_resolution(
                prefer_sidecar,
                candidates.deep_view(),
                present@,
            );
            &&& match want {
                Some(p) => r.0 matches Some(q) && q@ == p,
                None => r.0 is None,
            }
            &&& r.1.deep_view() =~~= want_notes
        }),
{
    if !prefer_sidecar {
        (None, Vec::new())
    } else {
        scan_candidates(candidates, present, "Using bundled sidecar: ", "Sidecar missing: ")
    }
}

/// The note prefix an executable-override probe leaves.
pub open spec fn override_notes(ov: Option<Seq<char>>, ov_is_file: bool) -> Seq<Seq<char>> {
    match ov {
        Some(o) => if trimmed(o).len() == 0 {
            Seq::empty()
        } else if ov_is_file {
            seq!["Using OPENCODE_BIN_PATH: "@ + trimmed(o)]
        } else {
            seq!["OPENCODE_BIN_PATH set but missing: "@ + trimmed(o)]
        },
        None => Seq::empty(),
    }
}

/// The override path, when it is set, not blank, and exists.
pub open spec fn override_hit(ov: Option<Seq<char>>, ov_is_file: bool) -> Option<Seq<char>> {
    match ov {
        Some(o) => if trimmed(o).len() > 0 && ov_is_file {
            Some(trimmed(o))
        } else {
            None
        },
        None => None,
    }
}

/// What search-path/known-location resolution returns: the resolved path,
/// whether it came from the search path, and the notes, in priority order:
/// override, search path, known locations.
pub open spec fn opencode_resolution(
    ov: Option<Seq<char>>,
    ov_is_file: bool,
    path_hit: Option<Seq<char>>,
    cands: Seq<Seq<char>>,
    present: Seq<bool>,
) -> (Option<Seq<char>>, bool, Seq<Seq<char>>) {
    if override_hit(ov, ov_is_file) is Some {
        (override_hit(ov, ov_is_file), false, override_notes(ov, ov_is_file))
    } else if path_hit is Some {
        (
            path_hit,
            true,
            override_notes(ov, ov_is_file) + seq!["Found in PATH: "@ + path_hit.unwrap()],
        )
    } else {
        (
            scan_result(cands, present),
            false,
            override_notes(ov, ov_is_file) + seq!["Not found on PATH"@] + scan_notes(
                cands,
                present,
                "Found at "@,
                "Missing: "@,
            ),
        )
    }
}

/// Resolves the engine executable outside the sidecar: an explicit override
/// wins when it points at a file, then a search-path hit (reported by the
/// caller), then the first known install location that exists. Every probe
/// leaves a note so a failed resolution explains itself.
pub fn resolve_opencode_executable(
    override_value: Option<String>,
    override_is_file: bool,
    path_resolved: Option<String>,
    candidates: &Vec<String>,
    candidate_is_file: &Vec<bool>,
) -> (r: (Option<String>, bool, Vec<String>))
    requires
        candidates@.len() == candidate_is_file@.len(),
    ensures
        ({
            let (want, want_in_path, want_notes) = opencode_resolution(
                crate::manager::opt_view(override_value),
                override_is_file,
                crate::manager::opt_view(path_resolved),
                candidates.deep_view(),
                candidate_is_file@,
            );
            &&& match want {
                Some(p) => r.0 matches Some(q) && q@ == p,
                None => r.0 is None,
            }
            &&& r.1 == want_in_path
            &&& r.2.deep_view() =~~= want_notes
        }),
{
    let mut notes: Vec<String> = Vec::new();
    if let Some(o) = override_value {
        let t = crate::text::trim_str(o.as_str());
        if t.as_str().unicode_len() > 0 {
            if override_is_file {
                let mut note = String::from_str("Using OPENCODE_BIN_PATH: ");
                note.append(t.as_str());
                notes.push(note);
                return (Some(t), false, notes);
            }
            let mut note = String::from_str("OPENCODE_BIN_PATH set but missing: ");
            note.append(t.as_str());
            notes.push(note);
        }
    }
    if let Some(p) = path_resolved {
        let mut note = String::from_str("Found in PATH: ");
        note.append(p.as_str());
        notes.push(note);
        return (Some(p), true, notes);
    }
    notes.push(String::from_str("Not found on PATH"));
    let (winner, mut scan) = scan_candidates(candidates, candidate_is_file, "Found at ", "Missing: ");
    notes.append(&mut scan);
    (winner, false, notes)
}

/// What full engine-path resolution returns: a preferred sidecar that exists
/// wins outright; otherwise the override/search-path/known-location order
/// decides, with the sidecar notes kept in front.
pub open spec fn engine_path_resolution(
    prefer_sidecar: bool,
    sidecar_cands: Seq<Seq<char>>,
    sidecar_present: Seq<bool>,
    ov: Option<Seq<char>>,
    ov_is_file: bool,
    path_hit: Option<Seq<char>>,
    cands: Seq<Seq<char>>,
    present: Seq<bool>,
) -> (Option<Seq<char>>, bool, Seq<Seq<char>>) {
    let (sidecar, sidecar_notes) = sidecar_resolution(
        prefer_sidecar,
        sidecar_cands,
        sidecar_present,
    );
    match sidecar {
        Some(p) => (Some(p), false, sidecar_notes),
        None => {
            let (resolved, in_path, more) = opencode_resolution(
                ov,
                ov_is_file,
                path_hit,
                cands,
                present,
            );
            (resolved, in_path, sidecar_notes + more)
        },
    }
}

/// Resolves the engine executable, preferring a bundled sidecar when asked
/// to, and falling back to the override/search-path/known-location order.
pub fn resolve_engine_path(
    prefer_sidecar: bool,
    sidecar_candidates: &Vec<String>,
    sidecar_present: &Vec<bool>,
    override_value: Option<String>,
    override_is_file: bool,
    path_resolved: Option<String>,
    candidates: &Vec<String>,
    candidate_is_file: &Vec<bool>,
) -> (r: (Option<String>, bool, Vec<String>))
    requires
        sidecar_candidates@.len() == sidecar_present@.len(),
        candidates@.len() == candidate_is_file@.len(),
    ensures
        ({
            let (want, want_in_path, want_notes) = engine_path_resolution(
                prefer_sidecar,
                sidecar_candidates.deep_view(),
                sidecar_present@,
                crate::manager::opt_view(override_value),
                override_is_file,
                crate::manager::opt_view(path_resolved),
                candidates.deep_view(),
                candidate_is_file@,
            );
            &&& match want {
                Some(p) => r.0 matches Some(q) && q@ == p,
                None => r.0 is None,
            }
            &&& r.1 == want_in_path
            &&& r.2.deep_view() =~~= want_notes
        }),
{
    let (sidecar, mut notes) = resolve_sidecar_candidate(
        prefer_sidecar,
        sidecar_candidates,
        sidecar_present,
    );
    match sidecar {
        Some(p) => (Some(p), false, notes),
        None => {
            let (resolved, in_path, mut more) = resolve_opencode_executable(
                override_value,
                override_is_file,
                path_resolved,
                candidates,
                candidate_is_file,
            );
            notes.append(&mut more);
            (resolved, in_path, notes)
        },
    }
}

/// Searches the directories of the search path for an executable: the first
/// directory whose joined candidate exists wins. `is_file[i]` reports whether
/// `dirs[i]` joined with `name` exists as a file.
pub fn resolve_in_path(name: &str, dirs: &Vec<String>, is_file: &Vec<bool>) -> (r: Option<String>)
    requires
        dirs@.len() == is_file@.len(),
    ensures
        ({
            let joined_all = dirs.deep_view().map_values(|d: Seq<char>| joined(d, name@));
            match scan_result(joined_all, is_file@) {
                Some(p) => r matches Some(q) && q@ == p,
                None => r is None,
            }
        }),
{
    let ghost joined_all = dirs.deep_view().map_values(|d: Seq<char>| joined(d, name@));
    let mut i: usize = 0;
    while i < dirs.len()
        invariant
            dirs@.len() == is_file@.len(),
            joined_all == dirs.deep_view().map_values(|d: Seq<char>| joined(d, name@)),
            i <= dirs@.len(),
            forall|k: int| 0 <= k < i ==> !is_file@[k],
        decreases dirs@.len() - i,
    {
        if is_file[i] {
            let candidate = crate::text::join_path(dirs[i].as_str(), name);
            proof {
                lemma_scan_skip(joined_all, is_file@, ""@, ""@, i as int);
                assert(is_file@.skip(i as int).first() == is_file@[i as int]);
                assert(joined_all.skip(i as int).first() == joined_all[i as int]);
                assert(scan_result(joined_all, is_file@) == Some(joined_all[i as int]));
                assert(joined_all[i as int] == joined(dirs@[i as int]@, name@));
            }
            return Some(candidate);
        }
        i = i + 1;
    }
    proof {
        lemma_scan_skip(joined_all, is_file@, ""@, ""@, dirs@.len() as int);
    }
    None
}

/// The directories probed for a data home, in order: the XDG data directory,
/// the plain config directory, and (for hosts that use it) the application
/// support directory.
pub fn candidate_xdg_data_dirs(home: Option<String>, include_app_support: bool) -> (r: Vec<
    String,
>)
    ensures
        match home {
            Some(h) => r.deep_view() =~~= seq![
                joined(h@, ".local/share"@),
                joined(h@, ".config"@),
            ] + if include_app_support {
                seq![joined(h@, "Library/Application Support"@)]
            } else {
                Seq::<Seq<char>>::empty()
            },
            None => r@.len() == 0,
        },
{
    let mut out: Vec<String> = Vec::new();
    if let Some(h) = home {
        out.push(crate::text::join_path(h.as_str(), ".local/share"));
        out.push(crate::text::join_path(h.as_str(), ".config"));
        if include_app_support {
            out.push(crate::text::join_path(h.as_str(), "Library/Application Support"));
        }
    }
    out
}

/// The directories probed for a config home, in order.
pub fn candidate_xdg_config_dirs(home: Option<String>, include_app_support: bool) -> (r: Vec<
    String,
>)
    ensures
        match home {
            Some(h) => r.deep_view() =~~= seq![joined(h@, ".config"@)] + if include_app_support {
                seq![joined(h@, "Library/Application Support"@)]
            } else {
                Seq::<Seq<char>>::empty()
            },
            None => r@.len() == 0,
        },
{
    let mut out: Vec<String> = Vec::new();
    if let Some(h) = home {
        out.push(crate::text::join_path(h.as_str(), ".config"));
        if include_app_support {
            out.push(crate::text::join_path(h.as_str(), "Library/Application Support"));
        }
    }
    out
}

/// Decides whether to hand a spawned process an inferred config/data home:
/// only when the variable is not already set, and only the first candidate
/// directory where the caller found the marker file. `marker_present[i]`
/// reports whether the marker exists under `candidates[i]`.
pub fn maybe_infer_xdg_home(
    var_is_set: bool,
    candidates: &Vec<String>,
    marker_present: &Vec<bool>,
) -> (r: Option<String>)
    requires
        candidates@.len() == marker_present@.len(),
    ensures
        var_is_set ==> r is None,
        !var_is_set ==> match scan_result(candidates.deep_view(), marker_present@) {
            Some(p) => r matches Some(q) && q@ == p,
            None => r is None,
        },
{
    if var_is_set {
        return None;
    }
    let ghost cv = candidates.deep_view();
    let mut i: usize = 0;
    while i < candidates.len()
        invariant
            !var_is_set,
            candidates@.len() == marker_present@.len(),
            cv == candidates.deep_view(),
            i <= candidates@.len(),
            forall|k: int| 0 <= k < i ==> !marker_present@[k],
        decreases candidates@.len() - i,
    {
        if marker_present[i] {
            let hit = Some(candidates[i].clone());
            proof {
                lemma_scan_skip(cv, marker_present@, ""@, ""@, i as int);
                assert(marker_present@.skip(i as int).first() == marker_present@[i as int]);
                assert(cv.skip(i as int).first() == cv[i as int]);
                assert(scan_result(cv, marker_present@) == Some(cv[i as int]));
                assert(cv[i as int] == candidates@[i as int]@);
            }
            return hit;
        }
        i = i + 1;
    }
    proof {
        lemma_scan_skip(cv, marker_present@, ""@, ""@, candidates@.len() as int);
    }
    None
}

/// The home directory derived from the environment: the first of the two
/// conventional variables that is set and not blank.
pub fn home_dir_from(home: Option<String>, userprofile: Option<String>) -> (r: Option<String>)
    ensures
        match home {
            Some(h) => if trimmed(h@).len() > 0 {
                r matches Some(q) && q@ == h@
            } else {
                match userprofile {
                    Some(u) => if trimmed(u@).len() > 0 {
                        r matches Some(q) && q@ == u@
                    } else {
                        r is None
                    },
                    None => r is None,
                }
            },
            None => match userprofile {
                Some(u) => if trimmed(u@).len() > 0 {
                    r matches Some(q) && q@ == u@
                } else {
                    r is None
                },
                None => r is None,
            },
        },
{
    if let Some(h) = home {
        let t = crate::text::trim_str(h.as_str());
        if t.as_str().unicode_len() > 0 {
            return Some(h);
        }
    }
    if let Some(u) = userprofile {
        let t = crate::text::trim_str(u.as_str());
        if t.as_str().unicode_len() > 0 {
            return Some(u);
        }
    }
    None
}

/// The known install locations probed for the engine executable when neither
/// an override nor the search path finds it.
pub fn candidate_opencode_paths(home: Option<String>) -> (r: Vec<String>)
    ensures
        r.deep_view() =~~= (match home {
            Some(h) => seq![joined(h@, ".opencode/bin/opencode"@)],
            None => Seq::<Seq<char>>::empty(),
        }) + seq![
            "/opt/homebrew/bin/opencode"@,
            "/usr/local/bin/opencode"@,
            "/usr/bin/opencode"@,
            "/usr/local/bin/opencode"@,
        ],
{
    let mut out: Vec<String> = Vec::new();
    if let Some(h) = home {
        out.push(crate::text::join_path(h.as_str(), ".opencode/bin/opencode"));
    }
    out.push(String::from_str("/opt/homebrew/bin/opencode"));
    out.push(String::from_str("/usr/local/bin/opencode"));
    out.push(String::from_str("/usr/bin/opencode"));
    out.push(String::from_str("/usr/local/bin/opencode"));
    out
}

} // verus!
