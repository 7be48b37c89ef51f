//! Skill management logic: name validation, where skills are looked for, and
//! the short description pulled out of a skill's documentation file. The
//! directory walking and file reads stay with the application.

use vstd::prelude::*;
use vstd::string::*;
use crate::text::{joined, trimmed};

verus! {

/// A skill found on disk, as shown to the caller.
#[derive(Clone, Debug)]
pub struct LocalSkillCard {
    pub name: String,
    pub path: String,
    pub description: Option<String>,
}

/// Characters a skill name may hold.
pub open spec fn is_kebab_char(c: char) -> bool {
    ('a' <= c && c <= 'z') || ('0' <= c && c <= '9') || c == '-'
}

#[verifier::when_used_as_spec(is_kebab_char)]
fn is_kebab_char_exec(c: char) -> (r: bool)
    ensures
        r == is_kebab_char(c),
{
    ('a' <= c && c <= 'z') || ('0' <= c && c <= '9') || c == '-'
}

/// A well-formed skill name: kebab-case, with no leading, trailing or doubled
/// dash.
pub open spec fn is_kebab_name(s: Seq<char>) -> bool {
    &&& s.len() > 0
    &&& forall|k: int| 0 <= k < s.len() ==> is_kebab_char(#[trigger] s[k])
    &&& s.first() != '-'
    &&& s.last() != '-'
    &&& forall|k: int| 0 <= k < s.len() - 1 ==> !(#[trigger] s[k] == '-' && s[k + 1] == '-')
}

/// Validates a skill name: a blank one and one that is not kebab-case are
/// rejected, each with its own error; a valid one comes back trimmed.
pub fn validate_skill_name(name: &str) -> (r: Result<String, String>)
    ensures
        trimmed(name@).len() == 0 ==> (r matches Err(e) && e@ == "skill name is required"@),
        trimmed(name@).len() > 0 && !is_kebab_name(trimmed(name@)) ==> (r matches Err(e) && e@
            == "skill name must be kebab-case"@),
        is_kebab_name(trimmed(name@)) ==> (r matches Ok(n) && n@ == trimmed(name@)),
{
    let t = crate::text::trim_str(name);
    let chars = crate::text::str_to_chars(t.as_str());
    let n = chars.len();
    if n == 0 {
        return Err(String::from_str("skill name is required"));
    }
    let mut i: usize = 0;
    while i < n
        invariant
            i <= n,
            n == chars@.len(),
            chars@ == trimmed(name@),
            forall|k: int| 0 <= k < i ==> is_kebab_char(#[trigger] chars@[k]),
        decreases n - i,
    {
        if !is_kebab_char_exec(chars[i]) {
            return Err(String::from_str("skill name must be kebab-case"));
        }
        i = i + 1;
    }
    if chars[0] == '-' || chars[n - 1] == '-' {
        return Err(String::from_str("skill name must be kebab-case"));
    }
    let mut j: usize = 0;
    while j < n - 1
        invariant
            1 <= n,
            j <= n,
            n == chars@.len(),
            chars@ == trimmed(name@),
            forall|k: int| 0 <= k < j ==> !(#[trigger] chars@[k] == '-' && chars@[k + 1] == '-'),
        decreases n - j,
    {
        if chars[j] == '-' && chars[j + 1] == '-' {
            return Err(String::from_str("skill name must be kebab-case"));
        }
        j = j + 1;
    }
    proof {
        assert(is_kebab_name(trimmed(name@)));
    }
    Ok(t)
}

/// A line with backticks removed and surrounding whitespace dropped.
pub open spec fn cleaned_line(line: Seq<char>) -> Seq<char>
    decreases line.len(),
{
    if line.len() == 0 {
        Seq::empty()
    } else {
        cleaned_line(line.drop_last()) + if line.last() == '`' {
            Seq::<char>::empty()
        } else {
            seq![line.last()]
        }
    }
}

/// Cap on a description pulled from a skill file, in characters.
pub const DESCRIPTION_CAP: usize = 180;

/// What one line contributes to the description scan: the description, when
/// this line provides one.
pub open spec fn line_description(line: Seq<char>, in_frontmatter: bool) -> Option<Seq<char>> {
    let t = trimmed(line);
    if t.len() == 0 || t == "---"@ || in_frontmatter || t.first() == '#' {
        None
    } else {
        let cleaned = cleaned_line(t);
        if cleaned.len() == 0 {
            None
        } else if cleaned.len() > DESCRIPTION_CAP {
            Some(cleaned.take(DESCRIPTION_CAP as int) + "..."@)
        } else {
            Some(cleaned)
        }
    }
}

/// The frontmatter state after one line: a marker line toggles it.
pub open spec fn frontmatter_after(line: Seq<char>, in_frontmatter: bool) -> bool {
    if trimmed(line) == "---"@ {
        !in_frontmatter
    } else {
        in_frontmatter
    }
}

/// The description the scan yields: the first line outside frontmatter that
/// is not blank, not a header and not only backticks, capped and marked when
/// over-long.
pub open spec fn description_of_lines(lines: Seq<Seq<char>>, in_frontmatter: bool) -> Option<
    Seq<char>,
>
    decreases lines.len(),
{
    if lines.len() == 0 {
        None
    } else {
        match line_description(lines.first(), in_frontmatter) {
            Some(d) => Some(d),
            None => description_of_lines(
                lines.drop_first(),
                frontmatter_after(lines.first(), in_frontmatter),
            ),
        }
    }
}

/// The lines of a text, split at newline characters.
pub open spec fn split_lines(s: Seq<char>) -> Seq<Seq<char>> {
    lines_acc(s).0.push(lines_acc(s).1)
}

/// Completed lines plus the line still being read, after consuming `s`.
pub open spec fn lines_acc(s: Seq<char>) -> (Seq<Seq<char>>, Seq<char>)
    decreases s.len(),
{
    if s.len() == 0 {
        (Seq::empty(), Seq::empty())
    } else {
        let (done, cur) = lines_acc(s.drop_last());
        if s.last() == '\n' {
            (done.push(cur), Seq::empty())
        } else {
            (done, cur.push(s.last()))
        }
    }
}

fn split_into_lines(raw: &str) -> (r: Vec<Vec<char>>)
    ensures
        r.deep_view() =~~= split_lines(raw@),
{
    let chars = crate::text::str_to_chars(raw);
    let mut done: Vec<Vec<char>> = Vec::new();
    let mut cur: Vec<char> = Vec::new();
    let mut i: usize = 0;
    while i < chars.len()
        invariant
            i <= chars@.len(),
            chars@ == raw@,
            done.deep_view() =~~= lines_acc(chars@.take(i as int)).0,
            cur@ == lines_acc(chars@.take(i as int)).1,
        decreases chars@.len() - i,
    {
        let ghost pre = done.deep_view();
        if chars[i] == '\n' {
            done.push(cur);
            cur = Vec::new();
            proof {
                assert(done.deep_view() =~~= pre.push(lines_acc(chars@.take(i as int)).1));
            }
        } else {
            cur.push(chars[i]);
        }
        proof {
            assert(chars@.take(i + 1 as int).drop_last() =~= chars@.take(i as int));
            assert(chars@.take(i + 1 as int).last() == chars@[i as int]);
        }
        i = i + 1;
    }
    let ghost pre = done.deep_view();
    done.push(cur);
    proof {
        assert(chars@.take(chars@.len() as int) =~= chars@);
        assert(done.deep_view() =~~= pre.push(lines_acc(chars@).1));
    }
    done
}

fn clean_line(line: &Vec<char>) -> (r: Vec<char>)
    ensures
        r@ == cleaned_line(line@),
{
    let mut out: Vec<char> = Vec::new();
    let mut i: usize = 0;
    while i < line.len()
        invariant
            i <= line@.len(),
            out@ == cleaned_line(line@.take(i as int)),
        decreases line@.len() - i,
    {
        if line[i] != '`' {
            out.push(line[i]);
        }
        proof {
            assert(line@.take(i + 1 as int).drop_last() =~= line@.take(i as int));
            assert(line@.take(i + 1 as int).last() == line@[i as int]);
            assert(out@ =~= cleaned_line(line@.take(i + 1 as int)));
        }
        i = i + 1;
    }
    proof {
        assert(line@.take(line@.len() as int) =~= line@);
    }
    out
}

fn trim_chars(line: &Vec<char>) -> (r: Vec<char>)
    ensures
        r@ == trimmed(line@),
{
    let s = crate::text::chars_to_string(line);
    let t = crate::text::trim_str(s.as_str());
    crate::text::str_to_chars(t.as_str())
}

/// Pulls a short description out of a skill's documentation text: the first
/// line outside YAML frontmatter that is not blank, not a header and not only
/// backticks, with backticks removed and long lines capped.
pub fn extract_description(raw: &str) -> (r: Option<String>)
    ensures
        match description_of_lines(split_lines(raw@), false) {
            Some(d) => r matches Some(s) && s@ == d,
            None => r is None,
        },
{
    let lines = split_into_lines(raw);
    let ghost all = lines.deep_view();
    let mut in_frontmatter = false;
    let mut i: usize = 0;
    proof {
        assert(all.skip(0) =~~= all);
    }
    while i < lines.len()
        invariant
            i <= lines@.len(),
            all == lines.deep_view(),
            all =~~= split_lines(raw@),
            description_of_lines(all, false) == description_of_lines(
                all.skip(i as int),
                in_frontmatter,
            ),
        decreases lines@.len() - i,
    {
        proof {
            assert(all.skip(i as int).first() == all[i as int]);
            assert(all.skip(i as int).drop_first() =~~= all.skip(i + 1 as int));
            assert(all[i as int] == lines@[i as int]@);
        }
        let t = trim_chars(&lines[i]);
        let marker = crate::text::str_to_chars("---");
        let is_marker = crate::text::chars_eq(&t, &marker);
        let qualifies = if t.len() == 0 || is_marker || in_frontmatter {
            false
        } else {
            t[0] != '#'
        };
        if qualifies {
            let cleaned = clean_line(&t);
            if cleaned.len() > 0 {
                if cleaned.len() > DESCRIPTION_CAP {
                    let mut capped: Vec<char> = Vec::new();
                    let mut k: usize = 0;
                    while k < DESCRIPTION_CAP
                        invariant
                            k <= DESCRIPTION_CAP,
                            DESCRIPTION_CAP < cleaned@.len(),
                            capped@ == cleaned@.take(k as int),
                        decreases DESCRIPTION_CAP - k,
                    {
                        capped.push(cleaned[k]);
                        proof {
                            assert(cleaned@.take(k + 1 as int) =~= cleaned@.take(k as int).push(
                                cleaned@[k as int],
                            ));
                        }
                        k = k + 1;
                    }
                    let mut s = crate::text::chars_to_string(&capped);
                    s.append("...");
                    proof {
                        assert(s@ =~= cleaned_line(trimmed(all[i as int])).take(
                            DESCRIPTION_CAP as int,
                        ) + "..."@);
                    }
                    return Some(s);
                }
                let s = crate::text::chars_to_string(&cleaned);
                return Some(s);
            }
        }
        if is_marker {
            in_frontmatter = !in_frontmatter;
        }
        i = i + 1;
    }
    None
}

/// The skill directory candidates inside one project directory, given which
/// of them exist: the current layout, the legacy layout only as a fallback,
/// and the sibling tool's layout.
pub fn project_skill_roots(
    dir: &str,
    has_skills: bool,
    has_legacy: bool,
    has_companion: bool,
) -> (r: Vec<String>)
    ensures
        r.deep_view() =~~= (if has_skills {
            seq![joined(dir@, ".opencode/skills"@)]
        } else if has_legacy {
            seq![joined(dir@, ".opencode/skill"@)]
        } else {
            Seq::<Seq<char>>::empty()
        }) + (if has_companion {
            seq![joined(dir@, ".companion/skills"@)]
        } else {
            Seq::<Seq<char>>::empty()
        }),
{
    let mut out: Vec<String> = Vec::new();
    if has_skills {
        out.push(crate::text::join_path(dir, ".opencode/skills"));
    } else if has_legacy {
        out.push(crate::text::join_path(dir, ".opencode/skill"));
    }
    if has_companion {
        out.push(crate::text::join_path(dir, ".companion/skills"));
    }
    out
}

/// The result reported for a skill installed at its destination.
pub fn skill_installed_result(dest: &str) -> (r: crate::types::ExecResult)
    ensures
        r.ok,
        r.status == 0,
        r.stdout@ == "Installed skill to "@ + dest@,
        r.stderr@.len() == 0,
{
    let mut msg = String::from_str("Installed skill to ");
    msg.append(dest);
    crate::types::ExecResult { ok: true, status: 0, stdout: msg, stderr: String::new() }
}

/// The result reported when a skill already sits at its destination and no
/// overwrite was asked for.
pub fn skill_exists_result(dest: &str) -> (r: crate::types::ExecResult)
    ensures
        !r.ok,
        r.status == 1,
        r.stdout@.len() == 0,
        r.stderr@ == "Skill already exists at "@ + dest@,
{
    let mut msg = String::from_str("Skill already exists at ");
    msg.append(dest);
    crate::types::ExecResult { ok: false, status: 1, stdout: String::new(), stderr: msg }
}

/// The result reported after a skill was removed.
pub fn skill_removed_result(name: &str) -> (r: crate::types::ExecResult)
    ensures
        r.ok,
        r.status == 0,
        r.stdout@ == "Removed skill "@ + name@,
        r.stderr@.len() == 0,
{
    let mut msg = String::from_str("Removed skill ");
    msg.append(name);
    crate::types::ExecResult { ok: true, status: 0, stdout: msg, stderr: String::new() }
}

/// The result reported when no root held the skill to remove.
pub fn skill_not_found_result() -> (r: crate::types::ExecResult)
    ensures
        !r.ok,
        r.status == 1,
        r.stdout@.len() == 0,
        r.stderr@ == "Skill not found in .opencode/skills or .companion/skills"@,
{
    crate::types::ExecResult {
        ok: false,
        status: 1,
        stdout: String::new(),
        stderr: String::from_str("Skill not found in .opencode/skills or .companion/skills"),
    }
}

/// What the application found probing one ancestor directory of a project.
#[derive(Clone, Debug)]
pub struct DirProbe {
    pub dir: String,
    pub has_skills: bool,
    pub has_legacy: bool,
    pub has_companion: bool,
    pub has_git: bool,
}

/// The skill roots one probed directory contributes.
pub open spec fn dir_roots(p: DirProbe) -> Seq<Seq<char>> {
    (if p.has_skills {
        seq![joined(p.dir@, ".opencode/skills"@)]
    } else if p.has_legacy {
        seq![joined(p.dir@, ".opencode/skill"@)]
    } else {
        Seq::<Seq<char>>::empty()
    }) + (if p.has_companion {
        seq![joined(p.dir@, ".companion/skills"@)]
    } else {
        Seq::<Seq<char>>::empty()
    })
}

/// The roots gathered walking a project's ancestors, stopping after the
/// first directory that holds a repository marker.
pub open spec fn roots_upto_git(probes: Seq<DirProbe>) -> Seq<Seq<char>>
    decreases probes.len(),
{
    if probes.len() == 0 {
        Seq::empty()
    } else {
        dir_roots(probes.first()) + if probes.first().has_git {
            Seq::<Seq<char>>::empty()
        } else {
            roots_upto_git(probes.drop_first())
        }
    }
}

/// Collects the project-side skill roots: the probes come ordered from the
/// project directory upward; the walk stops at the first repository root.
pub fn collect_project_skill_roots(probes: &Vec<DirProbe>) -> (r: Vec<String>)
    ensures
        r.deep_view() =~~= roots_upto_git(probes@),
{
    let mut out: Vec<String> = Vec::new();
    let mut i: usize = 0;
    proof {
        assert(probes@.skip(0) =~= probes@);
    }
    while i < probes.len()
        invariant
            i <= probes@.len(),
            roots_upto_git(probes@) =~~= out.deep_view() + roots_upto_git(
                probes@.skip(i as int),
            ),
            forall|k: int| 0 <= k < i ==> !probes@[k].has_git,
        decreases probes@.len() - i,
    {
        proof {
            assert(probes@.skip(i as int).first() == probes@[i as int]);
            assert(probes@.skip(i as int).drop_first() =~= probes@.skip(i + 1 as int));
        }
        let ghost pre = out.deep_view();
        let p = &probes[i];
        if p.has_skills {
            out.push(crate::text::join_path(p.dir.as_str(), ".opencode/skills"));
        } else if p.has_legacy {
            out.push(crate::text::join_path(p.dir.as_str(), ".opencode/skill"));
        }
        if p.has_companion {
            out.push(crate::text::join_path(p.dir.as_str(), ".companion/skills"));
        }
        proof {
            assert(out.deep_view() =~~= pre + dir_roots(probes@[i as int]));
        }
        if p.has_git {
            proof {
                assert(out.deep_view() =~~= roots_upto_git(probes@));
            }
            return out;
        }
        i = i + 1;
    }
    proof {
        assert(roots_upto_git(probes@.skip(probes@.len() as int)) =~~= Seq::<Seq<char>>::empty());
    }
    out
}

/// The global roots one probed config directory contributes.
pub open spec fn global_config_roots(dirs: Seq<Seq<char>>, present: Seq<bool>) -> Seq<Seq<char>>
    decreases dirs.len(),
{
    if dirs.len() == 0 || present.len() == 0 {
        Seq::empty()
    } else {
        (if present.first() {
            seq![joined(dirs.first(), "opencode/skills"@)]
        } else {
            Seq::<Seq<char>>::empty()
        }) + global_config_roots(dirs.drop_first(), present.drop_first())
    }
}

/// Collects the global skill roots: each config home whose skills directory
/// exists, then the home-level sibling tool's directory when it exists.
/// `present[i]` reports whether `config_dirs[i]` holds a skills directory.
pub fn collect_global_skill_roots(
    config_dirs: &Vec<String>,
    present: &Vec<bool>,
    home: Option<String>,
    home_has_companion: bool,
) -> (r: Vec<String>)
    requires
        config_dirs@.len() == present@.len(),
    ensures
        r.deep_view() =~~= global_config_roots(config_dirs.deep_view(), present@) + (
        match home {
            Some(h) => if home_has_companion {
                seq![joined(h@, ".companion/skills"@)]
            } else {
                Seq::<Seq<char>>::empty()
            },
            None => Seq::<Seq<char>>::empty(),
        }),
{
    let ghost dv = config_dirs.deep_view();
    let mut out: Vec<String> = Vec::new();
    let mut i: usize = 0;
    proof {
        assert(dv.skip(0) =~~= dv);
        assert(present@.skip(0) =~= present@);
    }
    while i < config_dirs.len()
        invariant
            config_dirs@.len() == present@.len(),
            dv == config_dirs.deep_view(),
            i <= config_dirs@.len(),
            global_config_roots(dv, present@) =~~= out.deep_view() + global_config_roots(
                dv.skip(i as int),
                present@.skip(i as int),
            ),
        decreases config_dirs@.len() - i,
    {
        proof {
            assert(dv.skip(i as int).first() == dv[i as int]);
            assert(dv[i as int] == config_dirs@[i as int]@);
            assert(present@.skip(i as int).first() == present@[i as int]);
            assert(dv.skip(i as int).drop_first() =~~= dv.skip(i + 1 as int));
            assert(present@.skip(i as int).drop_first() =~= present@.skip(i + 1 as int));
        }
        let ghost pre = out.deep_view();
        if present[i] {
            out.push(crate::text::join_path(config_dirs[i].as_str(), "opencode/skills"));
            proof {
                assert(out.deep_view() =~~= pre.push(joined(dv[i as int], "opencode/skills"@)));
            }
        }
        i = i + 1;
    }
    proof {
        assert(global_config_roots(dv.skip(dv.len() as int), present@.skip(present@.len() as int))
            =~~= Seq::<Seq<char>>::empty());
        assert(out.deep_view() =~~= global_config_roots(dv, present@));
    }
    if let Some(h) = home {
        if home_has_companion {
            out.push(crate::text::join_path(h.as_str(), ".companion/skills"));
        }
    }
    out
}

/// Collects every skill root for a project: the project-side walk, then the
/// global roots, deduplicated in order.
pub fn collect_skill_roots(project_probes: &Vec<DirProbe>, global_roots: Vec<String>) -> (r: Vec<
    String,
>)
    ensures
        r.deep_view() =~~= crate::misc::dedup_view(
            roots_upto_git(project_probes@) + crate::misc::views_of(global_roots@),
        ),
{
    let ghost global_views = crate::misc::views_of(global_roots@);
    let mut all = collect_project_skill_roots(project_probes);
    let ghost project_views = all.deep_view();
    let mut more = global_roots;
    all.append(&mut more);
    let ghost all_snapshot = all@;
    proof {
        assert(crate::misc::views_of(all_snapshot) =~~= project_views + global_views);
    }
    let r = dedup_roots(all);
    proof {
        crate::misc::lemma_deduped_views(all_snapshot);
        assert(r.deep_view() =~~= crate::misc::views_of(r@));
    }
    r
}

/// Deduplicates a root list, keeping first occurrences in order.
pub open spec fn deduped(items: Seq<String>) -> Seq<String>
    decreases items.len(),
{
    if items.len() == 0 {
        Seq::empty()
    } else {
        let prev = deduped(items.drop_last());
        if crate::templates::has_str(prev, items.last()@) {
            prev
        } else {
            prev.push(items.last())
        }
    }
}

/// Drops duplicate roots, keeping the first occurrence of each.
pub fn dedup_roots(items: Vec<String>) -> (r: Vec<String>)
    ensures
        r@ == deduped(items@),
{
    let mut out: Vec<String> = Vec::new();
    let mut i: usize = 0;
    while i < items.len()
        invariant
            i <= items@.len(),
            out@ == deduped(items@.take(i as int)),
        decreases items@.len() - i,
    {
        if !crate::templates::vec_contains_str(&out, items[i].as_str()) {
            out.push(items[i].clone());
        }
        proof {
            assert(items@.take(i + 1 as int).drop_last() =~= items@.take(i as int));
            assert(items@.take(i + 1 as int).last() == items@[i as int]);
        }
        i = i + 1;
    }
    proof {
        assert(items@.take(items@.len() as int) =~= items@);
    }
    out
}

} // verus!
