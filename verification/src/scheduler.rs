//! Scheduled-job logic: the platform gate, the jobs directory, name
//! slugification and job lookup by name. Reading and deleting job files and
//! talking to the system scheduler stay with the application.

use vstd::prelude::*;
use vstd::string::*;
use crate::text::{ascii_lower, ascii_lower_seq, contains_seq, ends_with_seq, joined, trimmed};

verus! {

/// A stored scheduled job.
#[derive(Clone, Debug)]
pub struct ScheduledJob {
    pub name: String,
    pub slug: String,
    pub schedule: Option<String>,
    pub command: Option<String>,
}

impl ScheduledJob {
    /// A field-for-field copy, usable in proofs.
    pub fn duplicate(&self) -> (r: Self)
        ensures
            r == *self,
    {
        ScheduledJob {
            name: self.name.clone(),
            slug: self.slug.clone(),
            schedule: crate::manager::clone_opt_string(&self.schedule),
            command: crate::manager::clone_opt_string(&self.command),
        }
    }
}

/// Whether the scheduler is available on the given platform.
pub fn scheduler_supported(os: &str) -> (r: bool)
    ensures
        r == (os@ == "macos"@ || os@ == "linux"@),
{
    crate::text::str_eq(os, "macos") || crate::text::str_eq(os, "linux")
}

/// Rejects scheduler commands on platforms without a scheduler.
pub fn require_scheduler_support(os: &str) -> (r: Result<(), String>)
    ensures
        (os@ == "macos"@ || os@ == "linux"@) ==> r is Ok,
        !(os@ == "macos"@ || os@ == "linux"@) ==> (r matches Err(e) && e@
            == "Scheduler is supported only on macOS and Linux."@),
{
    if scheduler_supported(os) {
        Ok(())
    } else {
        Err(String::from_str("Scheduler is supported only on macOS and Linux."))
    }
}

/// The directory job definitions live in, under the home directory.
pub fn opencode_jobs_dir(home: Option<String>) -> (r: Result<String, String>)
    ensures
        match home {
            Some(h) => r matches Ok(d) && d@ == joined(h@, ".config/opencode/jobs"@),
            None => r matches Err(e) && e@ == "Failed to resolve home directory"@,
        },
{
    match home {
        Some(h) => Ok(crate::text::join_path(h.as_str(), ".config/opencode/jobs")),
        None => Err(String::from_str("Failed to resolve home directory")),
    }
}

/// The file a job definition lives in.
pub fn job_file_path(jobs_dir: &str, slug: &str) -> (r: String)
    ensures
        r@ == joined(jobs_dir@, slug@ + ".json"@),
{
    let mut name = String::from_str(slug);
    name.append(".json");
    crate::text::join_path(jobs_dir, name.as_str())
}

/// The launch-agent property list a job is installed under on hosts that use
/// one: the label, and the file under the home directory.
pub fn launch_agent_paths(home: &str, slug: &str) -> (r: (String, String))
    ensures
        r.0@ == "com.opencode.job."@ + slug@,
        r.1@ == joined(
            joined(home@, "Library/LaunchAgents"@),
            "com.opencode.job."@ + slug@ + ".plist"@,
        ),
{
    let mut label = String::from_str("com.opencode.job.");
    label.append(slug);
    let base = crate::text::join_path(home, "Library/LaunchAgents");
    let mut file = String::from_str(label.as_str());
    file.append(".plist");
    let path = crate::text::join_path(base.as_str(), file.as_str());
    (label, path)
}

/// The user-level service and timer units a job is installed under on hosts
/// that schedule through unit files.
pub fn systemd_unit_paths(home: &str, slug: &str) -> (r: (String, String))
    ensures
        r.0@ == joined(
            joined(home@, ".config/systemd/user"@),
            "opencode-job-"@ + slug@ + ".service"@,
        ),
        r.1@ == joined(
            joined(home@, ".config/systemd/user"@),
            "opencode-job-"@ + slug@ + ".timer"@,
        ),
{
    let base = crate::text::join_path(home, ".config/systemd/user");
    let mut service = String::from_str("opencode-job-");
    service.append(slug);
    service.append(".service");
    let mut timer = String::from_str("opencode-job-");
    timer.append(slug);
    timer.append(".timer");
    let service_path = crate::text::join_path(base.as_str(), service.as_str());
    let timer_path = crate::text::join_path(base.as_str(), timer.as_str());
    (service_path, timer_path)
}

/// A character a slug may hold besides the separating dash.
pub open spec fn is_slug_char(c: char) -> bool {
    ('a' <= c && c <= 'z') || ('0' <= c && c <= '9')
}

#[verifier::when_used_as_spec(is_slug_char)]
fn is_slug_char_exec(c: char) -> (r: bool)
    ensures
        r == is_slug_char(c),
{
    ('a' <= c && c <= 'z') || ('0' <= c && c <= '9')
}

/// The raw slug of a character sequence: letters lowered, every other run of
/// characters collapsed into a single dash.
pub open spec fn slug_fold(s: Seq<char>, dash: bool) -> Seq<char>
    decreases s.len(),
{
    if s.len() == 0 {
        Seq::empty()
    } else {
        let c = ascii_lower(s.first());
        if is_slug_char(c) {
            seq![c] + slug_fold(s.drop_first(), false)
        } else if dash {
            slug_fold(s.drop_first(), true)
        } else {
            seq!['-'] + slug_fold(s.drop_first(), true)
        }
    }
}

/// A sequence with leading dashes removed.
pub open spec fn trim_dash_front(s: Seq<char>) -> Seq<char>
    decreases s.len(),
{
    if s.len() == 0 {
        s
    } else if s.first() == '-' {
        trim_dash_front(s.drop_first())
    } else {
        s
    }
}

/// A sequence with trailing dashes removed.
pub open spec fn trim_dash_back(s: Seq<char>) -> Seq<char>
    decreases s.len(),
{
    if s.len() == 0 {
        s
    } else if s.last() == '-' {
        trim_dash_back(s.drop_last())
    } else {
        s
    }
}

/// The slug of a job name: trimmed, lowered, non-alphanumeric runs collapsed
/// to single dashes, and dangling dashes dropped.
pub open spec fn slug_of(name: Seq<char>) -> Seq<char> {
    trim_dash_back(trim_dash_front(slug_fold(trimmed(name), false)))
}

proof fn lemma_trim_dash_front_skip(s: Seq<char>, i: int)
    requires
        0 <= i <= s.len(),
        forall|k: int| 0 <= k < i ==> s[k] == '-',
    ensures
        trim_dash_front(s) == trim_dash_front(s.skip(i)),
    decreases i,
{
    if i > 0 {
        assert(s.first() == '-');
        assert(s.skip(1).skip(i - 1) =~= s.skip(i));
        lemma_trim_dash_front_skip(s.skip(1), i - 1);
        assert(s.drop_first() =~= s.skip(1));
    } else {
        assert(s.skip(0) =~= s);
    }
}

proof fn lemma_trim_dash_back_take(s: Seq<char>, j: int)
    requires
        0 <= j <= s.len(),
        forall|k: int| j <= k < s.len() ==> s[k] == '-',
    ensures
        trim_dash_back(s) == trim_dash_back(s.take(j)),
    decreases s.len() - j,
{
    if j < s.len() {
        assert(s.last() == '-');
        assert(s.drop_last() =~= s.take(s.len() - 1));
        assert(s.take(s.len() - 1).take(j) =~= s.take(j));
        lemma_trim_dash_back_take(s.take(s.len() - 1), j);
    } else {
        assert(s.take(s.len() as int) =~= s);
    }
}

/// Slugifies a job name.
pub fn slugify(name: &str) -> (r: String)
    ensures
        r@ == slug_of(name@),
{
    let t = crate::text::trim_str(name);
    let chars = crate::text::str_to_chars(t.as_str());
    let n = chars.len();
    let mut out: Vec<char> = Vec::new();
    let mut dash = false;
    let mut i: usize = 0;
    proof {
        assert(chars@.skip(0) =~= chars@);
    }
    while i < n
        invariant
            i <= n,
            n == chars@.len(),
            chars@ == trimmed(name@),
            slug_fold(chars@, false) == out@ + slug_fold(chars@.skip(i as int), dash),
        decreases n - i,
    {
        proof {
            assert(chars@.skip(i as int).first() == chars@[i as int]);
            assert(chars@.skip(i as int).drop_first() =~= chars@.skip(i + 1 as int));
        }
        let c = {
            let raw = chars[i];
            if 'A' <= raw && raw <= 'Z' {
                (((raw as u8) + 32) as char)
            } else {
                raw
            }
        };
        if is_slug_char_exec(c) {
            out.push(c);
            dash = false;
        } else if !dash {
            out.push('-');
            dash = true;
        }
        proof {
            assert(slug_fold(chars@, false) == out@ + slug_fold(chars@.skip(i + 1 as int), dash));
        }
        i = i + 1;
    }
    proof {
        assert(chars@.skip(n as int) =~= Seq::<char>::empty());
        assert(slug_fold(chars@, false) =~= out@);
    }
    let m = out.len();
    let mut start: usize = 0;
    while start < m && out[start] == '-'
        invariant
            start <= m,
            m == out@.len(),
            forall|k: int| 0 <= k < start ==> out@[k] == '-',
        decreases m - start,
    {
        start = start + 1;
    }
    let mut end: usize = m;
    while end > start && out[end - 1] == '-'
        invariant
            start <= end <= m,
            m == out@.len(),
            forall|k: int| 0 <= k < start ==> out@[k] == '-',
            forall|k: int| end <= k < m ==> out@[k] == '-',
        decreases end,
    {
        end = end - 1;
    }
    let mut kept: Vec<char> = Vec::new();
    let mut k: usize = start;
    while k < end
        invariant
            start <= k <= end <= m,
            m == out@.len(),
            kept@ == out@.subrange(start as int, k as int),
        decreases end - k,
    {
        kept.push(out[k]);
        proof {
            assert(out@.subrange(start as int, k + 1 as int) =~= out@.subrange(
                start as int,
                k as int,
            ).push(out@[k as int]));
        }
        k = k + 1;
    }
    proof {
        lemma_trim_dash_front_skip(out@, start as int);
        if start == m {
            assert(out@.skip(start as int) =~= out@.subrange(start as int, end as int));
            assert(trim_dash_back(trim_dash_front(out@)) =~= out@.subrange(
                start as int,
                end as int,
            ));
        } else {
            assert(out@[start as int] != '-');
            assert(trim_dash_front(out@) == out@.skip(start as int));
            let v = out@.skip(start as int);
            lemma_trim_dash_back_take(v, end - start);
            if end > start {
                assert(v[end - start - 1] != '-');
                assert(trim_dash_back(v.take(end - start)) =~= v.take(end - start));
            } else {
                assert(v.take(0) =~= Seq::<char>::empty());
            }
            assert(v.take(end - start) =~= out@.subrange(start as int, end as int));
        }
    }
    crate::text::chars_to_string(&kept)
}

/// Whether a stored job answers to the given (trimmed) name: by exact slug,
/// by slug suffix, or by its name compared or searched case-insensitively.
pub open spec fn job_matches(j: ScheduledJob, t: Seq<char>, slug: Seq<char>) -> bool {
    ||| j.slug@ == t
    ||| ends_with_seq(j.slug@, "-"@ + slug)
    ||| ascii_lower_seq(j.name@) == ascii_lower_seq(t)
    ||| contains_seq(ascii_lower_seq(j.name@), ascii_lower_seq(t))
}

/// The first job answering to the name.
pub open spec fn first_job_match(jobs: Seq<ScheduledJob>, t: Seq<char>, slug: Seq<char>) -> Option<
    int,
>
    decreases jobs.len(),
{
    if jobs.len() == 0 {
        None
    } else if job_matches(jobs.first(), t, slug) {
        Some(0)
    } else {
        match first_job_match(jobs.drop_first(), t, slug) {
            Some(k) => Some(k + 1),
            None => None,
        }
    }
}

proof fn lemma_first_job_match_skip(jobs: Seq<ScheduledJob>, t: Seq<char>, slug: Seq<char>, i: int)
    requires
        0 <= i <= jobs.len(),
        forall|k: int| 0 <= k < i ==> !job_matches(#[trigger] jobs[k], t, slug),
    ensures
        first_job_match(jobs, t, slug) == match first_job_match(jobs.skip(i), t, slug) {
            Some(k) => Some(k + i),
            None => None::<int>,
        },
    decreases i,
{
    if i > 0 {
        assert(!job_matches(jobs.first(), t, slug));
        assert(jobs.drop_first() =~= jobs.skip(1));
        assert(jobs.skip(1).skip(i - 1) =~= jobs.skip(i));
        lemma_first_job_match_skip(jobs.skip(1), t, slug, i - 1);
    } else {
        assert(jobs.skip(0) =~= jobs);
    }
}

/// Looks a job up by name: a blank name finds nothing; otherwise the first
/// job whose slug or name answers to it (exactly, by slug suffix, or
/// case-insensitively) is returned.
pub fn find_job_by_name(jobs: &Vec<ScheduledJob>, name: &str) -> (r: Option<ScheduledJob>)
    ensures
        trimmed(name@).len() == 0 ==> r is None,
        trimmed(name@).len() > 0 ==> match first_job_match(
            jobs@,
            trimmed(name@),
            slug_of(trimmed(name@)),
        ) {
            Some(i) => r matches Some(j) && j == jobs@[i],
            None => r is None,
        },
{
    let t = crate::text::trim_str(name);
    if t.as_str().unicode_len() == 0 {
        return None;
    }
    let ghost tv = trimmed(name@);
    let slug = slugify(t.as_str());
    let mut suffix = String::from_str("-");
    suffix.append(slug.as_str());
    let suffix_chars = crate::text::str_to_chars(suffix.as_str());
    let t_chars = crate::text::str_to_chars(t.as_str());
    let t_lower = crate::text::lower_chars(&t_chars);
    let mut i: usize = 0;
    while i < jobs.len()
        invariant
            i <= jobs@.len(),
            tv == trimmed(name@),
            tv.len() > 0,
            t@ == tv,
            slug@ == slug_of(tv),
            suffix_chars@ == "-"@ + slug_of(tv),
            t_lower@ == ascii_lower_seq(tv),
            forall|k: int| 0 <= k < i ==> !job_matches(#[trigger] jobs@[k], tv, slug_of(tv)),
        decreases jobs@.len() - i,
    {
        let job_slug_chars = crate::text::str_to_chars(jobs[i].slug.as_str());
        let name_chars = crate::text::str_to_chars(jobs[i].name.as_str());
        let name_lower = crate::text::lower_chars(&name_chars);
        let hit = crate::text::str_eq(jobs[i].slug.as_str(), t.as_str())
            || crate::text::ends_with_chars(&job_slug_chars, &suffix_chars) || crate::text::chars_eq(
            &name_lower,
            &t_lower,
        ) || crate::text::contains_chars(&name_lower, &t_lower);
        if hit {
            let found = jobs[i].duplicate();
            proof {
                lemma_first_job_match_skip(jobs@, tv, slug_of(tv), i as int);
                assert(jobs@.skip(i as int).first() == jobs@[i as int]);
                assert(first_job_match(jobs@, tv, slug_of(tv)) == Some(i as int));
            }
            return Some(found);
        }
        i = i + 1;
    }
    proof {
        lemma_first_job_match_skip(jobs@, tv, slug_of(tv), jobs@.len() as int);
    }
    None
}

} // verus!
