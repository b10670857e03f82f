//! The filter engine: reduces the full job list to the ordered sub-sequence
//! whose case-insensitive state label matches the active filter mode.

use vstd::prelude::*;
use vstd::seq_lib::*;
use vstd::string::*;
use crate::jobs::{Job, JobView};

verus! {

/// The named predicates selecting which job states are visible.
#[derive(Clone, Copy, PartialEq, Eq, Structural, Debug)]
pub enum FilterMode {
    /// Waiting or running jobs: the view shown at startup.
    Default,
    Waiting,
    Running,
    Completed,
    Aborted,
    All,
}

/// ASCII lowercasing of one character; anything but `A`..`Z` is untouched.
pub open spec fn lower_char(c: char) -> char {
    match c {
        'A' => 'a',
        'B' => 'b',
        'C' => 'c',
        'D' => 'd',
        'E' => 'e',
        'F' => 'f',
        'G' => 'g',
        'H' => 'h',
        'I' => 'i',
        'J' => 'j',
        'K' => 'k',
        'L' => 'l',
        'M' => 'm',
        'N' => 'n',
        'O' => 'o',
        'P' => 'p',
        'Q' => 'q',
        'R' => 'r',
        'S' => 's',
        'T' => 't',
        'U' => 'u',
        'V' => 'v',
        'W' => 'w',
        'X' => 'x',
        'Y' => 'y',
        'Z' => 'z',
        _ => c,
    }
}

/// ASCII lowercasing of a whole string.
pub open spec fn lower_seq(s: Seq<char>) -> Seq<char> {
    s.map_values(|c: char| lower_char(c))
}

/// Whether a job with the given state label is visible under `mode`.
/// States are compared case-insensitively against the recognized labels.
pub open spec fn mode_matches(mode: FilterMode, state: Seq<char>) -> bool {
    match mode {
        FilterMode::Default => lower_seq(state) == "waiting"@ || lower_seq(state) == "running"@,
        FilterMode::Waiting => lower_seq(state) == "waiting"@,
        FilterMode::Running => lower_seq(state) == "running"@,
        FilterMode::Completed => lower_seq(state) == "completed"@,
        FilterMode::Aborted => lower_seq(state) == "aborted"@,
        FilterMode::All => true,
    }
}

/// The filtered view of a job list: the matching jobs, in source order.
pub open spec fn spec_filtered(jobs: Seq<JobView>, mode: FilterMode) -> Seq<JobView> {
    jobs.filter(|j: JobView| mode_matches(mode, j.state))
}

fn lower_char_exec(c: char) -> (r: char)
    ensures
        r == lower_char(c),
{
    match c {
        'A' => 'a',
        'B' => 'b',
        'C' => 'c',
        'D' => 'd',
        'E' => 'e',
        'F' => 'f',
        'G' => 'g',
        'H' => 'h',
        'I' => 'i',
        'J' => 'j',
        'K' => 'k',
        'L' => 'l',
        'M' => 'm',
        'N' => 'n',
        'O' => 'o',
        'P' => 'p',
        'Q' => 'q',
        'R' => 'r',
        'S' => 's',
        'T' => 't',
        'U' => 'u',
        'V' => 'v',
        'W' => 'w',
        'X' => 'x',
        'Y' => 'y',
        'Z' => 'z',
        _ => c,
    }
}

/// Whether `s`, lowered ASCII-wise, equals `t` exactly.
fn eq_lower(s: &str, t: &str) -> (r: bool)
    ensures
        r == (lower_seq(s@) == t@),
{
    let sn = s.unicode_len();
    let tn = t.unicode_len();
    if sn != tn {
        proof {
            assert(lower_seq(s@).len() == s@.len());
        }
        return false;
    }
    let mut i: usize = 0;
    while i < sn
        invariant
            i <= sn,
            sn == s@.len(),
            tn == t@.len(),
            sn == tn,
            forall|j: int| 0 <= j < i ==> lower_char(s@[j]) == t@[j],
        decreases sn - i,
    {
        let c = lower_char_exec(s.get_char(i));
        let d = t.get_char(i);
        if c != d {
            proof {
                assert(lower_seq(s@)[i as int] != t@[i as int]);
            }
            return false;
        }
        i += 1;
    }
    proof {
        assert(lower_seq(s@) =~= t@);
    }
    true
}

/// Whether the job's state label is visible under `mode`.
pub fn state_matches(mode: FilterMode, state: &str) -> (r: bool)
    ensures
        r == mode_matches(mode, state@),
{
    match mode {
        FilterMode::Default => {
            let w = eq_lower(state, "waiting");
            if w {
                true
            } else {
                eq_lower(state, "running")
            }
        },
        FilterMode::Waiting => eq_lower(state, "waiting"),
        FilterMode::Running => eq_lower(state, "running"),
        FilterMode::Completed => eq_lower(state, "completed"),
        FilterMode::Aborted => eq_lower(state, "aborted"),
        FilterMode::All => true,
    }
}

/// The ordered sub-list of jobs visible under `mode`. Re-evaluated on every
/// render tick; pure, order-preserving, no caching.
pub fn filter_jobs(jobs: &Vec<Job>, mode: FilterMode) -> (r: Vec<Job>)
    ensures
        crate::jobs::job_views(r@) == spec_filtered(crate::jobs::job_views(jobs@), mode),
{
    let ghost views = crate::jobs::job_views(jobs@);
    let mut r: Vec<Job> = Vec::new();
    let mut i: usize = 0;
    while i < jobs.len()
        invariant
            i <= jobs.len(),
            views == crate::jobs::job_views(jobs@),
            views.len() == jobs@.len(),
            crate::jobs::job_views(r@) == spec_filtered(views.take(i as int), mode),
        decreases jobs.len() - i,
    {
        let ghost prev = crate::jobs::job_views(r@);
        if state_matches(mode, job_state(&jobs[i])) {
            r.push(jobs[i].clone());
        }
        proof {
            assert(views.take(i + 1) =~= views.take(i as int) + seq![views[i as int]]);
            Seq::<JobView>::filter_distributes_over_add(
                views.take(i as int),
                seq![views[i as int]],
                |j: JobView| mode_matches(mode, j.state),
            );
            reveal_with_fuel(Seq::<_>::filter, 2);
            if mode_matches(mode, views[i as int].state) {
                assert(crate::jobs::job_views(r@) =~= prev + seq![views[i as int]]);
            } else {
                assert(crate::jobs::job_views(r@) =~= prev);
                assert(seq![views[i as int]].filter(|j: JobView| mode_matches(mode, j.state))
                    =~= Seq::<JobView>::empty());
            }
        }
        i += 1;
    }
    proof {
        assert(views.take(jobs@.len() as int) =~= views);
    }
    r
}

/// Borrow the state label of a job.
fn job_state(job: &Job) -> (r: &str)
    ensures
        r@ == job@.state,
{
    job.state.as_str()
}

/// Every job the filter lets through satisfies the mode's predicate, so a
/// second pass changes nothing: the filter engine is idempotent.
pub proof fn lemma_filter_idempotent(jobs: Seq<JobView>, mode: FilterMode)
    ensures
        spec_filtered(spec_filtered(jobs, mode), mode) == spec_filtered(jobs, mode),
{
    let pred = |j: JobView| mode_matches(mode, j.state);
    let once = jobs.filter(pred);
    assert forall|i: int| 0 <= i < once.len() implies pred(#[trigger] once[i]) by {
        jobs.lemma_filter_pred(pred, i);
    }
    lemma_filter_of_all_matching(once, pred);
}

/// Filtering a sequence whose members all satisfy the predicate returns it
/// unchanged.
proof fn lemma_filter_of_all_matching(s: Seq<JobView>, pred: spec_fn(JobView) -> bool)
    requires
        forall|i: int| 0 <= i < s.len() ==> pred(#[trigger] s[i]),
    ensures
        s.filter(pred) == s,
    decreases s.len(),
{
    reveal(Seq::filter);
    if s.len() == 0 {
        assert(s.filter(pred) =~= s);
    } else {
        lemma_filter_of_all_matching(s.drop_last(), pred);
        assert(pred(s.last()));
        assert(s.filter(pred) =~= s.drop_last().push(s.last()));
        assert(s.drop_last().push(s.last()) =~= s);
    }
}

} // verus!
