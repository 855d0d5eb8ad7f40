//! Collects the reusable action repositories a workflow's steps reference:
//! every `uses` value, cut at its first `@` (the version qualifier is
//! deliberately discarded), deduplicated by exact string equality, in order
//! of first occurrence across the jobs.

use vstd::prelude::*;
use vstd::string::*;

use crate::text::{contains_string, lemma_split_no_sep, lemma_split_sep, spec_split, views_of};
use crate::types::workflow::{GithubWorkflow, GithubWorkflowJob, GithubWorkflowJobStep};

verus! {

/// The part of an action reference before its first `@`; the whole reference
/// when it has none.
pub open spec fn spec_base_of(s: Seq<char>) -> Seq<char> {
    spec_split(s, '@')[0]
}

/// The base an action step contributes; a step of the `run` form contributes
/// nothing.
pub open spec fn spec_step_uses(s: GithubWorkflowJobStep) -> Seq<Seq<char>> {
    match s.uses {
        Some(u) => seq![spec_base_of(u@)],
        None => Seq::<Seq<char>>::empty(),
    }
}

/// All bases referenced by a sequence of steps, in step order, duplicates kept.
pub open spec fn spec_steps_uses(steps: Seq<GithubWorkflowJobStep>) -> Seq<Seq<char>>
    decreases steps.len(),
{
    if steps.len() == 0 {
        Seq::<Seq<char>>::empty()
    } else {
        spec_steps_uses(steps.drop_last()) + spec_step_uses(steps.last())
    }
}

/// All bases referenced by a sequence of jobs, in job then step order,
/// duplicates kept.
pub open spec fn spec_jobs_uses(jobs: Seq<(String, GithubWorkflowJob)>) -> Seq<Seq<char>>
    decreases jobs.len(),
{
    if jobs.len() == 0 {
        Seq::<Seq<char>>::empty()
    } else {
        spec_jobs_uses(jobs.drop_last()) + spec_steps_uses(jobs.last().1.steps@)
    }
}

/// Keeps the first occurrence of every element, in order.
pub open spec fn spec_dedup(s: Seq<Seq<char>>) -> Seq<Seq<char>>
    decreases s.len(),
{
    if s.len() == 0 {
        Seq::<Seq<char>>::empty()
    } else {
        spec_dedup(s.drop_last()) + if s.drop_last().contains(s.last()) {
            Seq::<Seq<char>>::empty()
        } else {
            seq![s.last()]
        }
    }
}

/// What the resolver returns for a workflow.
pub open spec fn spec_collect(w: GithubWorkflow) -> Seq<Seq<char>> {
    spec_dedup(spec_jobs_uses(w.jobs@))
}

pub proof fn lemma_contains_concat<A>(a: Seq<A>, b: Seq<A>, x: A)
    ensures
        (a + b).contains(x) <==> a.contains(x) || b.contains(x),
{
    if (a + b).contains(x) {
        let i = choose|i: int| 0 <= i < (a + b).len() && (a + b)[i] == x;
        if i < a.len() {
            assert(a[i] == x);
        } else {
            assert(b[i - a.len()] == x);
        }
    }
    if a.contains(x) {
        let i = choose|i: int| 0 <= i < a.len() && a[i] == x;
        assert((a + b)[i] == x);
    }
    if b.contains(x) {
        let i = choose|i: int| 0 <= i < b.len() && b[i] == x;
        assert((a + b)[a.len() + i] == x);
    }
}

/// Deduplication keeps membership: an element occurs in the deduplicated
/// sequence iff it occurs in the raw one.
pub proof fn lemma_dedup_membership(s: Seq<Seq<char>>, x: Seq<char>)
    ensures
        spec_dedup(s).contains(x) <==> s.contains(x),
    decreases s.len(),
{
    if s.len() == 0 {
    } else {
        let dl = s.drop_last();
        lemma_dedup_membership(dl, x);
        let bit = if dl.contains(s.last()) {
            Seq::<Seq<char>>::empty()
        } else {
            seq![s.last()]
        };
        lemma_contains_concat(spec_dedup(dl), bit, x);
        assert(s =~= dl + seq![s.last()]);
        lemma_contains_concat(dl, seq![s.last()], x);
        assert(seq![s.last()].contains(x) <==> s.last() == x);
        assert(bit.contains(x) ==> s.last() == x);
    }
}

/// No element occurs twice after deduplication: two action references that
/// differ only in their version qualifier collapse to one entry.
pub proof fn lemma_dedup_no_duplicates(s: Seq<Seq<char>>)
    ensures
        forall|i: int, j: int|
            0 <= i < j < spec_dedup(s).len() ==> spec_dedup(s)[i] != spec_dedup(s)[j],
    decreases s.len(),
{
    if s.len() == 0 {
    } else {
        let dl = s.drop_last();
        lemma_dedup_no_duplicates(dl);
        if !dl.contains(s.last()) {
            assert forall|k: int| 0 <= k < spec_dedup(dl).len() implies spec_dedup(dl)[k]
                != s.last() by {
                assert(spec_dedup(dl).contains(spec_dedup(dl)[k]));
                lemma_dedup_membership(dl, spec_dedup(dl)[k]);
            }
            assert forall|i: int, j: int|
                0 <= i < j < spec_dedup(s).len() implies spec_dedup(s)[i] != spec_dedup(s)[j] by {
                if j < spec_dedup(dl).len() {
                    assert(spec_dedup(s)[i] == spec_dedup(dl)[i]);
                    assert(spec_dedup(s)[j] == spec_dedup(dl)[j]);
                } else {
                    assert(spec_dedup(s)[i] == spec_dedup(dl)[i]);
                    assert(spec_dedup(s)[j] == s.last());
                }
            }
        }
    }
}

/// The collected references of a workflow are exactly, as a set, the `uses`
/// bases of its steps; how often and where a base occurs does not show in the
/// result.
pub proof fn lemma_collect_set_semantics(w: GithubWorkflow, x: Seq<char>)
    ensures
        spec_collect(w).contains(x) <==> spec_jobs_uses(w.jobs@).contains(x),
{
    lemma_dedup_membership(spec_jobs_uses(w.jobs@), x);
}

/// A sequence already free of duplicates deduplicates to itself.
pub proof fn lemma_dedup_duplicate_free_identity(s: Seq<Seq<char>>)
    requires
        forall|i: int, j: int| 0 <= i < j < s.len() ==> s[i] != s[j],
    ensures
        spec_dedup(s) == s,
    decreases s.len(),
{
    if s.len() == 0 {
        assert(spec_dedup(s) =~= s);
    } else {
        let dl = s.drop_last();
        lemma_dedup_duplicate_free_identity(dl);
        assert(!dl.contains(s.last())) by {
            if dl.contains(s.last()) {
                let i = choose|i: int| 0 <= i < dl.len() && dl[i] == s.last();
                assert(s[i] == s[s.len() - 1]);
            }
        }
        assert(dl + seq![s.last()] =~= s);
    }
}

/// Deduplication is idempotent: collecting what was already collected changes
/// nothing.
pub proof fn lemma_dedup_idempotent(s: Seq<Seq<char>>)
    ensures
        spec_dedup(spec_dedup(s)) == spec_dedup(s),
{
    lemma_dedup_no_duplicates(s);
    lemma_dedup_duplicate_free_identity(spec_dedup(s));
}

/// The part of `u` before its first `@`, as `str::split` would hand it out.
pub fn base_of(u: &str) -> (r: String)
    ensures
        r@ == spec_base_of(u@),
{
    let n = u.unicode_len();
    let mut i: usize = 0;
    while i < n && u.get_char(i) != '@'
        invariant
            n == u@.len(),
            0 <= i <= n,
            forall|j: int| 0 <= j < i ==> u@[j] != '@',
        decreases n - i,
    {
        i = i + 1;
    }
    let prefix = u.substring_char(0, i);
    proof {
        assert(!prefix@.contains('@')) by {
            if prefix@.contains('@') {
                let k = choose|k: int| 0 <= k < prefix@.len() && prefix@[k] == '@';
                assert(u@[k] == '@');
            }
        }
        if i == n {
            assert(prefix@ =~= u@);
            lemma_split_no_sep(u@, '@');
        } else {
            assert(u@[i as int] == '@');
            assert(u@ =~= prefix@ + seq!['@'] + u@.subrange(i as int + 1, n as int));
            lemma_split_sep(prefix@, u@.subrange(i as int + 1, n as int), '@');
        }
    }
    prefix.to_owned()
}

/// Scans every step of every job and returns the distinct action bases in
/// order of first occurrence.  The result is a function of the workflow
/// alone, so repeated calls return the same vector.
pub fn collect_action_references(workflow: &GithubWorkflow) -> (r: Vec<String>)
    ensures
        views_of(r@) == spec_collect(*workflow),
{
    let mut r: Vec<String> = Vec::new();
    let mut ji: usize = 0;
    proof {
        assert(workflow.jobs@.take(0) =~= Seq::<(String, GithubWorkflowJob)>::empty());
        assert(views_of(r@) =~= spec_dedup(spec_jobs_uses(workflow.jobs@.take(0))));
    }
    while ji < workflow.jobs.len()
        invariant
            0 <= ji <= workflow.jobs@.len(),
            views_of(r@) == spec_dedup(spec_jobs_uses(workflow.jobs@.take(ji as int))),
        decreases workflow.jobs@.len() - ji,
    {
        let ghost jobs_prefix = spec_jobs_uses(workflow.jobs@.take(ji as int));
        let job = &workflow.jobs[ji].1;
        let mut si: usize = 0;
        proof {
            assert(job.steps@.take(0) =~= Seq::<GithubWorkflowJobStep>::empty());
            assert(jobs_prefix + spec_steps_uses(job.steps@.take(0)) =~= jobs_prefix);
        }
        while si < job.steps.len()
            invariant
                0 <= si <= job.steps@.len(),
                0 <= ji < workflow.jobs@.len(),
                job == &workflow.jobs@[ji as int].1,
                jobs_prefix == spec_jobs_uses(workflow.jobs@.take(ji as int)),
                views_of(r@) == spec_dedup(jobs_prefix + spec_steps_uses(job.steps@.take(si as int))),
            decreases job.steps@.len() - si,
        {
            let ghost pre = jobs_prefix + spec_steps_uses(job.steps@.take(si as int));
            let step = &job.steps[si];
            match &step.uses {
                Some(u) => {
                    let base = base_of(u.as_str());
                    let seen = contains_string(&r, &base);
                    proof {
                        lemma_dedup_membership(pre, base@);
                        assert((pre + seq![base@]).drop_last() =~= pre);
                        assert((pre + seq![base@]).last() == base@);
                    }
                    if !seen {
                        let ghost old_r = r@;
                        r.push(base);
                        proof {
                            assert(views_of(r@) =~= views_of(old_r) + seq![
                                spec_base_of(u@),
                            ]);
                        }
                    } else {
                        proof {
                            assert(spec_dedup(pre + seq![base@]) =~= spec_dedup(pre));
                        }
                    }
                    proof {
                        assert(spec_step_uses(job.steps@[si as int]) =~= seq![spec_base_of(u@)]);
                    }
                },
                None => {
                    proof {
                        assert(spec_step_uses(job.steps@[si as int])
                            =~= Seq::<Seq<char>>::empty());
                        assert(pre + spec_step_uses(job.steps@[si as int]) =~= pre);
                    }
                },
            }
            proof {
                let t1 = job.steps@.take(si as int + 1);
                assert(t1.drop_last() =~= job.steps@.take(si as int));
                assert(t1.last() == job.steps@[si as int]);
                assert(spec_steps_uses(t1) == spec_steps_uses(job.steps@.take(si as int))
                    + spec_step_uses(job.steps@[si as int]));
                assert(jobs_prefix + spec_steps_uses(t1) =~= pre + spec_step_uses(
                    job.steps@[si as int],
                ));
            }
            si = si + 1;
        }
        proof {
            assert(job.steps@.take(job.steps@.len() as int) =~= job.steps@);
            let t1 = workflow.jobs@.take(ji as int + 1);
            assert(t1.drop_last() =~= workflow.jobs@.take(ji as int));
            assert(t1.last() == workflow.jobs@[ji as int]);
            assert(spec_jobs_uses(t1) == jobs_prefix + spec_steps_uses(job.steps@));
        }
        ji = ji + 1;
    }
    proof {
        assert(workflow.jobs@.take(workflow.jobs@.len() as int) =~= workflow.jobs@);
    }
    r
}

} // verus!
