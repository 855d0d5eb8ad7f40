//! Decides whether a push event activates a workflow: the event's `ref` must
//! split into at least three `/`-separated segments, the second segment must
//! be `heads`, and the third segment (the branch name) must occur verbatim in
//! the workflow's push-trigger branch list.

use vstd::prelude::*;

use crate::text::{
    contains_string, lemma_split_join, lemma_split_no_sep, lemma_split_sep, spec_join, spec_split,
    split_string, views_of,
};
use crate::types::githubevent::GithubEvent;
use crate::types::workflow::GithubWorkflow;

verus! {

/// What the evaluator decides: the `ref` has at least three `/`-separated
/// segments, the second is `heads`, and the third occurs exactly (case
/// sensitive, no globbing) in the workflow's push-trigger branch list.
pub open spec fn spec_should_trigger(w: GithubWorkflow, e: GithubEvent) -> bool {
    let segs = spec_split(e.ref_@, '/');
    &&& segs.len() >= 3
    &&& segs[1] == "heads"@
    &&& match w.on.push {
        Some(p) => views_of(p.branches@).contains(segs[2]),
        None => false,
    }
}

/// The shape every push notification carries: a `ref` of the form
/// `refs/<kind>/<name...>`.
pub open spec fn spec_ref_well_formed(e: GithubEvent) -> bool {
    let segs = spec_split(e.ref_@, '/');
    &&& segs.len() >= 3
    &&& segs[0] == "refs"@
}

/// The `ref` lies under `refs/heads/`.
pub open spec fn spec_branch_push_ref(e: GithubEvent) -> bool {
    e.ref_@.len() >= 11 && e.ref_@.subrange(0, 11) == "refs/heads/"@
}

/// Pure, total evaluator: true iff the event's branch push activates the
/// workflow's push trigger.  The branch name is taken to be the single
/// segment after `heads`, so a branch whose own name contains `/` is not
/// reconstructed and can only match a trigger entry equal to its first
/// segment; that is a known limit of this format, kept rather than patched.
pub fn matches_workflow(workflow: &GithubWorkflow, github_event: &GithubEvent) -> (r: bool)
    ensures
        r == spec_should_trigger(*workflow, *github_event),
{
    let segs = split_string(github_event.ref_.as_str(), '/');
    if segs.len() < 3 {
        return false;
    }
    let heads: String = "heads".to_owned();
    if !segs[1].eq(&heads) {
        assert(views_of(segs@)[1] != "heads"@);
        return false;
    }
    assert(views_of(segs@)[1] == "heads"@);
    match &workflow.on.push {
        Some(p) => {
            let r = contains_string(&p.branches, &segs[2]);
            assert(views_of(segs@)[2] == spec_split(github_event.ref_@, '/')[2]);
            r
        },
        None => false,
    }
}

/// Same evaluator under the name the library has always exported.
pub fn should_trigger_workflow(workflow: GithubWorkflow, github_event: &GithubEvent) -> (r: bool)
    ensures
        r == spec_should_trigger(workflow, *github_event),
{
    matches_workflow(&workflow, github_event)
}

/// A push event whose `ref` does not lie under `refs/heads/` triggers no
/// workflow, whatever the workflow says.
pub proof fn lemma_non_branch_ref_never_triggers(w: GithubWorkflow, e: GithubEvent)
    requires
        spec_ref_well_formed(e),
        !spec_branch_push_ref(e),
    ensures
        !spec_should_trigger(w, e),
{
    if spec_should_trigger(w, e) {
        let segs = spec_split(e.ref_@, '/');
        lemma_split_join(e.ref_@, '/');
        let rest1 = segs.drop_first();
        assert(spec_join(segs, '/') == segs[0] + seq!['/'] + spec_join(rest1, '/'));
        assert(rest1.len() >= 2);
        assert(rest1[0] == segs[1]);
        assert(spec_join(rest1, '/') == rest1[0] + seq!['/'] + spec_join(rest1.drop_first(), '/'));
        let tail = spec_join(rest1.drop_first(), '/');
        reveal_strlit("refs");
        reveal_strlit("heads");
        reveal_strlit("refs/heads/");
        assert(e.ref_@ =~= "refs"@ + seq!['/'] + "heads"@ + seq!['/'] + tail);
        assert(e.ref_@.len() >= 11);
        assert(e.ref_@.subrange(0, 11) =~= "refs/heads/"@);
        assert(false);
    }
}

/// On an event for branch `b` (a single path segment), a workflow with a push
/// trigger matches iff `b` occurs in its branch list, by exact string
/// equality: no case folding, no prefix or glob matching.
pub proof fn lemma_branch_trigger_exact(w: GithubWorkflow, e: GithubEvent, b: Seq<char>)
    requires
        e.ref_@ == "refs/heads/"@ + b,
        !b.contains('/'),
        w.on.push is Some,
    ensures
        spec_should_trigger(w, e) <==> views_of(w.on.push->Some_0.branches@).contains(b),
{
    reveal_strlit("refs");
    reveal_strlit("heads");
    reveal_strlit("refs/heads/");
    assert(!"refs"@.contains('/')) by {
        if "refs"@.contains('/') {
            let i = choose|i: int| 0 <= i < "refs"@.len() && "refs"@[i] == '/';
        }
    }
    assert(!"heads"@.contains('/')) by {
        if "heads"@.contains('/') {
            let i = choose|i: int| 0 <= i < "heads"@.len() && "heads"@[i] == '/';
        }
    }
    assert(e.ref_@ =~= "refs"@ + seq!['/'] + ("heads"@ + seq!['/'] + b));
    lemma_split_sep("refs"@, "heads"@ + seq!['/'] + b, '/');
    lemma_split_sep("heads"@, b, '/');
    lemma_split_no_sep(b, '/');
    let segs = spec_split(e.ref_@, '/');
    assert(segs =~= seq!["refs"@, "heads"@, b]);
    assert(segs.len() == 3 && segs[1] == "heads"@ && segs[2] == b);
}

} // verus!
