//! The shape of one parsed workflow definition: a push trigger over branch
//! names, and named jobs made of ordered steps.
//!
//! Jobs are kept as a vector of (name, job) pairs in file order, so that
//! rendering is deterministic; names are unique in a well-formed file.
//! A step carries either a literal command (`run`) or a reference to a
//! reusable action (`uses`); a step with neither is malformed and aborts the
//! translation of its enclosing job only.

use vstd::prelude::*;

verus! {

#[derive(Clone, Debug)]
pub struct GithubWorkflow {
    pub name: Option<String>,
    pub on: GithubWorkflowTrigger,
    pub jobs: Vec<(String, GithubWorkflowJob)>,
}

#[derive(Clone, Debug)]
pub struct GithubWorkflowTrigger {
    pub push: Option<GithubWorkflowPushTrigger>,
}

#[derive(Clone, Debug)]
pub struct GithubWorkflowPushTrigger {
    pub branches: Vec<String>,
}

#[derive(Clone, Debug)]
pub struct GithubWorkflowJob {
    pub name: Option<String>,
    pub runs_on: String,
    pub steps: Vec<GithubWorkflowJobStep>,
}

#[derive(Clone, Debug)]
pub struct GithubWorkflowJobStep {
    pub name: Option<String>,
    pub run: Option<String>,
    pub uses: Option<String>,
    pub with: Option<Vec<(String, String)>>,
    pub env: Option<Vec<(String, String)>>,
}

/// The invariant the source format guarantees for every parsed workflow: job
/// names are unique within it, so a name identifies its job.
pub open spec fn spec_job_names_unique(w: GithubWorkflow) -> bool {
    forall|i: int, j: int|
        0 <= i < j < w.jobs@.len() ==> (#[trigger] w.jobs@[i]).0@ != (#[trigger] w.jobs@[j]).0@
}

/// A step is well formed when at least one of its two forms is present.
/// When both are present the `uses` form is preferred.
pub open spec fn spec_step_ok(s: GithubWorkflowJobStep) -> bool {
    s.uses is Some || s.run is Some
}

/// A job is translatable when every one of its steps is well formed.
pub open spec fn spec_job_ok(j: GithubWorkflowJob) -> bool {
    forall|i: int| 0 <= i < j.steps@.len() ==> spec_step_ok(#[trigger] j.steps@[i])
}

} // verus!
