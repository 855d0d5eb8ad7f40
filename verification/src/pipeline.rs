//! Plans the work for one consumed push event: of the parsed workflows, those
//! whose push trigger the event activates contribute one script per
//! translatable job, in workflow then job order.  A job whose translation
//! fails is skipped; its siblings are unaffected.  An event that matches no
//! workflow yields an empty plan, which is a normal outcome.  Submitting the
//! planned scripts and classifying each answer happens one script at a time,
//! and no outcome stops the rest of the plan.

use vstd::prelude::*;

use crate::actions::{collect_action_references, spec_collect};
use crate::script::{
    render, spec_inputs_of, spec_render, RenderedScript, ScriptView, Secrets,
};
use crate::text::views_of;
use crate::trigger::{matches_workflow, spec_should_trigger};
use crate::types::githubevent::GithubEvent;
use crate::types::workflow::{spec_job_ok, GithubWorkflow, GithubWorkflowJob};

verus! {

/// The views of a vector of rendered scripts.
pub open spec fn spec_script_views(v: Seq<RenderedScript>) -> Seq<ScriptView> {
    v.map_values(|x: RenderedScript| x@)
}

/// What one named job contributes to the plan: its rendered script where
/// every step is well formed, nothing otherwise.
pub open spec fn spec_job_scripts(
    entry: (String, GithubWorkflowJob),
    e: GithubEvent,
    token: Seq<char>,
    actions: Seq<Seq<char>>,
) -> Seq<ScriptView> {
    if spec_job_ok(entry.1) {
        seq![
            ScriptView {
                job_name: entry.0@,
                text: spec_render(
                    entry.1.steps@,
                    spec_inputs_of(entry.1, entry.0@, e, token, actions),
                ),
            },
        ]
    } else {
        Seq::<ScriptView>::empty()
    }
}

/// The scripts of a job sequence, in job order.
pub open spec fn spec_jobs_scripts(
    jobs: Seq<(String, GithubWorkflowJob)>,
    e: GithubEvent,
    token: Seq<char>,
    actions: Seq<Seq<char>>,
) -> Seq<ScriptView>
    decreases jobs.len(),
{
    if jobs.len() == 0 {
        Seq::<ScriptView>::empty()
    } else {
        spec_jobs_scripts(jobs.drop_last(), e, token, actions) + spec_job_scripts(
            jobs.last(),
            e,
            token,
            actions,
        )
    }
}

/// What one workflow contributes: one script per translatable job where the
/// event activates its push trigger, nothing otherwise.
pub open spec fn spec_workflow_scripts(
    w: GithubWorkflow,
    e: GithubEvent,
    token: Seq<char>,
) -> Seq<ScriptView> {
    if spec_should_trigger(w, e) {
        spec_jobs_scripts(w.jobs@, e, token, spec_collect(w))
    } else {
        Seq::<ScriptView>::empty()
    }
}

/// The whole plan for one event, over the parsed workflows in order.
pub open spec fn spec_plan(
    ws: Seq<GithubWorkflow>,
    e: GithubEvent,
    token: Seq<char>,
) -> Seq<ScriptView>
    decreases ws.len(),
{
    if ws.len() == 0 {
        Seq::<ScriptView>::empty()
    } else {
        spec_plan(ws.drop_last(), e, token) + spec_workflow_scripts(ws.last(), e, token)
    }
}

/// A malformed job is isolated: it contributes no script, and dropping it
/// from the job list leaves every sibling's script exactly as it was.
pub proof fn lemma_malformed_job_isolated(
    jobs: Seq<(String, GithubWorkflowJob)>,
    e: GithubEvent,
    token: Seq<char>,
    actions: Seq<Seq<char>>,
    k: int,
)
    requires
        0 <= k < jobs.len(),
        !spec_job_ok(jobs[k].1),
    ensures
        spec_jobs_scripts(jobs.remove(k), e, token, actions) == spec_jobs_scripts(
            jobs,
            e,
            token,
            actions,
        ),
    decreases jobs.len(),
{
    if k == jobs.len() - 1 {
        assert(jobs.remove(k) =~= jobs.drop_last());
        assert(spec_job_scripts(jobs.last(), e, token, actions) =~= Seq::<ScriptView>::empty());
        assert(spec_jobs_scripts(jobs.drop_last(), e, token, actions) + Seq::<ScriptView>::empty()
            =~= spec_jobs_scripts(jobs.drop_last(), e, token, actions));
    } else {
        lemma_malformed_job_isolated(jobs.drop_last(), e, token, actions, k);
        assert(jobs.remove(k).drop_last() =~= jobs.drop_last().remove(k));
        assert(jobs.remove(k).last() == jobs.last());
    }
}

/// Builds the plan for one event: for every workflow the event triggers, the
/// script of every translatable job, in order.  Jobs that fail translation
/// are skipped, siblings still render; an empty result is a normal outcome.
pub fn plan_event(
    event: &GithubEvent,
    workflows: &Vec<GithubWorkflow>,
    secrets: &Secrets,
) -> (r: Vec<RenderedScript>)
    ensures
        spec_script_views(r@) == spec_plan(workflows@, *event, secrets.github_token@),
{
    let mut r: Vec<RenderedScript> = Vec::new();
    let mut wi: usize = 0;
    proof {
        assert(workflows@.take(0) =~= Seq::<GithubWorkflow>::empty());
        assert(spec_script_views(r@) =~= spec_plan(workflows@.take(0), *event, secrets.github_token@));
    }
    while wi < workflows.len()
        invariant
            0 <= wi <= workflows@.len(),
            spec_script_views(r@) == spec_plan(
                workflows@.take(wi as int),
                *event,
                secrets.github_token@,
            ),
        decreases workflows@.len() - wi,
    {
        let ghost done = spec_plan(workflows@.take(wi as int), *event, secrets.github_token@);
        let w = &workflows[wi];
        if matches_workflow(w, event) {
            let actions = collect_action_references(w);
            let mut ji: usize = 0;
            proof {
                assert(w.jobs@.take(0) =~= Seq::<(String, GithubWorkflowJob)>::empty());
                assert(spec_script_views(r@) =~= done + spec_jobs_scripts(
                    w.jobs@.take(0),
                    *event,
                    secrets.github_token@,
                    spec_collect(*w),
                ));
            }
            while ji < w.jobs.len()
                invariant
                    0 <= ji <= w.jobs@.len(),
                    0 <= wi < workflows@.len(),
                    w == &workflows@[wi as int],
                    views_of(actions@) == spec_collect(*w),
                    done == spec_plan(workflows@.take(wi as int), *event, secrets.github_token@),
                    spec_script_views(r@) == done + spec_jobs_scripts(
                        w.jobs@.take(ji as int),
                        *event,
                        secrets.github_token@,
                        spec_collect(*w),
                    ),
                decreases w.jobs@.len() - ji,
            {
                let entry = &w.jobs[ji];
                let ghost old_r = r@;
                match render(&entry.1, &entry.0, event, &actions, secrets) {
                    Ok(rs) => {
                        proof {
                            assert(rs@.text == spec_render(
                                entry.1.steps@,
                                spec_inputs_of(
                                    entry.1,
                                    entry.0@,
                                    *event,
                                    secrets.github_token@,
                                    spec_collect(*w),
                                ),
                            ));
                        }
                        r.push(rs);
                        proof {
                            assert(spec_script_views(r@) =~= spec_script_views(old_r)
                                + spec_job_scripts(
                                w.jobs@[ji as int],
                                *event,
                                secrets.github_token@,
                                spec_collect(*w),
                            ));
                        }
                    },
                    Err(_) => {
                        proof {
                            assert(spec_job_scripts(
                                w.jobs@[ji as int],
                                *event,
                                secrets.github_token@,
                                spec_collect(*w),
                            ) =~= Seq::<ScriptView>::empty());
                            assert(spec_script_views(r@) =~= spec_script_views(old_r)
                                + spec_job_scripts(
                                w.jobs@[ji as int],
                                *event,
                                secrets.github_token@,
                                spec_collect(*w),
                            ));
                        }
                    },
                }
                proof {
                    let t = w.jobs@.take(ji as int + 1);
                    assert(t.drop_last() =~= w.jobs@.take(ji as int));
                    assert(t.last() == w.jobs@[ji as int]);
                    assert(spec_script_views(r@) =~= done + spec_jobs_scripts(
                        t,
                        *event,
                        secrets.github_token@,
                        spec_collect(*w),
                    ));
                }
                ji = ji + 1;
            }
            proof {
                assert(w.jobs@.take(w.jobs@.len() as int) =~= w.jobs@);
            }
        }
        proof {
            let t = workflows@.take(wi as int + 1);
            assert(t.drop_last() =~= workflows@.take(wi as int));
            assert(t.last() == workflows@[wi as int]);
            if !spec_should_trigger(workflows@[wi as int], *event) {
                assert(spec_script_views(r@) =~= done + spec_workflow_scripts(
                    workflows@[wi as int],
                    *event,
                    secrets.github_token@,
                ));
            }
            assert(spec_script_views(r@) =~= spec_plan(t, *event, secrets.github_token@));
        }
        wi = wi + 1;
    }
    proof {
        assert(workflows@.take(workflows@.len() as int) =~= workflows@);
    }
    r
}

} // verus!
