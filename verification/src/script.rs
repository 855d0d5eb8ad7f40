//! Lowers one job definition, together with the event context and the
//! resolved action references, into a single self-contained batch script.
//!
//! The script has five sections in a fixed order: scheduler directives, the
//! workspace and action-cache declaration, a cleanup handler registered to
//! run on exit (teardown is never emitted after the steps), the one-time
//! action staging block, and one command block per step in original step
//! order.  Every interpolated value is inserted verbatim, with no quoting
//! pass; that mirrors the script format this scheduler deployment expects.

use vstd::prelude::*;
use vstd::string::*;

use crate::actions::spec_base_of;
use crate::actions::base_of;
use crate::text::{spec_upper, ascii_uppercase, views_of};
use crate::types::githubevent::GithubEvent;
use crate::types::workflow::{
    spec_job_ok, spec_step_ok, GithubWorkflowJob, GithubWorkflowJobStep,
};

verus! {

/// The secret material a rendered script embeds: the token the scheduler
/// host uses to fetch repositories and actions.
pub struct Secrets {
    pub github_token: String,
}

/// One rendered batch script, with the job identity it was generated for.
#[derive(Debug)]
pub struct RenderedScript {
    pub job_name: String,
    pub text: String,
}

/// The mathematical content of a rendered script.
pub struct ScriptView {
    pub job_name: Seq<char>,
    pub text: Seq<char>,
}

impl View for RenderedScript {
    type V = ScriptView;

    open spec fn view(&self) -> ScriptView {
        ScriptView { job_name: self.job_name@, text: self.text@ }
    }
}

/// Why a job could not be translated: the step at the carried index has
/// neither a `run` nor a `uses` form.
#[derive(Debug, Clone, Copy, PartialEq, Eq, Structural)]
pub enum TranslationError {
    MalformedStep(usize),
}

/// The plain values a render depends on; the rendered text is a function of
/// these and the step list alone.
pub struct RenderInputs {
    pub job_name: Seq<char>,
    pub runs_on: Seq<char>,
    pub repo_name: Seq<char>,
    pub repo_full_name: Seq<char>,
    pub git_ref: Seq<char>,
    pub token: Seq<char>,
    pub actions: Seq<Seq<char>>,
}

/// Section one: scheduler directives, keyed by repository and job name.
pub open spec fn spec_directives(c: RenderInputs) -> Seq<char> {
    "#!/bin/bash\n#SBATCH --job-name="@ + c.job_name + "\n#SBATCH --ntasks=1\n#SBATCH --partition="@
        + c.runs_on + "\n#SBATCH --nodes=1\n#SBATCH --output="@ + c.repo_name + "_"@ + c.job_name
        + "_%j.log\n#SBATCH --error="@ + c.repo_name + "_"@ + c.job_name
        + "_%j.err\n\nset -e\n\n"@
}

/// The staged action repositories as a shell array literal: each base quoted,
/// separated by single spaces.
pub open spec fn spec_actions_list(actions: Seq<Seq<char>>) -> Seq<char>
    decreases actions.len(),
{
    if actions.len() == 0 {
        Seq::<char>::empty()
    } else if actions.len() == 1 {
        "\""@ + actions[0] + "\""@
    } else {
        spec_actions_list(actions.drop_last()) + " \""@ + actions.last() + "\""@
    }
}

/// Section two: working directory and isolated action cache, namespaced by
/// repository and job name.
pub open spec fn spec_workspace(c: RenderInputs) -> Seq<char> {
    "export WORK_DIR=\"/tmp/"@ + c.repo_name + "_"@ + c.job_name
        + "_${SLURM_JOB_ID}\"\nexport REPOS=("@ + spec_actions_list(c.actions)
        + ")\nexport ACTIONS_CACHE_DIR=/tmp/"@ + c.repo_name + "_"@ + c.job_name
        + "/actions_cache\nexport NUM_TASKS=${#REPOS[@]}\nexport REPOS_STR=\"${REPOS[*]}\"\n\nsrun [ -d $WORK_DIR ] || mkdir -p $WORK_DIR\n\n"@
}

/// Section three: the cleanup handler, registered to run unconditionally on
/// exit; it removes the working directory and action cache and preserves the
/// script's exit code.
pub open spec fn spec_cleanup(c: RenderInputs) -> Seq<char> {
    "cleanup() {\n    local exit_code=$?\n    echo \"\"\n    echo \"Cleanup\"\n    cd /\n    rm -rf $WORK_DIR\n    rm -rf $ACTIONS_CACHE_DIR\n\n    echo \"\"\n    echo \"==========================================\"\n    echo \"Workflow completed at: $(date)\"\n    echo \"==========================================\"\n    exit $exit_code\n}\n\ntrap cleanup EXIT\n\n"@
}

/// Section four: the one-time staging block that clones every referenced
/// action into the cache, once per job however many steps reuse it.
pub open spec fn spec_staging(c: RenderInputs) -> Seq<char> {
    "echo \"Setting up third party actions\"\n\nsrun [ -d $ACTIONS_CACHE_DIR ] || mkdir -p $ACTIONS_CACHE_DIR\n\n# Setup third party actions\nsrun --ntasks=1  bash -c '\n    cd \"$ACTIONS_CACHE_DIR\"\n    IFS=\" \" read -r -a REPOS <<< \"$REPOS_STR\"\n\n    for i in \"${REPOS[@]}\"; do\n        echo \"Setting up third party action: $i\"\n\n        [ -d $i ] || mkdir -p $i\n        pushd $i\n\n        git clone \"https://github.com/$i\" .\n\n        echo \"Setup third party action: $i\"\n\n        popd\n    done\n'\n\n"@
}

/// The fixed execution environment every step command exports: workspace,
/// repository identity, ref, the token under its two compatibility names, a
/// restricted PATH and a scratch directory.
pub open spec fn spec_step_env(c: RenderInputs) -> Seq<char> {
    "srun --chdir=$WORK_DIR --export=GITHUB_WORKSPACE=$WORK_DIR,GITHUB_REPOSITORY="@
        + c.repo_full_name + ",GITHUB_REF="@ + c.git_ref + ",GITHUB_TOKEN="@ + c.token
        + ",INPUT_TOKEN="@ + c.token
        + ",PATH=\"/usr/local/sbin:/usr/local/bin:/usr/sbin:/usr/bin:/sbin:/bin:/snap/bin\",RUNNER_TEMP=/tmp"@
}

/// The `with` inputs of an action step as comma-separated `INPUT_<KEY>=value`
/// assignments, keys upper-cased, in input order.
pub open spec fn spec_inputs_list(with: Seq<(String, String)>) -> Seq<char>
    decreases with.len(),
{
    if with.len() == 0 {
        Seq::<char>::empty()
    } else if with.len() == 1 {
        "INPUT_"@ + spec_upper(with[0].0@) + "="@ + with[0].1@
    } else {
        spec_inputs_list(with.drop_last()) + ",INPUT_"@ + spec_upper(with.last().0@) + "="@
            + with.last().1@
    }
}

/// The command line of one step.  An action step invokes the staged entry
/// point of its base reference (the `@` qualifier is dropped); a run step
/// hands the literal command text to a shell.  When both forms are present
/// the `uses` form is preferred.
pub open spec fn spec_step_command(s: GithubWorkflowJobStep, c: RenderInputs) -> Seq<char> {
    match s.uses {
        Some(u) => spec_step_env(c) + (match s.with {
            Some(w) => ","@ + spec_inputs_list(w@),
            None => Seq::<char>::empty(),
        }) + "  /usr/bin/node /tmp/"@ + c.repo_name + "_"@ + c.job_name + "/actions_cache/"@
            + spec_base_of(u@) + "/dist/index.js\n"@,
        None => match s.run {
            Some(cmd) => spec_step_env(c) + "  bash -c \""@ + cmd@ + "\"\n"@,
            None => Seq::<char>::empty(),
        },
    }
}

/// One step's block: an echo naming the step, then its command.
pub open spec fn spec_step_block(s: GithubWorkflowJobStep, c: RenderInputs) -> Seq<char> {
    "\necho \"Running step: "@ + (match s.name {
        Some(n) => n@,
        None => Seq::<char>::empty(),
    }) + "\"\n"@ + spec_step_command(s, c)
}

/// Section five: the step blocks, in original step order.
pub open spec fn spec_steps_blocks(steps: Seq<GithubWorkflowJobStep>, c: RenderInputs) -> Seq<char>
    decreases steps.len(),
{
    if steps.len() == 0 {
        Seq::<char>::empty()
    } else {
        spec_steps_blocks(steps.drop_last(), c) + spec_step_block(steps.last(), c)
    }
}

/// The whole script: the five sections in their fixed order.
pub open spec fn spec_render(steps: Seq<GithubWorkflowJobStep>, c: RenderInputs) -> Seq<char> {
    spec_directives(c) + spec_workspace(c) + spec_cleanup(c) + spec_staging(c)
        + spec_steps_blocks(steps, c)
}

/// Sections keep their order in every rendered script: directives come first,
/// then the workspace declaration, then the cleanup registration, then action
/// staging, then all step blocks; no teardown text follows the steps, since
/// teardown runs through the registered exit handler.
pub proof fn lemma_script_section_order(steps: Seq<GithubWorkflowJobStep>, c: RenderInputs)
    ensures
        spec_render(steps, c) == spec_directives(c) + spec_workspace(c) + spec_cleanup(c)
            + spec_staging(c) + spec_steps_blocks(steps, c),
{
}

/// Rendering is deterministic: the text is a function of the step list and
/// the plain render inputs alone, so byte-identical inputs give
/// byte-identical scripts.
pub proof fn lemma_render_deterministic(
    steps1: Seq<GithubWorkflowJobStep>,
    c1: RenderInputs,
    steps2: Seq<GithubWorkflowJobStep>,
    c2: RenderInputs,
)
    requires
        steps1 == steps2,
        c1 == c2,
    ensures
        spec_render(steps1, c1) == spec_render(steps2, c2),
{
}

/// The render inputs a job and an event give rise to.
pub open spec fn spec_inputs_of(
    job: GithubWorkflowJob,
    job_name: Seq<char>,
    e: GithubEvent,
    token: Seq<char>,
    actions: Seq<Seq<char>>,
) -> RenderInputs {
    RenderInputs {
        job_name: job_name,
        runs_on: job.runs_on@,
        repo_name: e.repository.name@,
        repo_full_name: e.repository.full_name@,
        git_ref: e.ref_@,
        token: token,
        actions: actions,
    }
}

fn render_actions_list(actions: &Vec<String>) -> (r: String)
    ensures
        r@ == spec_actions_list(views_of(actions@)),
{
    let ghost av = views_of(actions@);
    let mut r = String::new();
    let mut i: usize = 0;
    proof {
        assert(av.take(0) =~= Seq::<Seq<char>>::empty());
        assert(r@ =~= spec_actions_list(av.take(0)));
    }
    while i < actions.len()
        invariant
            0 <= i <= actions@.len(),
            av == views_of(actions@),
            r@ == spec_actions_list(av.take(i as int)),
        decreases actions@.len() - i,
    {
        if i == 0 {
            r.append("\"");
            r.append(actions[0].as_str());
            r.append("\"");
            proof {
                assert(av.take(1).len() == 1);
                assert(av.take(1)[0] == av[0]);
                assert(r@ =~= spec_actions_list(av.take(1)));
            }
        } else {
            r.append(" \"");
            r.append(actions[i].as_str());
            r.append("\"");
            proof {
                let t = av.take(i as int + 1);
                assert(t.drop_last() =~= av.take(i as int));
                assert(t.last() == av[i as int]);
                assert(t.len() >= 2);
                assert(r@ =~= spec_actions_list(t));
            }
        }
        i = i + 1;
    }
    proof {
        assert(av.take(av.len() as int) =~= av);
    }
    r
}

fn render_inputs_list(with: &Vec<(String, String)>) -> (r: String)
    ensures
        r@ == spec_inputs_list(with@),
{
    let mut r = String::new();
    let mut i: usize = 0;
    proof {
        assert(with@.take(0) =~= Seq::<(String, String)>::empty());
        assert(r@ =~= spec_inputs_list(with@.take(0)));
    }
    while i < with.len()
        invariant
            0 <= i <= with@.len(),
            r@ == spec_inputs_list(with@.take(i as int)),
        decreases with@.len() - i,
    {
        if i == 0 {
            r.append("INPUT_");
        } else {
            r.append(",INPUT_");
        }
        let upper = ascii_uppercase(with[i].0.as_str());
        r.append(upper.as_str());
        r.append("=");
        r.append(with[i].1.as_str());
        proof {
            let t = with@.take(i as int + 1);
            assert(t.last() == with@[i as int]);
            if i == 0 {
                assert(t.len() == 1);
                assert(t[0] == with@[0]);
                assert(r@ =~= spec_inputs_list(t));
            } else {
                assert(t.drop_last() =~= with@.take(i as int));
                assert(t.len() >= 2);
                assert(r@ =~= spec_inputs_list(t));
            }
        }
        i = i + 1;
    }
    proof {
        assert(with@.take(with@.len() as int) =~= with@);
    }
    r
}

fn append_step_env(s: &mut String, event: &GithubEvent, secrets: &Secrets, Ghost(c): Ghost<RenderInputs>)
    requires
        c.repo_full_name == event.repository.full_name@,
        c.git_ref == event.ref_@,
        c.token == secrets.github_token@,
    ensures
        final(s)@ == old(s)@ + spec_step_env(c),
{
    s.append("srun --chdir=$WORK_DIR --export=GITHUB_WORKSPACE=$WORK_DIR,GITHUB_REPOSITORY=");
    s.append(event.repository.full_name.as_str());
    s.append(",GITHUB_REF=");
    s.append(event.ref_.as_str());
    s.append(",GITHUB_TOKEN=");
    s.append(secrets.github_token.as_str());
    s.append(",INPUT_TOKEN=");
    s.append(secrets.github_token.as_str());
    s.append(",PATH=\"/usr/local/sbin:/usr/local/bin:/usr/sbin:/usr/bin:/sbin:/bin:/snap/bin\",RUNNER_TEMP=/tmp");
    proof {
        assert(s@ =~= old(s)@ + spec_step_env(c));
    }
}

/// Lowers one job into a batch script.  Succeeds iff every step is well
/// formed; a malformed step abandons the whole job and reports the first
/// offending index, leaving no partially rendered script behind.
#[verifier::rlimit(100)]
#[verifier::spinoff_prover]
pub fn render(
    job: &GithubWorkflowJob,
    job_name: &String,
    event: &GithubEvent,
    actions: &Vec<String>,
    secrets: &Secrets,
) -> (r: Result<RenderedScript, TranslationError>)
    ensures
        r is Ok <==> spec_job_ok(*job),
        r matches Ok(rs) ==> rs@.job_name == job_name@ && rs@.text == spec_render(
            job.steps@,
            spec_inputs_of(*job, job_name@, *event, secrets.github_token@, views_of(actions@)),
        ),
        r matches Err(TranslationError::MalformedStep(k)) ==> 0 <= k < job.steps@.len()
            && !spec_step_ok(job.steps@[k as int]) && (forall|j: int|
            0 <= j < k ==> spec_step_ok(#[trigger] job.steps@[j])),
{
    let ghost c = spec_inputs_of(
        *job,
        job_name@,
        *event,
        secrets.github_token@,
        views_of(actions@),
    );
    let mut s: String = "#!/bin/bash\n#SBATCH --job-name=".to_owned();
    s.append(job_name.as_str());
    s.append("\n#SBATCH --ntasks=1\n#SBATCH --partition=");
    s.append(job.runs_on.as_str());
    s.append("\n#SBATCH --nodes=1\n#SBATCH --output=");
    s.append(event.repository.name.as_str());
    s.append("_");
    s.append(job_name.as_str());
    s.append("_%j.log\n#SBATCH --error=");
    s.append(event.repository.name.as_str());
    s.append("_");
    s.append(job_name.as_str());
    s.append("_%j.err\n\nset -e\n\n");
    proof {
        assert(s@ =~= spec_directives(c));
    }

    s.append("export WORK_DIR=\"/tmp/");
    s.append(event.repository.name.as_str());
    s.append("_");
    s.append(job_name.as_str());
    s.append("_${SLURM_JOB_ID}\"\nexport REPOS=(");
    let alist = render_actions_list(actions);
    s.append(alist.as_str());
    s.append(")\nexport ACTIONS_CACHE_DIR=/tmp/");
    s.append(event.repository.name.as_str());
    s.append("_");
    s.append(job_name.as_str());
    s.append("/actions_cache\nexport NUM_TASKS=${#REPOS[@]}\nexport REPOS_STR=\"${REPOS[*]}\"\n\nsrun [ -d $WORK_DIR ] || mkdir -p $WORK_DIR\n\n");
    proof {
        assert(s@ =~= spec_directives(c) + spec_workspace(c));
    }

    s.append("cleanup() {\n    local exit_code=$?\n    echo \"\"\n    echo \"Cleanup\"\n    cd /\n    rm -rf $WORK_DIR\n    rm -rf $ACTIONS_CACHE_DIR\n\n    echo \"\"\n    echo \"==========================================\"\n    echo \"Workflow completed at: $(date)\"\n    echo \"==========================================\"\n    exit $exit_code\n}\n\ntrap cleanup EXIT\n\n");
    s.append("echo \"Setting up third party actions\"\n\nsrun [ -d $ACTIONS_CACHE_DIR ] || mkdir -p $ACTIONS_CACHE_DIR\n\n# Setup third party actions\nsrun --ntasks=1  bash -c '\n    cd \"$ACTIONS_CACHE_DIR\"\n    IFS=\" \" read -r -a REPOS <<< \"$REPOS_STR\"\n\n    for i in \"${REPOS[@]}\"; do\n        echo \"Setting up third party action: $i\"\n\n        [ -d $i ] || mkdir -p $i\n        pushd $i\n\n        git clone \"https://github.com/$i\" .\n\n        echo \"Setup third party action: $i\"\n\n        popd\n    done\n'\n\n");
    let ghost header = spec_directives(c) + spec_workspace(c) + spec_cleanup(c) + spec_staging(c);
    proof {
        assert(s@ =~= header);
        assert(job.steps@.take(0) =~= Seq::<GithubWorkflowJobStep>::empty());
        assert(s@ =~= header + spec_steps_blocks(job.steps@.take(0), c));
    }

    let mut i: usize = 0;
    while i < job.steps.len()
        invariant
            0 <= i <= job.steps@.len(),
            header == spec_directives(c) + spec_workspace(c) + spec_cleanup(c) + spec_staging(c),
            c.repo_full_name == event.repository.full_name@,
            c.git_ref == event.ref_@,
            c.token == secrets.github_token@,
            c.repo_name == event.repository.name@,
            c.job_name == job_name@,
            s@ == header + spec_steps_blocks(job.steps@.take(i as int), c),
            forall|j: int| 0 <= j < i ==> spec_step_ok(#[trigger] job.steps@[j]),
        decreases job.steps@.len() - i,
    {
        let step = &job.steps[i];
        if step.uses.is_none() && step.run.is_none() {
            return Err(TranslationError::MalformedStep(i));
        }
        let ghost before = s@;
        s.append("\necho \"Running step: ");
        match &step.name {
            Some(n) => {
                s.append(n.as_str());
            },
            None => {},
        }
        s.append("\"\n");
        let ghost echo_done = s@;
        proof {
            assert(echo_done =~= before + ("\necho \"Running step: "@ + (match step.name {
                Some(n) => n@,
                None => Seq::<char>::empty(),
            }) + "\"\n"@));
        }
        match &step.uses {
            Some(u) => {
                append_step_env(&mut s, event, secrets, Ghost(c));
                match &step.with {
                    Some(w) => {
                        s.append(",");
                        let inputs = render_inputs_list(w);
                        s.append(inputs.as_str());
                    },
                    None => {},
                }
                s.append("  /usr/bin/node /tmp/");
                s.append(event.repository.name.as_str());
                s.append("_");
                s.append(job_name.as_str());
                s.append("/actions_cache/");
                let base = base_of(u.as_str());
                s.append(base.as_str());
                s.append("/dist/index.js\n");
                proof {
                    assert(s@ =~= echo_done + spec_step_command(job.steps@[i as int], c));
                }
            },
            None => {
                match &step.run {
                    Some(cmd) => {
                        append_step_env(&mut s, event, secrets, Ghost(c));
                        s.append("  bash -c \"");
                        s.append(cmd.as_str());
                        s.append("\"\n");
                        proof {
                            assert(s@ =~= echo_done + spec_step_command(job.steps@[i as int], c));
                        }
                    },
                    None => {
                        proof {
                            assert(false);
                        }
                    },
                }
            },
        }
        proof {
            let t = job.steps@.take(i as int + 1);
            assert(t.drop_last() =~= job.steps@.take(i as int));
            assert(t.last() == job.steps@[i as int]);
            assert(s@ =~= header + spec_steps_blocks(t, c));
        }
        i = i + 1;
    }
    proof {
        assert(job.steps@.take(job.steps@.len() as int) =~= job.steps@);
    }
    Ok(RenderedScript { job_name: job_name.clone(), text: s })
}

} // verus!
