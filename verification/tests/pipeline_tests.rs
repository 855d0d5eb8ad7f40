// End-to-end behaviour of the event-to-job pipeline: trigger evaluation,
// action collection, script rendering, planning and dispatch classification,
// exercised on concrete events and workflows.

use ghwebhook::actions::collect_action_references;
use ghwebhook::config::{parse_u16, AppConfig};
use ghwebhook::dispatch::{build_submission_body, classify_submission, submission_url, DispatchOutcome};
use ghwebhook::errors::AppError;
use ghwebhook::pipeline::plan_event;
use ghwebhook::script::{render, Secrets, TranslationError};
use ghwebhook::text::{split_string, u64_to_string};
use ghwebhook::trigger::matches_workflow;
use ghwebhook::should_trigger_workflow;
use ghwebhook::types::githubevent::{
    Commit, CommitAuthor, CommitPusher, GithubEvent, Installation, Repository,
};
use ghwebhook::types::workflow::{
    GithubWorkflow, GithubWorkflowJob, GithubWorkflowJobStep, GithubWorkflowPushTrigger,
    GithubWorkflowTrigger,
};

fn sample_author() -> CommitAuthor {
    CommitAuthor {
        email: "dev@example.com".to_string(),
        name: "Dev".to_string(),
        username: "dev".to_string(),
    }
}

fn sample_commit() -> Commit {
    Commit {
        added: vec![],
        author: sample_author(),
        display_name: None,
        committer: sample_author(),
        distinct: true,
        id: "abc123".to_string(),
        message: "update".to_string(),
        modified: vec![],
        removed: vec![],
        timestamp: "2024-01-01T00:00:00Z".to_string(),
        tree_id: "def456".to_string(),
        url: "https://example.com/commit/abc123".to_string(),
    }
}

fn sample_event(ref_: &str) -> GithubEvent {
    GithubEvent {
        after: "abc123".to_string(),
        base_ref: None,
        before: None,
        commits: vec![sample_commit()],
        compare: "https://example.com/compare".to_string(),
        created: false,
        deleted: false,
        forced: false,
        head_commit: sample_commit(),
        installation: Installation { id: 7, node_id: "node7".to_string() },
        pusher: CommitPusher { email: "dev@example.com".to_string(), name: "Dev".to_string() },
        ref_: ref_.to_string(),
        repository: Repository {
            allow_forking: true,
            archive_url: String::new(),
            archived: false,
            assignees_url: String::new(),
            blobs_url: String::new(),
            branches_url: String::new(),
            clone_url: "https://example.com/acme/widget.git".to_string(),
            collaborators_url: String::new(),
            comments_url: String::new(),
            commits_url: String::new(),
            compare_url: String::new(),
            contents_url: String::new(),
            contributors_url: String::new(),
            created_at: 0,
            default_branch: "main".to_string(),
            deployments_url: String::new(),
            description: None,
            disabled: false,
            full_name: "acme/widget".to_string(),
            name: "widget".to_string(),
            master_branch: "main".to_string(),
        },
    }
}

fn run_step(name: Option<&str>, cmd: &str) -> GithubWorkflowJobStep {
    GithubWorkflowJobStep {
        name: name.map(|s| s.to_string()),
        run: Some(cmd.to_string()),
        uses: None,
        with: None,
        env: None,
    }
}

fn uses_step(
    name: Option<&str>,
    uses: &str,
    with: Option<Vec<(&str, &str)>>,
) -> GithubWorkflowJobStep {
    GithubWorkflowJobStep {
        name: name.map(|s| s.to_string()),
        run: None,
        uses: Some(uses.to_string()),
        with: with
            .map(|kvs| kvs.into_iter().map(|(k, v)| (k.to_string(), v.to_string())).collect()),
        env: None,
    }
}

fn malformed_step() -> GithubWorkflowJobStep {
    GithubWorkflowJobStep {
        name: Some("bad".to_string()),
        run: None,
        uses: None,
        with: None,
        env: None,
    }
}

fn job(runs_on: &str, steps: Vec<GithubWorkflowJobStep>) -> GithubWorkflowJob {
    GithubWorkflowJob { name: None, runs_on: runs_on.to_string(), steps }
}

fn workflow(branches: Vec<&str>, jobs: Vec<(&str, GithubWorkflowJob)>) -> GithubWorkflow {
    GithubWorkflow {
        name: Some("ci".to_string()),
        on: GithubWorkflowTrigger {
            push: Some(GithubWorkflowPushTrigger {
                branches: branches.into_iter().map(|b| b.to_string()).collect(),
            }),
        },
        jobs: jobs.into_iter().map(|(n, j)| (n.to_string(), j)).collect(),
    }
}

fn secrets() -> Secrets {
    Secrets { github_token: "tok123".to_string() }
}

// --- trigger evaluation ---

#[test]
fn tag_ref_matches_no_workflow() {
    let w = workflow(vec!["main", "v1"], vec![("build", job("small", vec![run_step(None, "echo hi")]))]);
    let e = sample_event("refs/tags/v1");
    assert!(!matches_workflow(&w, &e));
}

#[test]
fn branch_in_list_matches() {
    let w = workflow(vec!["main", "dev"], vec![("build", job("small", vec![run_step(None, "echo hi")]))]);
    assert!(matches_workflow(&w, &sample_event("refs/heads/main")));
    assert!(matches_workflow(&w, &sample_event("refs/heads/dev")));
    assert!(!matches_workflow(&w, &sample_event("refs/heads/other")));
}

#[test]
fn branch_match_is_case_sensitive_and_exact() {
    let w = workflow(vec!["Main"], vec![]);
    assert!(!matches_workflow(&w, &sample_event("refs/heads/main")));
    let prefix = workflow(vec!["mai"], vec![]);
    assert!(!matches_workflow(&prefix, &sample_event("refs/heads/main")));
    let glob = workflow(vec!["ma*"], vec![]);
    assert!(!matches_workflow(&glob, &sample_event("refs/heads/main")));
}

#[test]
fn workflow_without_push_trigger_never_matches() {
    let w = GithubWorkflow {
        name: None,
        on: GithubWorkflowTrigger { push: None },
        jobs: vec![],
    };
    assert!(!matches_workflow(&w, &sample_event("refs/heads/main")));
}

#[test]
fn empty_branch_list_never_matches() {
    let w = workflow(vec![], vec![]);
    assert!(!matches_workflow(&w, &sample_event("refs/heads/main")));
}

#[test]
fn short_ref_matches_nothing() {
    let w = workflow(vec!["main"], vec![]);
    assert!(!matches_workflow(&w, &sample_event("refs")));
    assert!(!matches_workflow(&w, &sample_event("refs/heads")));
    assert!(!should_trigger_workflow(workflow(vec!["main"], vec![]), &sample_event("refs/heads")));
}

#[test]
fn split_string_behaves_like_str_split() {
    let parts = split_string("refs/heads/main", '/');
    assert_eq!(parts, vec!["refs".to_string(), "heads".to_string(), "main".to_string()]);
    assert_eq!(split_string("a//b", '/'), vec!["a".to_string(), String::new(), "b".to_string()]);
    assert_eq!(split_string("", '/'), vec![String::new()]);
}

// --- action reference collection ---

#[test]
fn collect_drops_version_qualifier_and_deduplicates() {
    let w = workflow(
        vec!["main"],
        vec![(
            "build",
            job(
                "small",
                vec![
                    uses_step(None, "org/tool@v1", None),
                    uses_step(None, "org/tool@v2", None),
                    run_step(None, "make"),
                    uses_step(None, "other/act", None),
                ],
            ),
        )],
    );
    let refs = collect_action_references(&w);
    assert_eq!(refs, vec!["org/tool".to_string(), "other/act".to_string()]);
}

#[test]
fn collect_is_repeatable_and_spans_jobs_in_order() {
    let w = workflow(
        vec!["main"],
        vec![
            ("a", job("small", vec![uses_step(None, "one/first@v1", None)])),
            ("b", job("small", vec![uses_step(None, "two/second", None), uses_step(None, "one/first@v9", None)])),
        ],
    );
    let first = collect_action_references(&w);
    let second = collect_action_references(&w);
    assert_eq!(first, second);
    assert_eq!(first, vec!["one/first".to_string(), "two/second".to_string()]);
}

// --- script rendering ---

#[test]
fn render_is_deterministic() {
    let j = job("small", vec![run_step(Some("say hi"), "echo hi"), uses_step(None, "org/tool@v1", Some(vec![("token", "abc")]))]);
    let e = sample_event("refs/heads/main");
    let actions = vec!["org/tool".to_string()];
    let a = render(&j, &"build".to_string(), &e, &actions, &secrets()).unwrap();
    let b = render(&j, &"build".to_string(), &e, &actions, &secrets()).unwrap();
    assert_eq!(a.text, b.text);
    assert_eq!(a.job_name, b.job_name);
}

#[test]
fn script_sections_come_in_fixed_order() {
    let j = job("small", vec![run_step(Some("say hi"), "echo hi")]);
    let e = sample_event("refs/heads/main");
    let s = render(&j, &"build".to_string(), &e, &vec![], &secrets()).unwrap().text;
    let directives = s.find("#SBATCH --job-name=build").expect("directives");
    let workdir = s.find("export WORK_DIR=").expect("workspace");
    let cleanup = s.find("cleanup() {").expect("cleanup");
    let trap = s.find("trap cleanup EXIT").expect("trap");
    let staging = s.find("Setting up third party actions").expect("staging");
    let step = s.find("echo \"Running step: say hi\"").expect("step");
    assert!(directives < workdir);
    assert!(workdir < cleanup);
    assert!(cleanup < trap && trap < staging);
    assert!(staging < step);
    // teardown is registered via the exit handler, never emitted after steps
    assert!(s.rfind("rm -rf $WORK_DIR").unwrap() < step);
}

#[test]
fn render_embeds_partition_and_run_command() {
    let j = job("small", vec![run_step(None, "echo hi")]);
    let e = sample_event("refs/heads/main");
    let s = render(&j, &"build".to_string(), &e, &vec![], &secrets()).unwrap().text;
    assert!(s.contains("#SBATCH --partition=small"));
    assert!(s.contains("  bash -c \"echo hi\"\n"));
    assert!(s.contains("#SBATCH --output=widget_build_%j.log"));
    assert!(s.contains("GITHUB_REPOSITORY=acme/widget"));
    assert!(s.contains("GITHUB_REF=refs/heads/main"));
    assert!(s.contains("GITHUB_TOKEN=tok123,INPUT_TOKEN=tok123"));
}

#[test]
fn render_uses_step_invokes_staged_base_path() {
    let j = job("gpu", vec![uses_step(Some("fetch"), "org/tool@v1", Some(vec![("token", "abc")]))]);
    let e = sample_event("refs/heads/main");
    let actions = collect_action_references(&workflow(vec!["main"], vec![("deploy", j.clone())]));
    assert_eq!(actions, vec!["org/tool".to_string()]);
    let s = render(&j, &"deploy".to_string(), &e, &actions, &secrets()).unwrap().text;
    assert!(s.contains("INPUT_TOKEN=abc"));
    assert!(s.contains("/tmp/widget_deploy/actions_cache/org/tool/dist/index.js"));
    assert!(!s.contains("actions_cache/org/tool@v1"));
    assert!(s.contains("export REPOS=(\"org/tool\")"));
}

#[test]
fn render_uppercases_input_keys() {
    let j = job("small", vec![uses_step(None, "org/tool", Some(vec![("apiKey", "zzz")]))]);
    let e = sample_event("refs/heads/main");
    let s = render(&j, &"build".to_string(), &e, &vec!["org/tool".to_string()], &secrets())
        .unwrap()
        .text;
    assert!(s.contains("INPUT_APIKEY=zzz"));
}

#[test]
fn render_with_empty_inputs_keeps_the_separator() {
    let j = job("small", vec![uses_step(None, "org/tool", Some(vec![]))]);
    let e = sample_event("refs/heads/main");
    let s = render(&j, &"build".to_string(), &e, &vec!["org/tool".to_string()], &secrets())
        .unwrap()
        .text;
    assert!(s.contains("RUNNER_TEMP=/tmp,  /usr/bin/node"));
}

#[test]
fn step_with_both_forms_prefers_uses() {
    let mut step = uses_step(None, "org/tool", None);
    step.run = Some("echo shadowed".to_string());
    let j = job("small", vec![step]);
    let e = sample_event("refs/heads/main");
    let s = render(&j, &"build".to_string(), &e, &vec!["org/tool".to_string()], &secrets())
        .unwrap()
        .text;
    assert!(s.contains("/actions_cache/org/tool/dist/index.js"));
    assert!(!s.contains("bash -c \"echo shadowed\""));
}

#[test]
fn malformed_step_aborts_only_its_job() {
    let j = job("small", vec![run_step(None, "echo ok"), malformed_step(), run_step(None, "echo late")]);
    let e = sample_event("refs/heads/main");
    let r = render(&j, &"build".to_string(), &e, &vec![], &secrets());
    assert_eq!(r.unwrap_err(), TranslationError::MalformedStep(1));
}

// --- planning ---

#[test]
fn plan_event_renders_one_script_for_matching_workflow() {
    let w = workflow(vec!["main"], vec![("build", job("small", vec![run_step(None, "echo hi")]))]);
    let e = sample_event("refs/heads/main");
    let plan = plan_event(&e, &vec![w], &secrets());
    assert_eq!(plan.len(), 1);
    assert_eq!(plan[0].job_name, "build");
    assert!(plan[0].text.contains("#SBATCH --partition=small"));
    assert!(plan[0].text.contains("  bash -c \"echo hi\"\n"));
    let outcome = classify_submission(200, Some("job 42 queued".to_string()));
    assert_eq!(outcome, DispatchOutcome::Submitted("job 42 queued".to_string()));
}

#[test]
fn plan_event_on_other_branch_is_empty() {
    let w = workflow(vec!["main"], vec![("build", job("small", vec![run_step(None, "echo hi")]))]);
    let e = sample_event("refs/heads/dev");
    let plan = plan_event(&e, &vec![w], &secrets());
    assert_eq!(plan.len(), 0);
}

#[test]
fn plan_event_skips_malformed_job_keeps_siblings() {
    let w = workflow(
        vec!["main"],
        vec![
            ("bad", job("small", vec![malformed_step()])),
            ("good", job("small", vec![run_step(None, "echo ok")])),
        ],
    );
    let e = sample_event("refs/heads/main");
    let plan = plan_event(&e, &vec![w], &secrets());
    assert_eq!(plan.len(), 1);
    assert_eq!(plan[0].job_name, "good");
}

#[test]
fn plan_event_keeps_both_jobs_for_independent_dispatch() {
    let w = workflow(
        vec!["main"],
        vec![
            ("build", job("small", vec![run_step(None, "make build")])),
            ("test", job("small", vec![run_step(None, "make test")])),
        ],
    );
    let e = sample_event("refs/heads/main");
    let plan = plan_event(&e, &vec![w], &secrets());
    assert_eq!(plan.len(), 2);
    assert_eq!(plan[0].job_name, "build");
    assert_eq!(plan[1].job_name, "test");
    // the scheduler rejecting one job does not keep the next from submission
    let first = classify_submission(500, Some("boom".to_string()));
    assert!(matches!(first, DispatchOutcome::Rejected(_)));
    let second = classify_submission(200, Some("ok".to_string()));
    assert_eq!(second, DispatchOutcome::Submitted("ok".to_string()));
}

#[test]
fn plan_event_spans_multiple_workflows() {
    let w1 = workflow(vec!["main"], vec![("one", job("a", vec![run_step(None, "echo 1")]))]);
    let w2 = workflow(vec!["dev"], vec![("two", job("b", vec![run_step(None, "echo 2")]))]);
    let w3 = workflow(vec!["main"], vec![("three", job("c", vec![run_step(None, "echo 3")]))]);
    let e = sample_event("refs/heads/main");
    let plan = plan_event(&e, &vec![w1, w2, w3], &secrets());
    assert_eq!(plan.len(), 2);
    assert_eq!(plan[0].job_name, "one");
    assert_eq!(plan[1].job_name, "three");
}

// --- dispatch classification and request building ---

#[test]
fn classify_rejects_non_success_status() {
    let r = classify_submission(500, Some("body".to_string()));
    assert_eq!(r, DispatchOutcome::Rejected("scheduler returned status 500".to_string()));
    let r404 = classify_submission(404, None);
    assert_eq!(r404, DispatchOutcome::Rejected("scheduler returned status 404".to_string()));
}

#[test]
fn classify_success_without_body_is_transport_failure() {
    let r = classify_submission(204, None);
    assert_eq!(r, DispatchOutcome::TransportFailure("response body could not be read".to_string()));
}

#[test]
fn submission_url_names_host_port_and_endpoint() {
    let url = submission_url(&"sched.example".to_string(), 6820);
    assert_eq!(url, "http://sched.example:6820/slurm/v0.0.39/job/submit");
}

#[test]
fn submission_body_escapes_the_script() {
    let body = build_submission_body(&"echo \"hi\"\n".to_string());
    assert_eq!(
        body,
        "{\"job\":{\"script\":\"echo \\\"hi\\\"\\n\",\"environment\":[\"PATH=/usr/local/sbin:/usr/local/bin:/usr/sbin:/usr/bin:/sbin:/bin:/snap/bin\"],\"current_working_directory\":\"/home/slurm\"}}"
    );
}

#[test]
fn u64_rendering_is_plain_decimal() {
    assert_eq!(u64_to_string(0), "0");
    assert_eq!(u64_to_string(12345), "12345");
    assert_eq!(u64_to_string(u64::MAX), "18446744073709551615");
}

// --- configuration ---

#[test]
fn config_applies_bus_defaults() {
    let c = AppConfig::new(
        None,
        None,
        Some("tok".to_string()),
        Some("sched".to_string()),
        Some("6820".to_string()),
        Some("slurm".to_string()),
        Some("stok".to_string()),
    )
    .unwrap();
    assert_eq!(c.rabbitmq_host, "localhost");
    assert_eq!(c.rabbitmq_port, 5552);
    assert_eq!(c.slurmrestd_port, 6820);
    assert_eq!(c.github_token, "tok");
}

#[test]
fn config_keeps_explicit_values() {
    let c = AppConfig::new(
        Some("bus.example".to_string()),
        Some("5553".to_string()),
        Some("tok".to_string()),
        Some("sched".to_string()),
        Some("80".to_string()),
        Some("slurm".to_string()),
        Some("stok".to_string()),
    )
    .unwrap();
    assert_eq!(c.rabbitmq_host, "bus.example");
    assert_eq!(c.rabbitmq_port, 5553);
    assert_eq!(c.slurmrestd_port, 80);
}

#[test]
fn config_missing_required_value_is_a_config_error() {
    let r = AppConfig::new(
        None,
        None,
        None,
        Some("sched".to_string()),
        Some("6820".to_string()),
        Some("slurm".to_string()),
        Some("stok".to_string()),
    );
    match r {
        Err(e @ AppError::ConfigError(_)) => {
            assert!(e.message().starts_with("Error parsing configuration: "));
        },
        other => panic!("expected a configuration error, got {:?}", other),
    }
}

#[test]
fn config_rejects_bad_ports() {
    for bad in ["", "12a", "65536", "-1"] {
        let r = AppConfig::new(
            None,
            None,
            Some("tok".to_string()),
            Some("sched".to_string()),
            Some(bad.to_string()),
            Some("slurm".to_string()),
            Some("stok".to_string()),
        );
        assert!(r.is_err(), "port {:?} should be rejected", bad);
    }
}

#[test]
fn parse_u16_accepts_exactly_valid_ports() {
    assert_eq!(parse_u16("0"), Some(0));
    assert_eq!(parse_u16("8080"), Some(8080));
    assert_eq!(parse_u16("65535"), Some(65535));
    assert_eq!(parse_u16("65536"), None);
    assert_eq!(parse_u16(""), None);
    assert_eq!(parse_u16("1x"), None);
}

#[test]
fn error_messages_carry_their_prefix() {
    let e = AppError::GitCloneError("no such host".to_string());
    assert_eq!(e.message(), "Error cloning git repository: no such host");
    let t = AppError::TempDirCreationError("disk full".to_string());
    assert_eq!(t.message(), "Error creating temporary directory: disk full");
}
