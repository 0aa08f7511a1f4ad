use gpm::command::{create_worktree_plan, delete_repo_plan, delete_worktree_plan, plain_repo_plan,
    worktree_repo_plan, CmdSpec, OrchPlan, OrchStep, StepOutcome};

fn run_cmd(step: &OrchStep) -> (&str, &CmdSpec) {
    match step {
        OrchStep::Run { desc, cmd } => (desc.as_str(), cmd),
        OrchStep::WriteFile { .. } => panic!("expected a command step"),
    }
}

fn ok_outcome() -> StepOutcome {
    StepOutcome::Completed { exit_success: true, stdout: vec![], stderr: vec![] }
}

fn failed_outcome(stdout: &[u8], stderr: &[u8]) -> StepOutcome {
    StepOutcome::Completed {
        exit_success: false,
        stdout: stdout.to_vec(),
        stderr: stderr.to_vec(),
    }
}

#[test]
fn delete_worktree_plan_shape() {
    let p = delete_worktree_plan("/home/u/proj/foo/branch-a");
    assert_eq!(p.steps.len(), 1);
    let (desc, cmd) = run_cmd(&p.steps[0]);
    assert_eq!(desc, "Deleting Worktree branch-a");
    assert_eq!(cmd.program, "git");
    assert_eq!(cmd.cwd, "/home/u/proj/foo");
    assert_eq!(cmd.args, vec!["worktree", "remove", "branch-a"]);
    assert_eq!(p.success_lines, vec!["SUCCESS: Deleting Worktree branch-a"]);
}

#[test]
fn delete_repo_plan_shape() {
    let p = delete_repo_plan("/home/u/proj/foo");
    let (desc, cmd) = run_cmd(&p.steps[0]);
    assert_eq!(desc, "Deleting Repo foo");
    assert_eq!(cmd.program, "rm");
    assert_eq!(cmd.cwd, "/home/u/proj");
    assert_eq!(cmd.args, vec!["-rf", "foo"]);
}

#[test]
fn worktree_creation_sanitizes_branch_name() {
    let p = create_worktree_plan("/home/u/proj/foo", "feat/x", "");
    let (desc, cmd) = run_cmd(&p.steps[0]);
    assert_eq!(desc, "Checking out new Worktree feat_x in repo foo");
    assert_eq!(cmd.cwd, "/home/u/proj/foo");
    assert_eq!(
        cmd.args,
        vec!["worktree", "add", "-b", "feat/x", "feat_x", "--guess-remote"]
    );
}

#[test]
fn worktree_creation_prefers_override() {
    let p = create_worktree_plan("/r", "feat/x", "my.dir");
    let (_, cmd) = run_cmd(&p.steps[0]);
    assert_eq!(cmd.args[4], "my_dir");
}

#[test]
fn worktree_repo_plan_steps() {
    let p = worktree_repo_plan("/home/u/proj", "https://host/g/repo.git", "").unwrap();
    assert_eq!(p.steps.len(), 5);

    let (desc, cmd) = run_cmd(&p.steps[0]);
    assert_eq!(desc, "Mkdir repo at /home/u/proj");
    assert_eq!(cmd.program, "mkdir");
    assert_eq!(cmd.cwd, "/home/u/proj");
    assert_eq!(cmd.args, vec!["repo"]);

    let (desc, cmd) = run_cmd(&p.steps[1]);
    assert_eq!(desc, "git clone");
    assert_eq!(cmd.cwd, "/home/u/proj/repo");
    assert_eq!(
        cmd.args,
        vec!["clone", "--bare", "https://host/g/repo.git", ".bare"]
    );

    match &p.steps[2] {
        OrchStep::WriteFile { desc, path, contents } => {
            assert_eq!(desc, "Writing .git file at /home/u/proj/repo/.git");
            assert_eq!(path, "/home/u/proj/repo/.git");
            assert_eq!(contents, "gitdir: ./.bare");
        },
        OrchStep::Run { .. } => panic!("expected the pointer-file step"),
    }

    let (desc, cmd) = run_cmd(&p.steps[3]);
    assert_eq!(desc, "git config");
    assert_eq!(
        cmd.args,
        vec!["config", "remote.origin.fetch", "+refs/heads/*:refs/remotes/origin/*"]
    );

    let (desc, cmd) = run_cmd(&p.steps[4]);
    assert_eq!(desc, "git fetch");
    assert_eq!(cmd.args, vec!["fetch", "origin"]);

    assert_eq!(
        p.success_lines,
        vec!["Checked out new repo with name repo at /home/u/proj/repo"]
    );
}

#[test]
fn worktree_repo_plan_rejects_bad_link() {
    let e = worktree_repo_plan("/p", "not-a-link", "").unwrap_err();
    assert_eq!(
        e,
        vec!["Could not interpret 'not-a-link' as git repository link."]
    );
    // an override makes the link irrelevant for naming
    let p = worktree_repo_plan("/p", "not-a-link", "name").unwrap();
    let (_, cmd) = run_cmd(&p.steps[0]);
    assert_eq!(cmd.args, vec!["name"]);
}

#[test]
fn plain_repo_plan_shape() {
    let p = plain_repo_plan("/home/u/proj", "https://host/g/repo.git", "").unwrap();
    assert_eq!(p.steps.len(), 1);
    let (desc, cmd) = run_cmd(&p.steps[0]);
    assert_eq!(desc, "Checking out new Non-Worktree Repo repo");
    assert_eq!(cmd.cwd, "/home/u/proj");
    assert_eq!(cmd.args, vec!["clone", "https://host/g/repo.git", "repo"]);
    assert!(plain_repo_plan("/p", "bad", "").is_err());
}

fn five_step_plan() -> OrchPlan {
    worktree_repo_plan("/home/u/proj", "https://host/g/repo.git", "").unwrap()
}

#[test]
fn failing_bare_clone_short_circuits() {
    let p = five_step_plan();
    let outcomes = vec![
        ok_outcome(),
        failed_outcome(b"", b"boom"),
        ok_outcome(),
        ok_outcome(),
        ok_outcome(),
    ];
    let (executed, summary) = p.run_against(&outcomes);
    assert_eq!(executed, 2);
    assert_eq!(
        summary,
        vec!["FAILURE: git clone", "STDOUT: ", "STDERR: boom"]
    );
}

#[test]
fn all_steps_succeeding_reports_success() {
    let p = five_step_plan();
    let outcomes = vec![ok_outcome(), ok_outcome(), ok_outcome(), ok_outcome(), ok_outcome()];
    let (executed, summary) = p.run_against(&outcomes);
    assert_eq!(executed, 5);
    assert_eq!(
        summary,
        vec!["Checked out new repo with name repo at /home/u/proj/repo"]
    );
}

#[test]
fn undecodable_output_uses_placeholder() {
    let p = delete_repo_plan("/a/b");
    let outcomes = vec![failed_outcome(&[0xff, 0xfe], b"ok-text")];
    let (executed, summary) = p.run_against(&outcomes);
    assert_eq!(executed, 1);
    assert_eq!(
        summary,
        vec![
            "FAILURE: Deleting Repo b",
            "STDOUT: couldnt read stdout as utf-8",
            "STDERR: ok-text"
        ]
    );
}

#[test]
fn spawn_refusal_is_reported_not_fatal() {
    let p = delete_worktree_plan("/a/b");
    let outcomes = vec![StepOutcome::NotStarted { reason: "program not found".to_string() }];
    let (executed, summary) = p.run_against(&outcomes);
    assert_eq!(executed, 1);
    assert_eq!(
        summary,
        vec!["FAILURE: Deleting Worktree b", "ERROR: program not found"]
    );
}
