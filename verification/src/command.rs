//! The command orchestrator. A user intent plus the highlighted project
//! node becomes a plan: an ordered list of steps, each an external command
//! with an explicit working directory or a small file write. The caller
//! performs one step at a time and reports its outcome; the plan decides
//! whether to go on, and reduces the first failure — or final success — to
//! the summary lines shown to the user. A failure aborts the remaining
//! steps; nothing already done is rolled back.

use vstd::prelude::*;
use vstd::string::StrSliceExecFns;
use vstd::string::StringExecFns;
use vstd::utf8::{decode_utf8, valid_utf8};
use crate::text::{file_name_of, get_repo_name_from_git_link, join_path, parent_of,
    sanitise_git_dir_name, spec_file_name, spec_link_error, spec_parent, spec_repo_name,
    spec_sanitize};

verus! {

/// One external command: a program, the directory to run it in, and its
/// arguments.
#[derive(Debug)]
pub struct CmdSpec {
    pub program: String,
    pub cwd: String,
    pub args: Vec<String>,
}

/// One step of a plan: run an external command, or write a small file.
#[derive(Debug)]
pub enum OrchStep {
    Run { desc: String, cmd: CmdSpec },
    WriteFile { desc: String, path: String, contents: String },
}

/// An ordered sequence of steps and the summary shown when all succeed.
#[derive(Debug)]
pub struct OrchPlan {
    pub steps: Vec<OrchStep>,
    pub success_lines: Vec<String>,
}

/// What performing one step yielded: the command completed (with its exit
/// status and captured output), or it could not be started at all — a
/// spawn refusal or a local I/O error, reported rather than fatal.
#[derive(Debug)]
pub enum StepOutcome {
    Completed { exit_success: bool, stdout: Vec<u8>, stderr: Vec<u8> },
    NotStarted { reason: String },
}

/// A step succeeded only if its command completed with a successful exit.
pub open spec fn step_succeeded(o: StepOutcome) -> bool {
    match o {
        StepOutcome::Completed { exit_success, .. } => exit_success,
        StepOutcome::NotStarted { .. } => false,
    }
}

/// The description a step is reported under.
pub open spec fn step_desc(s: OrchStep) -> Seq<char> {
    match s {
        OrchStep::Run { desc, .. } => desc@,
        OrchStep::WriteFile { desc, .. } => desc@,
    }
}

/// Captured output decoded permissively: undecodable bytes become a
/// placeholder rather than failing the summary.
pub open spec fn spec_decoded_or(bytes: Seq<u8>, placeholder: Seq<char>) -> Seq<char> {
    if valid_utf8(bytes) {
        decode_utf8(bytes)
    } else {
        placeholder
    }
}

/// The summary of a failed step: the failure marker and description, then
/// the captured output — or the refusal reason when the step never ran.
pub open spec fn spec_failure_summary(desc: Seq<char>, outcome: StepOutcome) -> Seq<Seq<char>> {
    match outcome {
        StepOutcome::Completed { exit_success, stdout, stderr } => seq![
            "FAILURE: "@ + desc,
            "STDOUT: "@ + spec_decoded_or(stdout@, "couldnt read stdout as utf-8"@),
            "STDERR: "@ + spec_decoded_or(stderr@, "couldnt read stderr as utf-8"@),
        ],
        StepOutcome::NotStarted { reason } => seq!["FAILURE: "@ + desc, "ERROR: "@ + reason@],
    }
}

/// Relies on std's `core::str::from_utf8`: it succeeds exactly on valid
/// UTF-8 and yields the characters those bytes encode.
#[verifier::external_body]
fn try_decode_utf8(bytes: &Vec<u8>) -> (r: Option<String>)
    ensures
        r is Some <==> valid_utf8(bytes@),
        r is Some ==> r.unwrap()@ == decode_utf8(bytes@),
{
    match core::str::from_utf8(bytes.as_slice()) {
        Ok(s) => Some(s.to_owned()),
        Err(_) => None,
    }
}

/// One output stream decoded behind its marker, with the placeholder text
/// when the bytes do not decode.
fn decoded_line(marker: &str, bytes: &Vec<u8>, placeholder: &str) -> (r: String)
    ensures
        r@ == marker@ + spec_decoded_or(bytes@, placeholder@),
{
    match try_decode_utf8(bytes) {
        Some(text) => marker.to_owned().concat(text.as_str()),
        None => marker.to_owned().concat(placeholder),
    }
}

/// The summary lines of one failed step.
fn failure_summary(desc: &str, outcome: &StepOutcome) -> (r: Vec<String>)
    ensures
        r.deep_view() =~= spec_failure_summary(desc@, *outcome),
{
    let mut lines: Vec<String> = Vec::new();
    lines.push("FAILURE: ".to_owned().concat(desc));
    match outcome {
        StepOutcome::Completed { exit_success: _, stdout, stderr } => {
            lines.push(decoded_line("STDOUT: ", stdout, "couldnt read stdout as utf-8"));
            lines.push(decoded_line("STDERR: ", stderr, "couldnt read stderr as utf-8"));
        },
        StepOutcome::NotStarted { reason } => {
            lines.push("ERROR: ".to_owned().concat(reason.as_str()));
        },
    }
    lines
}

/// Copies summary lines.
fn clone_lines(v: &Vec<String>) -> (r: Vec<String>)
    ensures
        r.deep_view() =~= v.deep_view(),
{
    let mut r: Vec<String> = Vec::new();
    let mut i: usize = 0;
    while i < v.len()
        invariant
            i <= v@.len(),
            r@.len() == i,
            forall|j: int| 0 <= j < i ==> r.deep_view()[j] == v.deep_view()[j],
        decreases v@.len() - i,
    {
        r.push(v[i].clone());
        i = i + 1;
    }
    r
}

/// What the plan does after step `idx` reported `outcome`: go on to the
/// next step, or stop with the summary of what happened.
pub enum PlanProgress {
    Next(usize),
    Done(Vec<String>),
}

/// How a plan runs against a sequence of step outcomes: the steps run in
/// order; the first failure stops the run with that step's failure
/// summary, and when every step succeeds the run ends with the success
/// summary. Yields how many steps were performed and the summary.
pub open spec fn spec_run(
    steps: Seq<OrchStep>,
    success: Seq<Seq<char>>,
    outcomes: Seq<StepOutcome>,
) -> (int, Seq<Seq<char>>)
    decreases steps.len(),
{
    if steps.len() == 0 {
        (0, success)
    } else if !step_succeeded(outcomes[0]) {
        (1, spec_failure_summary(step_desc(steps[0]), outcomes[0]))
    } else {
        let rest = spec_run(steps.drop_first(), success, outcomes.drop_first());
        (1 + rest.0, rest.1)
    }
}

/// A failure short-circuits the run: when the first `k` steps succeed and
/// step `k` fails, exactly `k + 1` steps run — the later steps never do —
/// and the summary reports step `k` under its description.
pub proof fn lemma_run_short_circuits(
    steps: Seq<OrchStep>,
    success: Seq<Seq<char>>,
    outcomes: Seq<StepOutcome>,
    k: int,
)
    requires
        outcomes.len() >= steps.len(),
        0 <= k < steps.len(),
        !step_succeeded(outcomes[k]),
        forall|j: int| 0 <= j < k ==> step_succeeded(#[trigger] outcomes[j]),
    ensures
        spec_run(steps, success, outcomes).0 == k + 1,
        spec_run(steps, success, outcomes).1 == spec_failure_summary(
            step_desc(steps[k]),
            outcomes[k],
        ),
    decreases k,
{
    if k > 0 {
        assert(outcomes.drop_first()[k - 1] == outcomes[k]);
        assert forall|j: int| 0 <= j < k - 1 implies step_succeeded(
            #[trigger] outcomes.drop_first()[j],
        ) by {
            assert(outcomes.drop_first()[j] == outcomes[j + 1]);
        }
        lemma_run_short_circuits(steps.drop_first(), success, outcomes.drop_first(), k - 1);
    }
}

/// A run with no failure performs every step and reports success.
pub proof fn lemma_run_to_success(
    steps: Seq<OrchStep>,
    success: Seq<Seq<char>>,
    outcomes: Seq<StepOutcome>,
)
    requires
        outcomes.len() >= steps.len(),
        forall|j: int| 0 <= j < steps.len() ==> step_succeeded(#[trigger] outcomes[j]),
    ensures
        spec_run(steps, success, outcomes).0 == steps.len(),
        spec_run(steps, success, outcomes).1 == success,
    decreases steps.len(),
{
    if steps.len() > 0 {
        lemma_run_to_success(steps.drop_first(), success, outcomes.drop_first());
    }
}

impl OrchPlan {
    /// Decides what follows the outcome of step `idx`: the next step while
    /// steps succeed and remain, the success summary after the last
    /// success, and the failure summary of `idx` the moment it fails.
    pub fn advance(&self, idx: usize, outcome: &StepOutcome) -> (r: PlanProgress)
        requires
            idx < self.steps@.len(),
        ensures
            step_succeeded(*outcome) && idx + 1 < self.steps@.len() ==> r == PlanProgress::Next(
                (idx + 1) as usize,
            ),
            step_succeeded(*outcome) && idx + 1 == self.steps@.len() ==> (r matches
                PlanProgress::Done(lines) && lines.deep_view()
                =~= self.success_lines.deep_view()),
            !step_succeeded(*outcome) ==> (r matches PlanProgress::Done(lines)
                && lines.deep_view() =~= spec_failure_summary(
                step_desc(self.steps@[idx as int]),
                *outcome,
            )),
    {
        let failed: bool = match outcome {
            StepOutcome::Completed { exit_success, .. } => !*exit_success,
            StepOutcome::NotStarted { .. } => true,
        };
        if failed {
            let desc = match &self.steps[idx] {
                OrchStep::Run { desc, .. } => desc,
                OrchStep::WriteFile { desc, .. } => desc,
            };
            PlanProgress::Done(failure_summary(desc.as_str(), outcome))
        } else if idx < self.steps.len() - 1 {
            PlanProgress::Next(idx + 1)
        } else {
            PlanProgress::Done(clone_lines(&self.success_lines))
        }
    }

    /// The whole run of a plan against the outcomes its steps would
    /// report, as one pure function: how many steps run, and the summary.
    /// A driver performing the steps one at a time through `advance`
    /// behaves exactly like this.
    pub fn run_against(&self, outcomes: &Vec<StepOutcome>) -> (r: (usize, Vec<String>))
        requires
            outcomes@.len() >= self.steps@.len(),
        ensures
            r.0 as int == spec_run(self.steps@, self.success_lines.deep_view(), outcomes@).0,
            r.1.deep_view() =~= spec_run(
                self.steps@,
                self.success_lines.deep_view(),
                outcomes@,
            ).1,
    {
        let ghost success = self.success_lines.deep_view();
        let n = self.steps.len();
        if n == 0 {
            return (0, clone_lines(&self.success_lines));
        }
        let mut idx: usize = 0;
        proof {
            assert(self.steps@.skip(0) =~= self.steps@);
            assert(outcomes@.skip(0) =~= outcomes@);
        }
        loop
            invariant
                idx < n,
                n == self.steps@.len(),
                outcomes@.len() >= n as int,
                success == self.success_lines.deep_view(),
                spec_run(self.steps@, success, outcomes@).0 == idx + spec_run(
                    self.steps@.skip(idx as int),
                    success,
                    outcomes@.skip(idx as int),
                ).0,
                spec_run(self.steps@, success, outcomes@).1 == spec_run(
                    self.steps@.skip(idx as int),
                    success,
                    outcomes@.skip(idx as int),
                ).1,
            decreases n - idx,
        {
            let outcome = &outcomes[idx];
            proof {
                assert(self.steps@.skip(idx as int)[0] == self.steps@[idx as int]);
                assert(outcomes@.skip(idx as int)[0] == outcomes@[idx as int]);
                assert(self.steps@.skip(idx as int).drop_first() =~= self.steps@.skip(idx + 1));
                assert(outcomes@.skip(idx as int).drop_first() =~= outcomes@.skip(idx + 1));
            }
            match self.advance(idx, outcome) {
                PlanProgress::Next(next) => {
                    proof {
                        assert(step_succeeded(outcomes@[idx as int]));
                        assert(spec_run(self.steps@.skip(idx as int), success, outcomes@.skip(
                            idx as int,
                        )).0 == 1 + spec_run(
                            self.steps@.skip(idx + 1),
                            success,
                            outcomes@.skip(idx + 1),
                        ).0);
                    }
                    idx = next;
                },
                PlanProgress::Done(lines) => {
                    proof {
                        if step_succeeded(outcomes@[idx as int]) {
                            assert(idx + 1 == n);
                            assert(self.steps@.skip(idx + 1).len() == 0);
                            assert(spec_run(self.steps@.skip(idx + 1), success, outcomes@.skip(
                                idx + 1,
                            )).0 == 0);
                            assert(spec_run(self.steps@.skip(idx as int), success, outcomes@.skip(
                                idx as int,
                            )).0 == 1);
                            assert(spec_run(self.steps@.skip(idx as int), success, outcomes@.skip(
                                idx as int,
                            )).1 == success);
                        }
                    }
                    return (idx + 1, lines);
                },
            }
        }
    }
}

/// The directory name an operation uses on disk: the override when one was
/// typed, else the primary name — sanitized either way.
pub open spec fn spec_effective_dir(primary: Seq<char>, chosen: Seq<char>) -> Seq<char> {
    if chosen.len() == 0 {
        spec_sanitize(primary)
    } else {
        spec_sanitize(chosen)
    }
}

/// The repository name a creation operation uses: the sanitized override
/// when one was typed, else the sanitized name derived from the link —
/// `None` when no override was typed and the link yields no name.
pub open spec fn spec_effective_repo_name(link: Seq<char>, chosen: Seq<char>) -> Option<
    Seq<char>,
> {
    if chosen.len() > 0 {
        Some(spec_sanitize(chosen))
    } else {
        match spec_repo_name(link) {
            Some(n) => Some(spec_sanitize(n)),
            None => None,
        }
    }
}

/// The shape of the single-step plan that removes the worktree checkout at
/// `path`: `git worktree remove` on the checkout's name, run in its parent
/// directory.
pub open spec fn is_delete_worktree_plan(p: OrchPlan, path: Seq<char>) -> bool {
    &&& p.steps@.len() == 1
    &&& (p.steps@[0] matches OrchStep::Run { desc, cmd } && {
        &&& desc@ == "Deleting Worktree "@ + spec_file_name(path)
        &&& cmd.program@ == "git"@
        &&& cmd.cwd@ == spec_parent(path)
        &&& cmd.args.deep_view() == seq!["worktree"@, "remove"@, spec_file_name(path)]
    })
    &&& p.success_lines.deep_view() == seq!["SUCCESS: Deleting Worktree "@ + spec_file_name(path)]
}

/// The shape of the single-step plan that removes the repository at `path`
/// entirely: a recursive forced remove of its name, run in its parent
/// directory.
pub open spec fn is_delete_repo_plan(p: OrchPlan, path: Seq<char>) -> bool {
    &&& p.steps@.len() == 1
    &&& (p.steps@[0] matches OrchStep::Run { desc, cmd } && {
        &&& desc@ == "Deleting Repo "@ + spec_file_name(path)
        &&& cmd.program@ == "rm"@
        &&& cmd.cwd@ == spec_parent(path)
        &&& cmd.args.deep_view() == seq!["-rf"@, spec_file_name(path)]
    })
    &&& p.success_lines.deep_view() == seq!["SUCCESS: Deleting Repo "@ + spec_file_name(path)]
}

/// The shape of the single-step plan that checks out `branch` as a new
/// worktree of the container at `repo_path`, in a directory carrying the
/// effective directory name.
pub open spec fn is_create_worktree_plan(
    p: OrchPlan,
    repo_path: Seq<char>,
    branch: Seq<char>,
    chosen: Seq<char>,
) -> bool {
    &&& p.steps@.len() == 1
    &&& (p.steps@[0] matches OrchStep::Run { desc, cmd } && {
        &&& desc@ == "Checking out new Worktree "@ + spec_effective_dir(branch, chosen)
            + " in repo "@ + spec_file_name(repo_path)
        &&& cmd.program@ == "git"@
        &&& cmd.cwd@ == repo_path
        &&& cmd.args.deep_view() == seq![
            "worktree"@,
            "add"@,
            "-b"@,
            branch,
            spec_effective_dir(branch, chosen),
            "--guess-remote"@,
        ]
    })
    &&& p.success_lines.deep_view() == seq![
        "SUCCESS: "@ + ("Checking out new Worktree "@ + spec_effective_dir(branch, chosen)
            + " in repo "@ + spec_file_name(repo_path)),
    ]
}

/// The shape of the single-step plan that clones `link` directly into
/// `name` under the group directory at `group`.
pub open spec fn is_plain_repo_plan(
    p: OrchPlan,
    group: Seq<char>,
    link: Seq<char>,
    name: Seq<char>,
) -> bool {
    &&& p.steps@.len() == 1
    &&& (p.steps@[0] matches OrchStep::Run { desc, cmd } && {
        &&& desc@ == "Checking out new Non-Worktree Repo "@ + name
        &&& cmd.program@ == "git"@
        &&& cmd.cwd@ == group
        &&& cmd.args.deep_view() == seq!["clone"@, link, name]
    })
    &&& p.success_lines.deep_view() == seq![
        "SUCCESS: "@ + ("Checking out new Non-Worktree Repo "@ + name),
    ]
}

/// Removes the worktree checkout at `path`: one step, `git worktree remove`
/// run in the checkout's parent directory.
pub fn delete_worktree_plan(path: &str) -> (r: OrchPlan)
    ensures
        is_delete_worktree_plan(r, path@),
{
    let name = file_name_of(path);
    let desc = "Deleting Worktree ".to_owned().concat(name.as_str());
    let success = "SUCCESS: ".to_owned().concat(desc.as_str());
    let mut args: Vec<String> = Vec::new();
    args.push("worktree".to_owned());
    args.push("remove".to_owned());
    args.push(name);
    let cmd = CmdSpec { program: "git".to_owned(), cwd: parent_of(path), args };
    let mut steps: Vec<OrchStep> = Vec::new();
    steps.push(OrchStep::Run { desc, cmd });
    let mut lines: Vec<String> = Vec::new();
    lines.push(success);
    let r = OrchPlan { steps, success_lines: lines };
    proof {
        assert(r.steps@[0]->Run_cmd.args.deep_view() =~= seq![
            "worktree"@,
            "remove"@,
            spec_file_name(path@),
        ]);
        assert(r.success_lines.deep_view() =~= seq![
            "SUCCESS: "@ + ("Deleting Worktree "@ + spec_file_name(path@)),
        ]);
        assert(("SUCCESS: "@ + ("Deleting Worktree "@ + spec_file_name(path@))) =~=
            ("SUCCESS: Deleting Worktree "@ + spec_file_name(path@))) by {
            reveal_strlit("SUCCESS: ");
            reveal_strlit("Deleting Worktree ");
            reveal_strlit("SUCCESS: Deleting Worktree ");
        }
    }
    r
}

/// Removes the repository at `path` entirely: one step, a recursive forced
/// remove run in the repository's parent directory.
pub fn delete_repo_plan(path: &str) -> (r: OrchPlan)
    ensures
        is_delete_repo_plan(r, path@),
{
    let name = file_name_of(path);
    let desc = "Deleting Repo ".to_owned().concat(name.as_str());
    let success = "SUCCESS: ".to_owned().concat(desc.as_str());
    let mut args: Vec<String> = Vec::new();
    args.push("-rf".to_owned());
    args.push(name);
    let cmd = CmdSpec { program: "rm".to_owned(), cwd: parent_of(path), args };
    let mut steps: Vec<OrchStep> = Vec::new();
    steps.push(OrchStep::Run { desc, cmd });
    let mut lines: Vec<String> = Vec::new();
    lines.push(success);
    let r = OrchPlan { steps, success_lines: lines };
    proof {
        assert(r.steps@[0]->Run_cmd.args.deep_view() =~= seq!["-rf"@, spec_file_name(path@)]);
        assert(r.success_lines.deep_view() =~= seq![
            "SUCCESS: "@ + ("Deleting Repo "@ + spec_file_name(path@)),
        ]);
        assert(("SUCCESS: "@ + ("Deleting Repo "@ + spec_file_name(path@))) =~= ("SUCCESS: Deleting Repo "@
            + spec_file_name(path@))) by {
            reveal_strlit("SUCCESS: ");
            reveal_strlit("Deleting Repo ");
            reveal_strlit("SUCCESS: Deleting Repo ");
        }
    }
    r
}

/// Checks out a new branch as a worktree of the container at `repo_path`:
/// one step, `git worktree add -b` with the effective directory name, run
/// in the container itself. A blank override means the sanitized branch
/// name names the directory.
pub fn create_worktree_plan(repo_path: &str, branch: &str, chosen_dir: &str) -> (r: OrchPlan)
    ensures
        is_create_worktree_plan(r, repo_path@, branch@, chosen_dir@),
{
    let dir_name = if chosen_dir.is_empty() {
        sanitise_git_dir_name(branch)
    } else {
        sanitise_git_dir_name(chosen_dir)
    };
    let repo_name = file_name_of(repo_path);
    let desc = "Checking out new Worktree ".to_owned().concat(dir_name.as_str()).concat(
        " in repo ",
    ).concat(repo_name.as_str());
    let success = "SUCCESS: ".to_owned().concat(desc.as_str());
    let mut args: Vec<String> = Vec::new();
    args.push("worktree".to_owned());
    args.push("add".to_owned());
    args.push("-b".to_owned());
    args.push(branch.to_owned());
    args.push(dir_name);
    args.push("--guess-remote".to_owned());
    let cmd = CmdSpec { program: "git".to_owned(), cwd: repo_path.to_owned(), args };
    let mut steps: Vec<OrchStep> = Vec::new();
    steps.push(OrchStep::Run { desc, cmd });
    let mut lines: Vec<String> = Vec::new();
    lines.push(success);
    let r = OrchPlan { steps, success_lines: lines };
    proof {
        assert(r.steps@[0]->Run_cmd.args.deep_view() =~= seq![
            "worktree"@,
            "add"@,
            "-b"@,
            branch@,
            spec_effective_dir(branch@, chosen_dir@),
            "--guess-remote"@,
        ]);
        assert(r.success_lines.deep_view() =~= seq![
            "SUCCESS: "@ + ("Checking out new Worktree "@ + spec_effective_dir(
                branch@,
                chosen_dir@,
            ) + " in repo "@ + spec_file_name(repo_path@)),
        ]);
    }
    r
}

/// The shape of the worktree-mode repository-creation sequence for a
/// remote `link` cloned under `group` as `name`: make the directory, clone
/// the remote bare into its `.bare` store, write the `.git` pointer file,
/// set the fetch refspec to mirror all remote branches, then fetch. Every
/// step runs in the new repository directory except the first.
pub open spec fn is_worktree_repo_plan(
    p: OrchPlan,
    group: Seq<char>,
    link: Seq<char>,
    name: Seq<char>,
) -> bool {
    let repo_path = group + "/"@ + name;
    &&& p.steps@.len() == 5
    &&& (p.steps@[0] matches OrchStep::Run { desc, cmd } && {
        &&& desc@ == "Mkdir "@ + name + " at "@ + group
        &&& cmd.program@ == "mkdir"@
        &&& cmd.cwd@ == group
        &&& cmd.args.deep_view() == seq![name]
    })
    &&& (p.steps@[1] matches OrchStep::Run { desc, cmd } && {
        &&& desc@ == "git clone"@
        &&& cmd.program@ == "git"@
        &&& cmd.cwd@ == repo_path
        &&& cmd.args.deep_view() == seq!["clone"@, "--bare"@, link, ".bare"@]
    })
    &&& (p.steps@[2] matches OrchStep::WriteFile { desc, path, contents } && {
        &&& desc@ == "Writing .git file at "@ + (repo_path + "/"@ + ".git"@)
        &&& path@ == repo_path + "/"@ + ".git"@
        &&& contents@ == "gitdir: ./.bare"@
    })
    &&& (p.steps@[3] matches OrchStep::Run { desc, cmd } && {
        &&& desc@ == "git config"@
        &&& cmd.program@ == "git"@
        &&& cmd.cwd@ == repo_path
        &&& cmd.args.deep_view() == seq![
            "config"@,
            "remote.origin.fetch"@,
            "+refs/heads/*:refs/remotes/origin/*"@,
        ]
    })
    &&& (p.steps@[4] matches OrchStep::Run { desc, cmd } && {
        &&& desc@ == "git fetch"@
        &&& cmd.program@ == "git"@
        &&& cmd.cwd@ == repo_path
        &&& cmd.args.deep_view() == seq!["fetch"@, "origin"@]
    })
    &&& p.success_lines.deep_view() == seq![
        "Checked out new repo with name "@ + name + " at "@ + repo_path,
    ]
}

/// Plans the worktree-mode creation of a repository from a remote link
/// under the group directory at `group_path`. `Ok` exactly when a name is
/// available — an override was typed, or one derives from the link; a link
/// yielding no name is reported before any step would run.
pub fn worktree_repo_plan(group_path: &str, link: &str, chosen_name: &str) -> (r: Result<
    OrchPlan,
    Vec<String>,
>)
    ensures
        r is Ok <==> spec_effective_repo_name(link@, chosen_name@) is Some,
        (r matches Err(lines) ==> lines.deep_view() == seq![spec_link_error(link@)]),
        (r matches Ok(p) ==> is_worktree_repo_plan(
            p,
            group_path@,
            link@,
            spec_effective_repo_name(link@, chosen_name@).unwrap(),
        )),
{
    let name = if chosen_name.is_empty() {
        match get_repo_name_from_git_link(link) {
            Ok(n) => sanitise_git_dir_name(n.as_str()),
            Err(e) => {
                let mut lines: Vec<String> = Vec::new();
                lines.push(e);
                proof {
                    assert(lines.deep_view() =~= seq![spec_link_error(link@)]);
                }
                return Err(lines);
            },
        }
    } else {
        sanitise_git_dir_name(chosen_name)
    };
    let repo_path = join_path(group_path, name.as_str());
    let git_file = join_path(repo_path.as_str(), ".git");

    let mut steps: Vec<OrchStep> = Vec::new();

    let mkdir_desc = "Mkdir ".to_owned().concat(name.as_str()).concat(" at ").concat(group_path);
    let mut mkdir_args: Vec<String> = Vec::new();
    mkdir_args.push(name.clone());
    steps.push(
        OrchStep::Run {
            desc: mkdir_desc,
            cmd: CmdSpec {
                program: "mkdir".to_owned(),
                cwd: group_path.to_owned(),
                args: mkdir_args,
            },
        },
    );

    let mut clone_args: Vec<String> = Vec::new();
    clone_args.push("clone".to_owned());
    clone_args.push("--bare".to_owned());
    clone_args.push(link.to_owned());
    clone_args.push(".bare".to_owned());
    steps.push(
        OrchStep::Run {
            desc: "git clone".to_owned(),
            cmd: CmdSpec {
                program: "git".to_owned(),
                cwd: repo_path.clone(),
                args: clone_args,
            },
        },
    );

    let write_desc = "Writing .git file at ".to_owned().concat(git_file.as_str());
    steps.push(
        OrchStep::WriteFile {
            desc: write_desc,
            path: git_file,
            contents: "gitdir: ./.bare".to_owned(),
        },
    );

    let mut config_args: Vec<String> = Vec::new();
    config_args.push("config".to_owned());
    config_args.push("remote.origin.fetch".to_owned());
    config_args.push("+refs/heads/*:refs/remotes/origin/*".to_owned());
    steps.push(
        OrchStep::Run {
            desc: "git config".to_owned(),
            cmd: CmdSpec {
                program: "git".to_owned(),
                cwd: repo_path.clone(),
                args: config_args,
            },
        },
    );

    let mut fetch_args: Vec<String> = Vec::new();
    fetch_args.push("fetch".to_owned());
    fetch_args.push("origin".to_owned());
    steps.push(
        OrchStep::Run {
            desc: "git fetch".to_owned(),
            cmd: CmdSpec {
                program: "git".to_owned(),
                cwd: repo_path.clone(),
                args: fetch_args,
            },
        },
    );

    let success = "Checked out new repo with name ".to_owned().concat(name.as_str()).concat(
        " at ",
    ).concat(repo_path.as_str());
    let mut lines: Vec<String> = Vec::new();
    lines.push(success);

    let p = OrchPlan { steps, success_lines: lines };
    proof {
        let sname = spec_effective_repo_name(link@, chosen_name@).unwrap();
        assert(p.steps@[0]->Run_cmd.args.deep_view() =~= seq![sname]);
        assert(p.steps@[1]->Run_cmd.args.deep_view() =~= seq![
            "clone"@,
            "--bare"@,
            link@,
            ".bare"@,
        ]);
        assert(p.steps@[3]->Run_cmd.args.deep_view() =~= seq![
            "config"@,
            "remote.origin.fetch"@,
            "+refs/heads/*:refs/remotes/origin/*"@,
        ]);
        assert(p.steps@[4]->Run_cmd.args.deep_view() =~= seq!["fetch"@, "origin"@]);
        assert(p.success_lines.deep_view() =~= seq![
            "Checked out new repo with name "@ + sname + " at "@ + (group_path@ + "/"@ + sname),
        ]);
    }
    Ok(p)
}

/// Plans the plain (non-worktree) creation of a repository from a remote
/// link under the group directory at `group_path`: a single direct clone
/// into the effective name. `Ok` exactly as for the worktree mode.
pub fn plain_repo_plan(group_path: &str, link: &str, chosen_name: &str) -> (r: Result<
    OrchPlan,
    Vec<String>,
>)
    ensures
        r is Ok <==> spec_effective_repo_name(link@, chosen_name@) is Some,
        (r matches Err(lines) ==> lines.deep_view() == seq![spec_link_error(link@)]),
        (r matches Ok(p) ==> is_plain_repo_plan(
            p,
            group_path@,
            link@,
            spec_effective_repo_name(link@, chosen_name@).unwrap(),
        )),
{
    let name = if chosen_name.is_empty() {
        match get_repo_name_from_git_link(link) {
            Ok(n) => sanitise_git_dir_name(n.as_str()),
            Err(e) => {
                let mut lines: Vec<String> = Vec::new();
                lines.push(e);
                proof {
                    assert(lines.deep_view() =~= seq![spec_link_error(link@)]);
                }
                return Err(lines);
            },
        }
    } else {
        sanitise_git_dir_name(chosen_name)
    };
    let desc = "Checking out new Non-Worktree Repo ".to_owned().concat(name.as_str());
    let success = "SUCCESS: ".to_owned().concat(desc.as_str());
    let mut args: Vec<String> = Vec::new();
    args.push("clone".to_owned());
    args.push(link.to_owned());
    args.push(name);
    let mut steps: Vec<OrchStep> = Vec::new();
    steps.push(
        OrchStep::Run {
            desc,
            cmd: CmdSpec { program: "git".to_owned(), cwd: group_path.to_owned(), args },
        },
    );
    let mut lines: Vec<String> = Vec::new();
    lines.push(success);
    let p = OrchPlan { steps, success_lines: lines };
    proof {
        let sname = spec_effective_repo_name(link@, chosen_name@).unwrap();
        assert(p.steps@[0]->Run_cmd.args.deep_view() =~= seq!["clone"@, link@, sname]);
        assert(p.success_lines.deep_view() =~= seq![
            "SUCCESS: "@ + ("Checking out new Non-Worktree Repo "@ + sname),
        ]);
    }
    Ok(p)
}

/// In the worktree-mode creation sequence, a failing bare clone (the
/// second step) stops the run: the pointer write, the refspec
/// configuration and the fetch never run, and the summary reports the
/// clone step.
pub proof fn lemma_worktree_repo_short_circuit(
    p: OrchPlan,
    group: Seq<char>,
    link: Seq<char>,
    name: Seq<char>,
    outcomes: Seq<StepOutcome>,
)
    requires
        is_worktree_repo_plan(p, group, link, name),
        outcomes.len() >= 5,
        step_succeeded(outcomes[0]),
        !step_succeeded(outcomes[1]),
    ensures
        spec_run(p.steps@, p.success_lines.deep_view(), outcomes).0 == 2,
        spec_run(p.steps@, p.success_lines.deep_view(), outcomes).1 == spec_failure_summary(
            "git clone"@,
            outcomes[1],
        ),
{
    lemma_run_short_circuits(p.steps@, p.success_lines.deep_view(), outcomes, 1);
}

} // verus!
