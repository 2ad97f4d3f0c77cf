use vstd::prelude::*;

use crate::action::{
    build_sequential_setup_chain, cleanup_actions_for_repos, cleanup_steps, clone_opt_text,
    setup_action_for_repo, setup_steps, ActionView, CodingAgentInitialRequest, ExecutorAction,
    ExecutorActionType, ExecutorProfileId, ProjectRepoWithName,
};
use crate::config::opt_text;
use crate::log::{start_failure, StartError, StartFailure, describe_start_error, missing_executable_help, LogView, NormalizedEntryType, NormalizedEntryError};
use crate::task::{is_terminal, TaskStatus};

verus! {

/// Lifecycle state of one spawned child process.
#[derive(Clone, Copy, Debug, PartialEq, Eq, Structural)]
pub enum ExecutionProcessStatus {
    Running,
    Completed,
    Failed,
    Killed,
}

/// Why a child process was spawned.
#[derive(Clone, Copy, Debug, PartialEq, Eq, Structural)]
pub enum ExecutionProcessRunReason {
    SetupScript,
    CodingAgent,
    CleanupScript,
    DevServer,
}

/// One spawned child, carrying the whole remaining action chain.
#[derive(Debug, PartialEq, Eq)]
pub struct ExecutionProcess {
    pub id: u128,
    pub session_id: u128,
    pub run_reason: ExecutionProcessRunReason,
    pub status: ExecutionProcessStatus,
    pub executor_action: ExecutorAction,
    pub exit_code: Option<i64>,
}

/// When the exit of a process concludes the task's run.
pub open spec fn finalizes(
    run_reason: ExecutionProcessRunReason,
    status: ExecutionProcessStatus,
    has_next: bool,
) -> bool {
    if run_reason is DevServer {
        false
    } else if run_reason is SetupScript && !has_next {
        false
    } else if status is Failed || status is Killed {
        true
    } else {
        !has_next
    }
}

/// Whether the exit of `process` concludes its task's run: never for a dev server or a
/// setup script without a successor, always for a failed or killed process, and
/// otherwise only at the end of the chain.
pub fn should_finalize(process: &ExecutionProcess) -> (r: bool)
    ensures
        r == finalizes(
            process.run_reason,
            process.status,
            process.executor_action.next_action is Some,
        ),
{
    let has_next = process.executor_action.next_action.is_some();
    match process.run_reason {
        ExecutionProcessRunReason::DevServer => false,
        ExecutionProcessRunReason::SetupScript if !has_next => false,
        _ => match process.status {
            ExecutionProcessStatus::Failed | ExecutionProcessStatus::Killed => true,
            _ => !has_next,
        },
    }
}

/// The run reason of the step that follows `current` with `next`.
pub open spec fn next_reason(current: ActionView, next: ActionView) -> ExecutionProcessRunReason {
    if !(next is Script) {
        ExecutionProcessRunReason::CodingAgent
    } else if current is Script {
        ExecutionProcessRunReason::SetupScript
    } else {
        ExecutionProcessRunReason::CleanupScript
    }
}

/// The run reason of `next` when it follows `current`: script after script is setup,
/// script after an agent is cleanup, an agent is a coding run.
pub fn next_run_reason(current: &ExecutorActionType, next: &ExecutorActionType) -> (r:
    ExecutionProcessRunReason)
    ensures
        r == next_reason(current@, next@),
{
    match (current, next) {
        (ExecutorActionType::ScriptRequest(_), ExecutorActionType::ScriptRequest(_)) => {
            ExecutionProcessRunReason::SetupScript
        },
        (_, ExecutorActionType::ScriptRequest(_)) => ExecutionProcessRunReason::CleanupScript,
        (_, _) => ExecutionProcessRunReason::CodingAgent,
    }
}

/// The run reason under which the successor of the process's current step starts,
/// or `None` at the end of the chain.
pub fn try_start_next_action(process: &ExecutionProcess) -> (r: Option<
    ExecutionProcessRunReason,
>)
    ensures
        match process.executor_action.next_action {
            Some(n) => r == Some(next_reason(process.executor_action.typ@, n.typ@)),
            None => r is None,
        },
{
    match &process.executor_action.next_action {
        Some(next) => Some(next_run_reason(&process.executor_action.typ, &next.typ)),
        None => None,
    }
}

/// Which notification a finished run sends.
#[derive(Clone, Copy, Debug, PartialEq, Eq, Structural)]
pub enum CompletionNotice {
    /// The run completed.
    Completed,
    /// The run failed; the task still goes to testing.
    CompletedWithIssues,
}

/// What concluding a task's run does.
#[derive(Clone, Copy, Debug, PartialEq, Eq, Structural)]
pub struct FinalizePlan {
    /// The task's new status, if it changes.
    pub task_status: Option<TaskStatus>,
    pub notice: Option<CompletionNotice>,
}

/// The status a task takes when its run is concluded: Testing, unless the process was
/// killed or the task is already Done or Cancelled.
pub open spec fn finalized_status(task: TaskStatus, process: ExecutionProcessStatus) -> Option<
    TaskStatus,
> {
    if process is Killed || is_terminal(task) {
        None
    } else {
        Some(TaskStatus::Testing)
    }
}

/// The notice a concluded run sends: by outcome for a completed or failed process,
/// none for a killed one, for one still running, or for a Done or Cancelled task.
pub open spec fn notice_of(task: TaskStatus, process: ExecutionProcessStatus) -> Option<
    CompletionNotice,
> {
    if is_terminal(task) {
        None
    } else {
        match process {
            ExecutionProcessStatus::Completed => Some(CompletionNotice::Completed),
            ExecutionProcessStatus::Failed => Some(CompletionNotice::CompletedWithIssues),
            _ => None,
        }
    }
}

/// Conclude a task's run: the task goes to Testing whether the process completed or
/// failed, with a notice that depends on which. A killed process changes nothing, and
/// a Done or Cancelled task keeps its status.
pub fn finalize_task(task_status: TaskStatus, status: ExecutionProcessStatus) -> (r: FinalizePlan)
    ensures
        r.task_status == finalized_status(task_status, status),
        r.notice == notice_of(task_status, status),
{
    let terminal = task_status == TaskStatus::Done || task_status == TaskStatus::Cancelled;
    if terminal {
        return FinalizePlan { task_status: None, notice: None };
    }
    match status {
        ExecutionProcessStatus::Killed => FinalizePlan { task_status: None, notice: None },
        ExecutionProcessStatus::Completed => FinalizePlan {
            task_status: Some(TaskStatus::Testing),
            notice: Some(CompletionNotice::Completed),
        },
        ExecutionProcessStatus::Failed => FinalizePlan {
            task_status: Some(TaskStatus::Testing),
            notice: Some(CompletionNotice::CompletedWithIssues),
        },
        ExecutionProcessStatus::Running => FinalizePlan {
            task_status: Some(TaskStatus::Testing),
            notice: None,
        },
    }
}

/// What happens when a process exits.
#[derive(Clone, Copy, Debug, PartialEq, Eq, Structural)]
pub struct ExitPlan {
    /// The task's new status, if it changes.
    pub task_status: Option<TaskStatus>,
    pub notice: Option<CompletionNotice>,
    /// The run reason of the next step to start, if one starts. That step continues
    /// the chain: starting it changes no task status (see `start_status_update`).
    pub next_run_reason: Option<ExecutionProcessRunReason>,
}

/// Decide what the exit of `process` does for a task in `task_status`: conclude the
/// run when it finalizes, otherwise start the next step of the chain if there is one.
/// The task's status changes only when the exit finalizes, and never out of Done or
/// Cancelled.
pub fn plan_exit(process: &ExecutionProcess, task_status: TaskStatus) -> (r: ExitPlan)
    ensures
        !finalizes(
            process.run_reason,
            process.status,
            process.executor_action.next_action is Some,
        ) ==> r.task_status is None && r.notice is None,
        finalizes(
            process.run_reason,
            process.status,
            process.executor_action.next_action is Some,
        ) ==> r.next_run_reason is None && r.task_status == finalized_status(
            task_status,
            process.status,
        ) && r.notice == notice_of(task_status, process.status),
        !finalizes(
            process.run_reason,
            process.status,
            process.executor_action.next_action is Some,
        ) ==> match process.executor_action.next_action {
            Some(n) => r.next_run_reason == Some(next_reason(process.executor_action.typ@, n.typ@)),
            None => r.next_run_reason is None,
        },
        is_terminal(task_status) ==> r.task_status is None,
{
    if should_finalize(process) {
        let p = finalize_task(task_status, process.status);
        ExitPlan { task_status: p.task_status, notice: p.notice, next_run_reason: None }
    } else {
        ExitPlan { task_status: None, notice: None, next_run_reason: try_start_next_action(process) }
    }
}

/// A notification about a concluded run.
#[derive(Clone, Debug, PartialEq, Eq)]
pub struct Notification {
    pub title: String,
    pub message: String,
}

/// The title of the notification about a concluded run.
pub open spec fn notification_title(task_title: Seq<char>) -> Seq<char> {
    "Task Ready for Testing: "@ + task_title
}

/// The body of the notification about a concluded run; `branch` and `executor` are
/// given as the caller renders them.
pub open spec fn notification_message(
    notice: CompletionNotice,
    task_title: Seq<char>,
    branch: Seq<char>,
    executor: Seq<char>,
) -> Seq<char> {
    match notice {
        CompletionNotice::Completed => "\u{2705} '"@ + task_title
            + "' completed and ready for testing\nBranch: "@ + branch + "\nExecutor: "@
            + executor,
        CompletionNotice::CompletedWithIssues => "\u{26a0}\u{fe0f} '"@ + task_title
            + "' execution completed with issues, ready for testing\nBranch: "@ + branch
            + "\nExecutor: "@ + executor,
    }
}

/// The notification for a concluded run: a check mark when it completed, a warning
/// sign when it failed.
pub fn completion_notification(
    notice: CompletionNotice,
    task_title: &str,
    branch: &str,
    executor: &str,
) -> (r: Notification)
    ensures
        r.title@ == notification_title(task_title@),
        r.message@ == notification_message(notice, task_title@, branch@, executor@),
{
    let title = String::from_str("Task Ready for Testing: ").concat(task_title);
    let head = match notice {
        CompletionNotice::Completed => String::from_str("\u{2705} '").concat(task_title).concat(
            "' completed and ready for testing\nBranch: ",
        ),
        CompletionNotice::CompletedWithIssues => String::from_str("\u{26a0}\u{fe0f} '").concat(
            task_title,
        ).concat("' execution completed with issues, ready for testing\nBranch: "),
    };
    let message = head.concat(branch).concat("\nExecutor: ").concat(executor);
    Notification { title, message }
}

/// Whether the conflicts were resolved, over parallel per-repository flags: some
/// repository had conflicts before, and none of those has conflicts now.
pub open spec fn conflicts_resolved(had_before: Seq<bool>, current: Seq<bool>) -> bool {
    &&& exists|i: int| 0 <= i < had_before.len() && had_before[i]
    &&& forall|i: int| 0 <= i < had_before.len() ==> !had_before[i] || !current[i]
}

/// Whether an agent resolved the conflicts it started with: some repository had
/// conflicts before, and none of those has conflicts now. `false` for no repositories.
pub fn check_conflicts_resolved(had_conflicts_before: &[bool], current_conflicts: &[bool]) -> (r:
    bool)
    requires
        had_conflicts_before.len() == current_conflicts.len(),
    ensures
        r == conflicts_resolved(had_conflicts_before@, current_conflicts@),
{
    let n = had_conflicts_before.len();
    let mut any: bool = false;
    let mut i: usize = 0;
    while i < n
        invariant
            n == had_conflicts_before.len(),
            n == current_conflicts.len(),
            i <= n,
            any <==> exists|j: int| 0 <= j < i && had_conflicts_before@[j],
            forall|j: int| 0 <= j < i ==> !had_conflicts_before@[j] || !current_conflicts@[j],
        decreases n - i,
    {
        if had_conflicts_before[i] {
            if current_conflicts[i] {
                assert(!(forall|j: int|
                    0 <= j < n ==> !had_conflicts_before@[j] || !current_conflicts@[j]));
                return false;
            }
            any = true;
        }
        i += 1;
    }
    any
}

/// A repository has conflicts when a rebase is in progress or some file is conflicted.
pub fn has_conflicts(rebase_in_progress: bool, conflicted_files: &[String]) -> (r: bool)
    ensures
        r == (rebase_in_progress || conflicted_files@.len() > 0),
{
    rebase_in_progress || conflicted_files.len() > 0
}

/// The status a task takes when a process starts for it: InProgress, unless it is
/// already there, the process is a dev server, or the process continues a chain whose
/// earlier step exited without concluding the run.
pub fn start_status_update(
    current: TaskStatus,
    run_reason: ExecutionProcessRunReason,
    continues_chain: bool,
) -> (r: Option<TaskStatus>)
    ensures
        r == (if current != TaskStatus::InProgress && !(run_reason is DevServer)
            && !continues_chain {
            Some(TaskStatus::InProgress)
        } else {
            None
        }),
{
    if current != TaskStatus::InProgress && run_reason != ExecutionProcessRunReason::DevServer
        && !continues_chain {
        Some(TaskStatus::InProgress)
    } else {
        None
    }
}

/// Whether a stop of a workspace kills this process: it must be running, and dev
/// servers are spared unless asked for.
pub fn should_stop(
    status: ExecutionProcessStatus,
    run_reason: ExecutionProcessRunReason,
    include_dev_server: bool,
) -> (r: bool)
    ensures
        r == (status is Running && (include_dev_server || !(run_reason is DevServer))),
{
    status == ExecutionProcessStatus::Running && (include_dev_server || run_reason
        != ExecutionProcessRunReason::DevServer)
}

/// Whether any of the statuses is Running.
pub fn has_running_processes(statuses: &[ExecutionProcessStatus]) -> (r: bool)
    ensures
        r == exists|i: int| 0 <= i < statuses@.len() && statuses@[i] is Running,
{
    let mut i: usize = 0;
    while i < statuses.len()
        invariant
            i <= statuses.len(),
            forall|j: int| 0 <= j < i ==> !(statuses@[j] is Running),
        decreases statuses.len() - i,
    {
        if statuses[i] == ExecutionProcessStatus::Running {
            return true;
        }
        i += 1;
    }
    false
}

/// The prompt that a coding step sends, or `None` for a script.
pub fn coding_prompt(typ: &ExecutorActionType) -> (r: Option<String>)
    ensures
        match typ@ {
            ActionView::Initial { prompt, .. } => r matches Some(p) && p@ == prompt,
            ActionView::FollowUp { prompt, .. } => r matches Some(p) && p@ == prompt,
            ActionView::Script { .. } => r is None,
        },
{
    match typ {
        ExecutorActionType::CodingAgentInitialRequest(c) => Some(c.prompt.clone()),
        ExecutorActionType::CodingAgentFollowUpRequest(c) => Some(c.prompt.clone()),
        ExecutorActionType::ScriptRequest(_) => None,
    }
}

/// Per-repository facts of one process.
#[derive(Clone, Debug, PartialEq, Eq)]
pub struct ExecutionProcessRepoState {
    pub repo_id: u128,
    pub before_head_commit: Option<String>,
    pub after_head_commit: Option<String>,
    pub merge_commit: Option<String>,
    pub had_conflicts_before: bool,
}

impl ExecutionProcessRepoState {
    /// The state captured when a process starts: the current HEAD, if it could be
    /// read, and whether conflicts were present.
    pub fn at_start(
        repo_id: u128,
        head: Option<String>,
        rebase_in_progress: bool,
        conflicted_files: &[String],
    ) -> (r: ExecutionProcessRepoState)
        ensures
            r.repo_id == repo_id,
            r.before_head_commit == head,
            r.after_head_commit is None,
            r.merge_commit is None,
            r.had_conflicts_before == (rebase_in_progress || conflicted_files@.len() > 0),
    {
        ExecutionProcessRepoState {
            repo_id,
            before_head_commit: head,
            after_head_commit: None,
            merge_commit: None,
            had_conflicts_before: has_conflicts(rebase_in_progress, conflicted_files),
        }
    }

    /// Record the HEAD found after the process ended.
    pub fn record_after_head_commit(&mut self, oid: String)
        ensures
            final(self).after_head_commit == Some(oid),
            final(self).repo_id == old(self).repo_id,
            final(self).before_head_commit == old(self).before_head_commit,
            final(self).merge_commit == old(self).merge_commit,
            final(self).had_conflicts_before == old(self).had_conflicts_before,
    {
        self.after_head_commit = Some(oid);
    }

    /// Fill a missing before-commit of a state that has an after-commit: with the
    /// previous process's after-commit, else with the base branch's commit. Any other
    /// state is left as it is.
    pub fn backfill_before_head_commit(
        &mut self,
        previous_after: Option<String>,
        base_branch_oid: Option<String>,
    )
        ensures
            final(self).repo_id == old(self).repo_id,
            final(self).after_head_commit == old(self).after_head_commit,
            final(self).merge_commit == old(self).merge_commit,
            final(self).had_conflicts_before == old(self).had_conflicts_before,
            final(self).before_head_commit == backfilled_before(
                *old(self),
                previous_after,
                base_branch_oid,
            ),
    {
        if self.after_head_commit.is_some() && self.before_head_commit.is_none() {
            self.before_head_commit = match previous_after {
                Some(p) => Some(p),
                None => base_branch_oid,
            };
        }
    }
}

/// The before-commit of a state after the backfill.
pub open spec fn backfilled_before(
    state: ExecutionProcessRepoState,
    previous_after: Option<String>,
    base_branch_oid: Option<String>,
) -> Option<String> {
    if state.after_head_commit is Some && state.before_head_commit is None {
        if previous_after is Some {
            previous_after
        } else {
            base_branch_oid
        }
    } else {
        state.before_head_commit
    }
}

/// After the backfill, every state that has an after-commit has a before-commit,
/// provided the previous process's after-commit or the base branch's commit is known.
pub proof fn lemma_backfill_sets_before(
    state: ExecutionProcessRepoState,
    previous_after: Option<String>,
    base_branch_oid: Option<String>,
)
    requires
        previous_after is Some || base_branch_oid is Some,
    ensures
        state.after_head_commit is Some ==> backfilled_before(
            state,
            previous_after,
            base_branch_oid,
        ) is Some,
{
}

/// What startup recovery does to a process found marked Running.
#[derive(Clone, Copy, Debug, PartialEq, Eq, Structural)]
pub struct OrphanRecovery {
    pub process_status: ExecutionProcessStatus,
    pub exit_code: Option<i64>,
    /// The parent task's new status, if it changes.
    pub task_status: Option<TaskStatus>,
}

/// An orphan is marked Failed without exit code; for agent and script runs its task
/// goes to InReview, while a dev server leaves the task alone.
pub fn recover_orphan(run_reason: ExecutionProcessRunReason) -> (r: OrphanRecovery)
    ensures
        r.process_status is Failed,
        r.exit_code is None,
        r.task_status == if run_reason is DevServer {
            None
        } else {
            Some(TaskStatus::InReview)
        },
{
    let task_status = match run_reason {
        ExecutionProcessRunReason::DevServer => None,
        _ => Some(TaskStatus::InReview),
    };
    OrphanRecovery { process_status: ExecutionProcessStatus::Failed, exit_code: None, task_status }
}

/// A project's settings that startup recovery may fill in.
#[derive(Clone, Debug, PartialEq, Eq)]
pub struct ProjectWorkingDirs {
    pub dev_script: Option<String>,
    pub dev_script_working_dir: Option<String>,
    pub default_agent_working_dir: Option<String>,
}

/// A missing or empty text.
pub open spec fn blank(s: Option<String>) -> bool {
    match s {
        Some(t) => t@.len() == 0,
        None => true,
    }
}

fn is_blank(s: &Option<String>) -> (r: bool)
    ensures
        r == blank(*s),
{
    match s {
        Some(t) => t.as_str().unicode_len() == 0,
        None => true,
    }
}

/// For a project with exactly one repository, fill an empty dev-script working
/// directory (when there is a dev script) and an empty agent working directory with
/// that repository's name. `None` when nothing changes.
pub fn backfill_working_dirs(
    project: &ProjectWorkingDirs,
    repo_name: &String,
    project_repo_count: usize,
) -> (r: Option<ProjectWorkingDirs>)
    ensures
        ({
            let needs_dev = !blank(project.dev_script) && blank(project.dev_script_working_dir);
            let needs_agent = blank(project.default_agent_working_dir);
            if project_repo_count == 1 && (needs_dev || needs_agent) {
                r matches Some(p) && opt_text(p.dev_script) == opt_text(project.dev_script)
                    && opt_text(p.dev_script_working_dir) == (if needs_dev {
                    Some(repo_name@)
                } else {
                    opt_text(project.dev_script_working_dir)
                }) && opt_text(p.default_agent_working_dir) == (if needs_agent {
                    Some(repo_name@)
                } else {
                    opt_text(project.default_agent_working_dir)
                })
            } else {
                r is None
            }
        }),
{
    if project_repo_count != 1 {
        return None;
    }
    let needs_dev = !is_blank(&project.dev_script) && is_blank(&project.dev_script_working_dir);
    let needs_agent = is_blank(&project.default_agent_working_dir);
    if !needs_dev && !needs_agent {
        return None;
    }
    Some(
        ProjectWorkingDirs {
            dev_script: clone_opt_text(&project.dev_script),
            dev_script_working_dir: if needs_dev {
                Some(repo_name.clone())
            } else {
                clone_opt_text(&project.dev_script_working_dir)
            },
            default_agent_working_dir: if needs_agent {
                Some(repo_name.clone())
            } else {
                clone_opt_text(&project.default_agent_working_dir)
            },
        },
    )
}

/// One process to start: its action chain and run reason.
#[derive(Debug, PartialEq, Eq)]
pub struct ExecutionStart {
    pub action: ExecutorAction,
    pub run_reason: ExecutionProcessRunReason,
}

/// Every repository with a setup script runs it in parallel mode.
pub open spec fn all_parallel(repos: Seq<ProjectRepoWithName>) -> bool {
    forall|i: int|
        0 <= i < repos.len() && (#[trigger] repos[i]).setup_script is Some
            ==> repos[i].parallel_setup_script
}

/// A working directory that is given and not empty.
pub open spec fn given_dir(dir: Option<String>) -> Option<Seq<char>> {
    match dir {
        Some(d) => if d@.len() > 0 {
            Some(d@)
        } else {
            None
        },
        None => None,
    }
}

/// The coding run of a new workspace: the initial request, then the cleanup scripts.
pub open spec fn coding_chain(
    prompt: Seq<char>,
    profile: ExecutorProfileId,
    agent_working_dir: Option<String>,
    repos: Seq<ProjectRepoWithName>,
) -> Seq<ActionView> {
    seq![
        ActionView::Initial {
            prompt,
            profile: profile@,
            working_dir: given_dir(agent_working_dir),
        },
    ] + cleanup_steps(repos)
}

/// The processes that start a workspace's first run, in the order they start.
/// When every setup script may run in parallel (also when there is none), each setup
/// script is a process of its own without successor, followed by the coding run.
/// Otherwise one chain runs the setup scripts, then the coding run.
pub fn start_workspace(
    repos: &[ProjectRepoWithName],
    prompt: String,
    executor_profile_id: ExecutorProfileId,
    agent_working_dir: &Option<String>,
) -> (r: Vec<ExecutionStart>)
    ensures
        ({
            let coding = coding_chain(prompt@, executor_profile_id, *agent_working_dir, repos@);
            let setups = setup_steps(repos@);
            if all_parallel(repos@) {
                &&& r@.len() == setups.len() + 1
                &&& forall|i: int|
                    0 <= i < setups.len() ==> (#[trigger] r@[i]).run_reason is SetupScript
                        && r@[i].action@ == seq![setups[i]] && r@[i].action.next_action is None
                &&& r@[setups.len() as int].run_reason is CodingAgent
                &&& r@[setups.len() as int].action@ == coding
            } else {
                &&& r@.len() == 1
                &&& r@[0].run_reason is SetupScript
                &&& r@[0].action@ == setups + coding
            }
        }),
{
    let parallel = check_all_parallel(repos);
    let working_dir = match agent_working_dir {
        Some(d) => if d.as_str().unicode_len() > 0 {
            Some(d.clone())
        } else {
            None
        },
        None => None,
    };
    let cleanup = cleanup_actions_for_repos(repos);
    let cleanup_next = match cleanup {
        Some(c) => Some(Box::new(c)),
        None => None,
    };
    let coding_action = ExecutorAction::new(
        ExecutorActionType::CodingAgentInitialRequest(
            CodingAgentInitialRequest { prompt, executor_profile_id, working_dir },
        ),
        cleanup_next,
    );
    let mut starts: Vec<ExecutionStart> = Vec::new();
    if parallel {
        let mut i: usize = 0;
        while i < repos.len()
            invariant
                i <= repos.len(),
                starts@.len() == setup_steps(repos@.take(i as int)).len(),
                forall|j: int|
                    0 <= j < starts@.len() ==> (#[trigger] starts@[j]).run_reason is SetupScript
                        && starts@[j].action@ == seq![setup_steps(repos@.take(i as int))[j]]
                        && starts@[j].action.next_action is None,
            decreases repos.len() - i,
        {
            let step = setup_action_for_repo(&repos[i]);
            proof {
                assert(repos@.take(i + 1).drop_last() =~= repos@.take(i as int));
            }
            match step {
                Some(a) => {
                    starts.push(ExecutionStart { action: a, run_reason: ExecutionProcessRunReason::SetupScript });
                },
                None => {},
            }
            proof {
                let prev = setup_steps(repos@.take(i as int));
                let cur = setup_steps(repos@.take(i + 1));
                assert forall|j: int| 0 <= j < prev.len() implies cur[j] == prev[j] by {}
            }
            i += 1;
        }
        proof {
            assert(repos@.take(repos.len() as int) =~= repos@);
        }
        starts.push(ExecutionStart { action: coding_action, run_reason: ExecutionProcessRunReason::CodingAgent });
    } else {
        let chain = build_sequential_setup_chain(repos, coding_action);
        starts.push(ExecutionStart { action: chain, run_reason: ExecutionProcessRunReason::SetupScript });
    }
    starts
}

fn check_all_parallel(repos: &[ProjectRepoWithName]) -> (r: bool)
    ensures
        r == all_parallel(repos@),
{
    let mut i: usize = 0;
    while i < repos.len()
        invariant
            i <= repos.len(),
            forall|j: int|
                0 <= j < i && (#[trigger] repos@[j]).setup_script is Some
                    ==> repos@[j].parallel_setup_script,
        decreases repos.len() - i,
    {
        if repos[i].setup_script.is_some() && !repos[i].parallel_setup_script {
            return false;
        }
        i += 1;
    }
    true
}

/// In parallel mode no setup process concludes the task's run, whatever its outcome:
/// only the coding run and its chain can.
pub proof fn lemma_parallel_setups_never_finalize(
    repos: Seq<ProjectRepoWithName>,
    starts: Seq<ExecutionStart>,
    i: int,
    status: ExecutionProcessStatus,
)
    requires
        all_parallel(repos),
        starts.len() == setup_steps(repos).len() + 1,
        forall|j: int|
            0 <= j < setup_steps(repos).len() ==> (#[trigger] starts[j]).run_reason is SetupScript
                && starts[j].action.next_action is None,
        0 <= i < setup_steps(repos).len(),
    ensures
        !finalizes(starts[i].run_reason, status, starts[i].action.next_action is Some),
{
    assert(starts[i].run_reason is SetupScript);
}

/// The branch name of a workspace: `<short id>-<title id>`, under `<prefix>/` when a
/// prefix is configured.
pub fn git_branch_name(prefix: &str, short_id: &str, title_id: &str) -> (r: String)
    ensures
        r@ == if prefix@.len() == 0 {
            short_id@ + "-"@ + title_id@
        } else {
            prefix@ + "/"@ + short_id@ + "-"@ + title_id@
        },
{
    if prefix.unicode_len() == 0 {
        short_id.to_owned().concat("-").concat(title_id)
    } else {
        prefix.to_owned().concat("/").concat(short_id).concat("-").concat(title_id)
    }
}

/// What was found in one repository of the workspace when a process starts.
#[derive(Clone, Debug, PartialEq, Eq)]
pub struct RepoProbe {
    pub repo_id: u128,
    /// The current HEAD, when it could be read.
    pub head: Option<String>,
    pub rebase_in_progress: bool,
    pub conflicted_files: Vec<String>,
}

/// Why a process could not be created.
#[derive(Clone, Copy, Debug, PartialEq, Eq, Structural)]
pub enum StartExecutionError {
    /// The workspace has no repositories configured.
    NoRepositories,
}

impl StartExecutionError {
    /// A sentence for the caller.
    pub fn message(&self) -> (r: &'static str)
        ensures
            r@ == "Workspace has no repositories configured"@,
    {
        "Workspace has no repositories configured"
    }
}

/// What is recorded when a process is created.
#[derive(Clone, Debug, PartialEq, Eq)]
pub struct StartRecord {
    /// One state per repository, in the order of the probes.
    pub repo_states: Vec<ExecutionProcessRepoState>,
    /// The prompt of the coding turn, for a coding step.
    pub coding_prompt: Option<String>,
}

/// What starting a process does before it is spawned.
#[derive(Debug, PartialEq, Eq)]
pub struct StartPlan {
    /// The task's new status, if it changes; applied first, whatever follows.
    pub task_status: Option<TaskStatus>,
    /// The records of the new process, or why it cannot be created.
    pub record: Result<StartRecord, StartExecutionError>,
}

/// Start a process for `action` on a task in `task_status`: the task status update of
/// `start_status_update`, then the before-state of every repository and, for a coding
/// step, its prompt. The records are refused when the workspace has no repository.
pub fn start_execution(
    task_status: TaskStatus,
    run_reason: ExecutionProcessRunReason,
    continues_chain: bool,
    action: &ExecutorAction,
    probes: &[RepoProbe],
) -> (r: StartPlan)
    ensures
        r.task_status == (if task_status != TaskStatus::InProgress && !(run_reason is DevServer)
            && !continues_chain {
            Some(TaskStatus::InProgress)
        } else {
            None
        }),
        probes@.len() == 0 <==> r.record is Err,
        r.record matches Ok(rec) ==> {
            &&& rec.repo_states@.len() == probes@.len()
            &&& forall|i: int|
                0 <= i < probes@.len() ==> {
                    let st = #[trigger] rec.repo_states@[i];
                    &&& st.repo_id == probes@[i].repo_id
                    &&& opt_text(st.before_head_commit) == opt_text(probes@[i].head)
                    &&& st.after_head_commit is None
                    &&& st.merge_commit is None
                    &&& st.had_conflicts_before == (probes@[i].rebase_in_progress
                        || probes@[i].conflicted_files@.len() > 0)
                }
            &&& match action.typ@ {
                ActionView::Initial { prompt, .. } => rec.coding_prompt matches Some(p) && p@ == prompt,
                ActionView::FollowUp { prompt, .. } => rec.coding_prompt matches Some(p) && p@ == prompt,
                ActionView::Script { .. } => rec.coding_prompt is None,
            }
        },
{
    let task_update = start_status_update(task_status, run_reason, continues_chain);
    if probes.len() == 0 {
        return StartPlan { task_status: task_update, record: Err(StartExecutionError::NoRepositories) };
    }
    let mut repo_states: Vec<ExecutionProcessRepoState> = Vec::new();
    let mut i: usize = 0;
    while i < probes.len()
        invariant
            i <= probes@.len(),
            repo_states@.len() == i,
            forall|j: int|
                0 <= j < i ==> {
                    let st = #[trigger] repo_states@[j];
                    &&& st.repo_id == probes@[j].repo_id
                    &&& opt_text(st.before_head_commit) == opt_text(probes@[j].head)
                    &&& st.after_head_commit is None
                    &&& st.merge_commit is None
                    &&& st.had_conflicts_before == (probes@[j].rebase_in_progress
                        || probes@[j].conflicted_files@.len() > 0)
                },
        decreases probes@.len() - i,
    {
        let p = &probes[i];
        let head = clone_opt_text(&p.head);
        repo_states.push(
            ExecutionProcessRepoState::at_start(
                p.repo_id,
                head,
                p.rebase_in_progress,
                p.conflicted_files.as_slice(),
            ),
        );
        i += 1;
    }
    StartPlan {
        task_status: task_update,
        record: Ok(StartRecord { repo_states, coding_prompt: coding_prompt(&action.typ) }),
    }
}

/// Conclude a start once the spawn was tried: nothing more when it succeeded. When it
/// failed, the process is marked Failed without exit code, the task goes to InReview,
/// the log gets the failure on standard error and, for a missing executable, a
/// setup-required error entry at conversation position 2; the caller returns the
/// spawn's error.
pub fn conclude_start(spawn_result: &Result<(), StartError>) -> (r: Option<StartFailure>)
    ensures
        spawn_result is Ok <==> r is None,
        r matches Some(f) ==> {
            let error = spawn_result->Err_0;
            &&& f.process_status is Failed
            &&& f.exit_code is None
            &&& f.task_status == TaskStatus::InReview
            &&& f.log@.len() >= 1
            &&& f.log@[0]@ == LogView::Stderr(
                "Failed to start execution: "@ + describe_start_error(error),
            )
            &&& match error {
                StartError::ExecutableNotFound { program } => f.log@.len() == 2 && f.log@[1]@
                    == LogView::JsonPatch {
                    index: 2,
                    timestamp: None,
                    entry_type: NormalizedEntryType::ErrorMessage {
                        error_type: NormalizedEntryError::SetupRequired,
                    },
                    content: missing_executable_help(program@),
                },
                StartError::Other { .. } => f.log@.len() == 1,
            }
        },
{
    match spawn_result {
        Ok(()) => None,
        Err(e) => Some(start_failure(e)),
    }
}

} // verus!
