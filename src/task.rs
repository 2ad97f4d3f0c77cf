use vstd::prelude::*;

use crate::config::WorkflowConfig;
use crate::task::TaskStatus::{Cancelled, Done, HumanReview, InProgress, InReview, Testing, Todo};

verus! {

/// Status of a task in the review workflow.
#[derive(Clone, Copy, Debug, PartialEq, Eq, Structural)]
pub enum TaskStatus {
    Todo,
    InProgress,
    Testing,
    InReview,
    HumanReview,
    Done,
    Cancelled,
}

/// A status from which no other status can be reached.
pub open spec fn is_terminal(s: TaskStatus) -> bool {
    s is Done || s is Cancelled
}

/// The transition table of the workflow, gated by the two project policies.
pub open spec fn transition_allowed(
    from: TaskStatus,
    to: TaskStatus,
    enable_human_review: bool,
    testing_requires_manual_exit: bool,
) -> bool {
    if from == to {
        true
    } else {
        match (from, to) {
            (Todo, InProgress) | (Todo, Cancelled) => true,
            (InProgress, Testing) | (InProgress, Done) | (InProgress, Cancelled) => true,
            (InProgress, InReview) => !testing_requires_manual_exit,
            (Testing, InReview) | (Testing, InProgress) | (Testing, Done) | (
                Testing,
                Cancelled,
            ) => true,
            (InReview, Done) | (InReview, Cancelled) => true,
            (InReview, HumanReview) => enable_human_review,
            (HumanReview, Done) | (HumanReview, InProgress) | (HumanReview, Cancelled) => true,
            _ => false,
        }
    }
}

/// Human review is off unless a configuration turns it on.
pub open spec fn human_review_of(config: Option<&WorkflowConfig>) -> bool {
    match config {
        Some(c) => c.enable_human_review,
        None => false,
    }
}

/// Testing must be left by hand unless a configuration says otherwise.
pub open spec fn manual_exit_of(config: Option<&WorkflowConfig>) -> bool {
    match config {
        Some(c) => c.testing_requires_manual_exit,
        None => true,
    }
}

/// The reason given for a refused transition.
pub open spec fn rejection_reason(
    from: TaskStatus,
    to: TaskStatus,
    enable_human_review: bool,
    testing_requires_manual_exit: bool,
) -> Seq<char> {
    match (from, to) {
        (InReview, HumanReview) => "Human Review is not enabled for this project"@,
        (InProgress, InReview) => "Testing phase requires manual exit - tasks must go through Testing before AI Review"@,
        (InReview, InProgress) => "Use AI review result handler instead"@,
        (_, Testing) => "Only InProgress tasks can enter Testing"@,
        (_, HumanReview) => "Only InReview tasks can enter Human Review"@,
        (Todo, _) => "Tasks must start in InProgress"@,
        (_, Todo) => "Cannot transition to Todo status"@,
        (Done, _) => "Cannot transition from Done"@,
        (Cancelled, _) => "Cannot transition from Cancelled"@,
        _ => "Invalid status transition"@,
    }
}

/// Check a status change against the workflow table and the project's policy.
/// Without a configuration, human review is disabled and testing requires a manual exit.
pub fn validate_status_transition(
    from: TaskStatus,
    to: TaskStatus,
    config: Option<&WorkflowConfig>,
) -> (r: Result<(), &'static str>)
    ensures
        r is Ok <==> transition_allowed(
            from,
            to,
            human_review_of(config),
            manual_exit_of(config),
        ),
        r matches Err(m) ==> m@ == rejection_reason(
            from,
            to,
            human_review_of(config),
            manual_exit_of(config),
        ),
{
    if from == to {
        return Ok(());
    }
    let enable_human_review = match config {
        Some(c) => c.enable_human_review,
        None => false,
    };
    let testing_requires_manual_exit = match config {
        Some(c) => c.testing_requires_manual_exit,
        None => true,
    };
    match (from, to) {
        (Todo, InProgress) => Ok(()),
        (InProgress, Testing) => Ok(()),
        (Testing, InReview) => Ok(()),
        (Testing, InProgress) => Ok(()),
        (Testing, Done) => Ok(()),
        (Testing, Cancelled) => Ok(()),
        (InReview, Done) => Ok(()),
        (InReview, Cancelled) => Ok(()),
        (HumanReview, Done) => Ok(()),
        (HumanReview, InProgress) => Ok(()),
        (HumanReview, Cancelled) => Ok(()),
        (InProgress, Done) => Ok(()),
        (InProgress, Cancelled) => Ok(()),
        (Todo, Cancelled) => Ok(()),
        (InReview, HumanReview) => {
            if enable_human_review {
                Ok(())
            } else {
                Err("Human Review is not enabled for this project")
            }
        },
        (InProgress, InReview) => {
            if testing_requires_manual_exit {
                Err(
                    "Testing phase requires manual exit - tasks must go through Testing before AI Review",
                )
            } else {
                Ok(())
            }
        },
        (InReview, InProgress) => Err("Use AI review result handler instead"),
        (_, Testing) => Err("Only InProgress tasks can enter Testing"),
        (_, HumanReview) => Err("Only InReview tasks can enter Human Review"),
        (Todo, _) => Err("Tasks must start in InProgress"),
        (_, Todo) => Err("Cannot transition to Todo status"),
        (Done, _) => Err("Cannot transition from Done"),
        (Cancelled, _) => Err("Cannot transition from Cancelled"),
        _ => Err("Invalid status transition"),
    }
}

/// Done and Cancelled are final: the table allows no move out of them.
pub proof fn lemma_terminal_states_are_final(
    from: TaskStatus,
    to: TaskStatus,
    enable_human_review: bool,
    testing_requires_manual_exit: bool,
)
    requires
        is_terminal(from),
        to != from,
    ensures
        !transition_allowed(from, to, enable_human_review, testing_requires_manual_exit),
{
}

/// While testing requires a manual exit, InProgress never moves straight to InReview.
pub proof fn lemma_manual_exit_blocks_review_bypass(enable_human_review: bool)
    ensures
        !transition_allowed(TaskStatus::InProgress, TaskStatus::InReview, enable_human_review, true),
{
}

/// While human review is disabled, InReview never moves to HumanReview.
pub proof fn lemma_human_review_needs_enablement(testing_requires_manual_exit: bool)
    ensures
        !transition_allowed(
            TaskStatus::InReview,
            TaskStatus::HumanReview,
            false,
            testing_requires_manual_exit,
        ),
{
}

/// The outcome of an AI review of a task.
#[derive(Clone, Debug, PartialEq, Eq)]
pub enum AIReviewResult {
    /// The review passed; the task can proceed.
    Pass,
    /// The review failed with these issues; the task needs revisions.
    Fail { issues: Vec<String> },
    /// The review could not decide; a human has to intervene.
    NeedsIntervention,
}

/// A task as the workflow reads it.
#[derive(Clone, Debug, PartialEq, Eq)]
pub struct Task {
    pub id: u128,
    pub project_id: u128,
    pub title: String,
    pub status: TaskStatus,
}

/// A new task to create.
#[derive(Clone, Debug, PartialEq, Eq)]
pub struct CreateTask {
    pub project_id: u128,
    pub title: String,
    pub description: Option<String>,
    pub status: TaskStatus,
}

/// What handling a review result does.
#[derive(Clone, Debug, PartialEq, Eq)]
pub struct ReviewOutcome {
    /// The task's new status, or `None` when it stays where it is.
    pub new_status: Option<TaskStatus>,
    /// Follow-up tasks to create, one per issue.
    pub subtasks: Vec<CreateTask>,
    /// The status the task has after the handling.
    pub status: TaskStatus,
}

/// The title of the follow-up task for one review issue.
pub open spec fn fix_title(issue: Seq<char>) -> Seq<char> {
    "Fix: "@ + issue
}

/// The description of the follow-up task for one review issue.
pub open spec fn fix_description(issue: Seq<char>) -> Seq<char> {
    "AI Review issue: "@ + issue
}

/// The follow-up task for one review issue of a task in `project_id`.
pub fn review_feedback_subtask(project_id: u128, issue: &String) -> (r: CreateTask)
    ensures
        r.project_id == project_id,
        r.title@ == fix_title(issue@),
        r.description matches Some(d) && d@ == fix_description(issue@),
        r.status == TaskStatus::Todo,
{
    let title = String::from_str("Fix: ").concat(issue.as_str());
    let description = String::from_str("AI Review issue: ").concat(issue.as_str());
    CreateTask { project_id, title, description: Some(description), status: TaskStatus::Todo }
}

/// One Todo follow-up task per issue, in order, all in `project_id`.
pub fn create_review_feedback_subtasks(project_id: u128, issues: &Vec<String>) -> (r: Vec<
    CreateTask,
>)
    ensures
        r@.len() == issues@.len(),
        forall|i: int|
            0 <= i < issues@.len() ==> (#[trigger] r@[i]).project_id == project_id
                && r@[i].title@ == fix_title(issues@[i]@) && r@[i].status == TaskStatus::Todo
                && (r@[i].description matches Some(d) && d@ == fix_description(issues@[i]@)),
{
    let mut r: Vec<CreateTask> = Vec::new();
    let mut i: usize = 0;
    while i < issues.len()
        invariant
            i <= issues@.len(),
            r@.len() == i,
            forall|j: int|
                0 <= j < i ==> (#[trigger] r@[j]).project_id == project_id && r@[j].title@
                    == fix_title(issues@[j]@) && r@[j].status == TaskStatus::Todo
                    && (r@[j].description matches Some(d) && d@ == fix_description(issues@[j]@)),
        decreases issues@.len() - i,
    {
        r.push(review_feedback_subtask(project_id, &issues[i]));
        i += 1;
    }
    r
}

/// Handle an AI review result for `task`: a pass moves it to HumanReview when the
/// project enables human review and to Done otherwise; a failure creates one Todo
/// task "Fix: <issue>" per issue in the same project and moves the task back to
/// InProgress; a call for intervention leaves it in InReview. A Done or Cancelled
/// task is left as it is, with no follow-up tasks, whatever the result.
pub fn handle_ai_review_result(task: &Task, result: AIReviewResult, config: &WorkflowConfig) -> (r:
    ReviewOutcome)
    ensures
        is_terminal(task.status) ==> r.new_status is None && r.status == task.status
            && r.subtasks@.len() == 0,
        !is_terminal(task.status) ==> match result {
            AIReviewResult::Pass => {
                let s = if config.enable_human_review {
                    TaskStatus::HumanReview
                } else {
                    TaskStatus::Done
                };
                r.new_status == Some(s) && r.status == s && r.subtasks@.len() == 0
            },
            AIReviewResult::Fail { issues } => {
                &&& r.new_status == Some(TaskStatus::InProgress)
                &&& r.status == TaskStatus::InProgress
                &&& r.subtasks@.len() == issues@.len()
                &&& forall|i: int|
                    0 <= i < issues@.len() ==> (#[trigger] r.subtasks@[i]).project_id
                        == task.project_id && r.subtasks@[i].title@ == fix_title(issues@[i]@)
                        && r.subtasks@[i].status == TaskStatus::Todo && (r.subtasks@[i].description matches Some(
                        d,
                    ) && d@ == fix_description(issues@[i]@))
            },
            AIReviewResult::NeedsIntervention => {
                r.new_status is None && r.status == TaskStatus::InReview && r.subtasks@.len() == 0
            },
        },
{
    if task.status == TaskStatus::Done || task.status == TaskStatus::Cancelled {
        return ReviewOutcome { new_status: None, subtasks: Vec::new(), status: task.status };
    }
    match result {
        AIReviewResult::Pass => {
            let s = if config.enable_human_review {
                TaskStatus::HumanReview
            } else {
                TaskStatus::Done
            };
            ReviewOutcome { new_status: Some(s), subtasks: Vec::new(), status: s }
        },
        AIReviewResult::Fail { issues } => {
            let subtasks = create_review_feedback_subtasks(task.project_id, &issues);
            ReviewOutcome {
                new_status: Some(TaskStatus::InProgress),
                subtasks,
                status: TaskStatus::InProgress,
            }
        },
        AIReviewResult::NeedsIntervention => ReviewOutcome {
            new_status: None,
            subtasks: Vec::new(),
            status: TaskStatus::InReview,
        },
    }
}

/// Leave Testing for AI review: the move to InReview is checked against the project's
/// policy, and the new status is returned.
pub fn complete_testing(current: TaskStatus, config: &WorkflowConfig) -> (r: Result<
    TaskStatus,
    &'static str,
>)
    ensures
        r is Ok <==> transition_allowed(
            current,
            TaskStatus::InReview,
            config.enable_human_review,
            config.testing_requires_manual_exit,
        ),
        r matches Ok(s) ==> s == TaskStatus::InReview,
        r matches Err(m) ==> m@ == rejection_reason(
            current,
            TaskStatus::InReview,
            config.enable_human_review,
            config.testing_requires_manual_exit,
        ),
{
    match validate_status_transition(current, TaskStatus::InReview, Some(config)) {
        Ok(()) => Ok(TaskStatus::InReview),
        Err(m) => Err(m),
    }
}

/// Approve a task in human review: the move to Done is checked and the new status
/// returned.
pub fn approve_human_review(current: TaskStatus, config: &WorkflowConfig) -> (r: Result<
    TaskStatus,
    &'static str,
>)
    ensures
        r is Ok <==> transition_allowed(
            current,
            TaskStatus::Done,
            config.enable_human_review,
            config.testing_requires_manual_exit,
        ),
        r matches Ok(s) ==> s == TaskStatus::Done,
        r matches Err(m) ==> m@ == rejection_reason(
            current,
            TaskStatus::Done,
            config.enable_human_review,
            config.testing_requires_manual_exit,
        ),
{
    match validate_status_transition(current, TaskStatus::Done, Some(config)) {
        Ok(()) => Ok(TaskStatus::Done),
        Err(m) => Err(m),
    }
}

/// Reject a task in human review: the move back to InProgress is checked and the new
/// status returned.
pub fn reject_human_review(current: TaskStatus, config: &WorkflowConfig) -> (r: Result<
    TaskStatus,
    &'static str,
>)
    ensures
        r is Ok <==> transition_allowed(
            current,
            TaskStatus::InProgress,
            config.enable_human_review,
            config.testing_requires_manual_exit,
        ),
        r matches Ok(s) ==> s == TaskStatus::InProgress,
        r matches Err(m) ==> m@ == rejection_reason(
            current,
            TaskStatus::InProgress,
            config.enable_human_review,
            config.testing_requires_manual_exit,
        ),
{
    match validate_status_transition(current, TaskStatus::InProgress, Some(config)) {
        Ok(()) => Ok(TaskStatus::InProgress),
        Err(m) => Err(m),
    }
}

} // verus!
