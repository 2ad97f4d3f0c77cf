use vstd::prelude::*;

use crate::config::opt_text;

verus! {

/// The coding-agent families the platform can run.
#[derive(Clone, Copy, Debug, PartialEq, Eq, Structural)]
pub enum BaseCodingAgent {
    ClaudeCode,
    Amp,
    Gemini,
    Codex,
    Opencode,
    CursorAgent,
    QwenCode,
    Copilot,
    Droid,
    CustomAgent,
}

/// Which agent, and which of its configured variants, runs a coding request.
#[derive(Clone, Debug, PartialEq, Eq)]
pub struct ExecutorProfileId {
    pub executor: BaseCodingAgent,
    pub variant: Option<String>,
}

/// A profile as plain values.
pub struct ProfileView {
    pub executor: BaseCodingAgent,
    pub variant: Option<Seq<char>>,
}

impl View for ExecutorProfileId {
    type V = ProfileView;

    open spec fn view(&self) -> ProfileView {
        ProfileView { executor: self.executor, variant: opt_text(self.variant) }
    }
}

fn clone_text(s: &String) -> (r: String)
    ensures
        r@ == s@,
{
    s.clone()
}

pub(crate) fn clone_opt_text(s: &Option<String>) -> (r: Option<String>)
    ensures
        opt_text(r) == opt_text(*s),
{
    match s {
        Some(t) => Some(clone_text(t)),
        None => None,
    }
}

/// What a script runs for.
#[derive(Clone, Copy, Debug, PartialEq, Eq, Structural)]
pub enum ScriptContext {
    SetupScript,
    CleanupScript,
    DevServer,
}

/// The interpreter of a script.
#[derive(Clone, Copy, Debug, PartialEq, Eq, Structural)]
pub enum ScriptRequestLanguage {
    Bash,
}

/// A script to run in one repository of a workspace.
#[derive(Clone, Debug, PartialEq, Eq)]
pub struct ScriptRequest {
    pub script: String,
    pub language: ScriptRequestLanguage,
    pub context: ScriptContext,
    pub working_dir: Option<String>,
}

/// The first prompt of a coding agent in a session.
#[derive(Clone, Debug, PartialEq, Eq)]
pub struct CodingAgentInitialRequest {
    pub prompt: String,
    pub executor_profile_id: ExecutorProfileId,
    pub working_dir: Option<String>,
}

/// A further prompt that resumes an agent session.
#[derive(Clone, Debug, PartialEq, Eq)]
pub struct CodingAgentFollowUpRequest {
    pub prompt: String,
    pub session_id: String,
    pub executor_profile_id: ExecutorProfileId,
    pub working_dir: Option<String>,
}

/// One step of an action chain.
#[derive(Clone, Debug, PartialEq, Eq)]
pub enum ExecutorActionType {
    CodingAgentInitialRequest(CodingAgentInitialRequest),
    CodingAgentFollowUpRequest(CodingAgentFollowUpRequest),
    ScriptRequest(ScriptRequest),
}

/// One step of an action chain as plain values.
pub enum ActionView {
    Script { script: Seq<char>, context: ScriptContext, working_dir: Option<Seq<char>> },
    Initial { prompt: Seq<char>, profile: ProfileView, working_dir: Option<Seq<char>> },
    FollowUp {
        prompt: Seq<char>,
        session_id: Seq<char>,
        profile: ProfileView,
        working_dir: Option<Seq<char>>,
    },
}

impl View for ExecutorActionType {
    type V = ActionView;

    open spec fn view(&self) -> ActionView {
        match self {
            ExecutorActionType::ScriptRequest(s) => ActionView::Script {
                script: s.script@,
                context: s.context,
                working_dir: opt_text(s.working_dir),
            },
            ExecutorActionType::CodingAgentInitialRequest(c) => ActionView::Initial {
                prompt: c.prompt@,
                profile: c.executor_profile_id@,
                working_dir: opt_text(c.working_dir),
            },
            ExecutorActionType::CodingAgentFollowUpRequest(c) => ActionView::FollowUp {
                prompt: c.prompt@,
                session_id: c.session_id@,
                profile: c.executor_profile_id@,
                working_dir: opt_text(c.working_dir),
            },
        }
    }
}

/// A node of a singly linked chain of actions run one after another.
#[derive(Debug, PartialEq, Eq)]
pub struct ExecutorAction {
    pub typ: ExecutorActionType,
    pub next_action: Option<Box<ExecutorAction>>,
}

impl ExecutorAction {
    /// The steps of the chain from this node on, in order.
    pub open spec fn chain(&self) -> Seq<ActionView>
        decreases self,
    {
        match &self.next_action {
            Some(next) => seq![self.typ@] + next.chain(),
            None => seq![self.typ@],
        }
    }
}

impl View for ExecutorAction {
    type V = Seq<ActionView>;

    open spec fn view(&self) -> Seq<ActionView> {
        self.chain()
    }
}

/// The steps of an optional chain.
pub open spec fn opt_chain(a: Option<Box<ExecutorAction>>) -> Seq<ActionView> {
    match a {
        Some(n) => n@,
        None => Seq::empty(),
    }
}

impl ExecutorAction {
    /// A node that runs `typ`, then the optional rest of the chain.
    pub fn new(typ: ExecutorActionType, next_action: Option<Box<ExecutorAction>>) -> (r:
        ExecutorAction)
        ensures
            r@ == seq![typ@] + opt_chain(next_action),
            r.typ == typ,
            r.next_action == next_action,
    {
        let r = ExecutorAction { typ, next_action };
        proof {
            if r.next_action is None {
                assert(seq![r.typ@] + Seq::<ActionView>::empty() =~= seq![r.typ@]);
            }
        }
        r
    }

    /// The step this node runs.
    pub fn typ(&self) -> (r: &ExecutorActionType)
        ensures
            *r == self.typ,
    {
        &self.typ
    }

    /// The rest of the chain, if any.
    pub fn next_action(&self) -> (r: Option<&ExecutorAction>)
        ensures
            match self.next_action {
                Some(n) => r == Some(&*n),
                None => r is None,
            },
    {
        match &self.next_action {
            Some(n) => Some(&**n),
            None => None,
        }
    }

    /// The chain with `action` (and whatever follows it) appended at its end.
    pub fn append_action(self, action: ExecutorAction) -> (r: ExecutorAction)
        ensures
            r@ == self@ + action@,
        decreases self,
    {
        let ExecutorAction { typ, next_action } = self;
        match next_action {
            Some(next) => {
                let rest = (*next).append_action(action);
                let r = ExecutorAction { typ, next_action: Some(Box::new(rest)) };
                proof {
                    assert(seq![typ@] + (next@ + action@) =~= (seq![typ@] + next@) + action@);
                }
                r
            },
            None => ExecutorAction { typ, next_action: Some(Box::new(action)) },
        }
    }
}

/// A repository of a project, with the scripts that run in its worktree.
#[derive(Clone, Debug, PartialEq, Eq)]
pub struct ProjectRepoWithName {
    pub repo_name: String,
    pub setup_script: Option<String>,
    pub cleanup_script: Option<String>,
    pub parallel_setup_script: bool,
}

/// The script step for one repository.
pub open spec fn script_step(script: Seq<char>, context: ScriptContext, repo_name: Seq<char>) -> ActionView {
    ActionView::Script { script, context, working_dir: Some(repo_name) }
}

/// The setup steps of `repos`, one per repository with a setup script, in order.
pub open spec fn setup_steps(repos: Seq<ProjectRepoWithName>) -> Seq<ActionView>
    decreases repos.len(),
{
    if repos.len() == 0 {
        Seq::empty()
    } else {
        let last = repos.last();
        let head = setup_steps(repos.drop_last());
        match last.setup_script {
            Some(s) => head.push(script_step(s@, ScriptContext::SetupScript, last.repo_name@)),
            None => head,
        }
    }
}

/// The cleanup steps of `repos`, one per repository with a cleanup script, in order.
pub open spec fn cleanup_steps(repos: Seq<ProjectRepoWithName>) -> Seq<ActionView>
    decreases repos.len(),
{
    if repos.len() == 0 {
        Seq::empty()
    } else {
        let last = repos.last();
        let head = cleanup_steps(repos.drop_last());
        match last.cleanup_script {
            Some(s) => head.push(script_step(s@, ScriptContext::CleanupScript, last.repo_name@)),
            None => head,
        }
    }
}

fn script_action(script: &String, context: ScriptContext, repo_name: &String) -> (r:
    ExecutorAction)
    ensures
        r@ == seq![script_step(script@, context, repo_name@)],
        r.next_action is None,
{
    ExecutorAction::new(
        ExecutorActionType::ScriptRequest(
            ScriptRequest {
                script: clone_text(script),
                language: ScriptRequestLanguage::Bash,
                context,
                working_dir: Some(clone_text(repo_name)),
            },
        ),
        None,
    )
}

/// Append an optional step to an optional chain.
fn extend_chain(chain: Option<ExecutorAction>, step: Option<ExecutorAction>) -> (r: Option<
    ExecutorAction,
>)
    ensures
        opt_steps(r) == opt_steps(chain) + opt_steps(step),
{
    match (chain, step) {
        (Some(c), Some(s)) => Some(c.append_action(s)),
        (Some(c), None) => {
            assert(c@ + Seq::<ActionView>::empty() =~= c@);
            Some(c)
        },
        (None, s) => {
            assert(Seq::<ActionView>::empty() + opt_steps(s) =~= opt_steps(s));
            s
        },
    }
}

/// The steps of an optional chain that is held by value.
pub open spec fn opt_steps(a: Option<ExecutorAction>) -> Seq<ActionView> {
    match a {
        Some(n) => n@,
        None => Seq::empty(),
    }
}

/// The setup script of one repository as a single action, if it has one.
pub fn setup_action_for_repo(repo: &ProjectRepoWithName) -> (r: Option<ExecutorAction>)
    ensures
        match repo.setup_script {
            Some(s) => r matches Some(a) && a@ == seq![
                script_step(s@, ScriptContext::SetupScript, repo.repo_name@),
            ] && a.next_action is None,
            None => r is None,
        },
{
    match &repo.setup_script {
        Some(script) => Some(script_action(script, ScriptContext::SetupScript, &repo.repo_name)),
        None => None,
    }
}

/// One chain of the setup scripts of all repositories that have one, in repository
/// order; `None` when no repository has a setup script.
pub fn setup_actions_for_repos(repos: &[ProjectRepoWithName]) -> (r: Option<ExecutorAction>)
    ensures
        opt_steps(r) == setup_steps(repos@),
        r is None <==> setup_steps(repos@).len() == 0,
{
    let mut chain: Option<ExecutorAction> = None;
    let mut i: usize = 0;
    while i < repos.len()
        invariant
            i <= repos.len(),
            opt_steps(chain) == setup_steps(repos@.take(i as int)),
            chain is Some ==> opt_steps(chain).len() > 0,
        decreases repos.len() - i,
    {
        let repo = &repos[i];
        let step = match &repo.setup_script {
            Some(script) => Some(script_action(script, ScriptContext::SetupScript, &repo.repo_name)),
            None => None,
        };
        chain = extend_chain(chain, step);
        proof {
            assert(repos@.take(i + 1).drop_last() =~= repos@.take(i as int));
            if repo.setup_script is Some {
                assert(setup_steps(repos@.take(i as int)) + opt_steps(step) =~= setup_steps(
                    repos@.take(i as int),
                ).push(opt_steps(step)[0]));
            } else {
                assert(setup_steps(repos@.take(i as int)) + opt_steps(step) =~= setup_steps(
                    repos@.take(i as int),
                ));
            }
        }
        i += 1;
    }
    proof {
        assert(repos@.take(repos.len() as int) =~= repos@);
    }
    chain
}

/// One chain of the cleanup scripts of all repositories that have one, in repository
/// order; `None` when no repository has a cleanup script.
pub fn cleanup_actions_for_repos(repos: &[ProjectRepoWithName]) -> (r: Option<ExecutorAction>)
    ensures
        opt_steps(r) == cleanup_steps(repos@),
        r is None <==> cleanup_steps(repos@).len() == 0,
{
    let mut chain: Option<ExecutorAction> = None;
    let mut i: usize = 0;
    while i < repos.len()
        invariant
            i <= repos.len(),
            opt_steps(chain) == cleanup_steps(repos@.take(i as int)),
            chain is Some ==> opt_steps(chain).len() > 0,
        decreases repos.len() - i,
    {
        let repo = &repos[i];
        let step = match &repo.cleanup_script {
            Some(script) => Some(
                script_action(script, ScriptContext::CleanupScript, &repo.repo_name),
            ),
            None => None,
        };
        chain = extend_chain(chain, step);
        proof {
            assert(repos@.take(i + 1).drop_last() =~= repos@.take(i as int));
            if repo.cleanup_script is Some {
                assert(cleanup_steps(repos@.take(i as int)) + opt_steps(step) =~= cleanup_steps(
                    repos@.take(i as int),
                ).push(opt_steps(step)[0]));
            } else {
                assert(cleanup_steps(repos@.take(i as int)) + opt_steps(step) =~= cleanup_steps(
                    repos@.take(i as int),
                ));
            }
        }
        i += 1;
    }
    proof {
        assert(repos@.take(repos.len() as int) =~= repos@);
    }
    chain
}

/// The setup scripts of `repos`, in order, placed in front of `next_action`.
pub fn build_sequential_setup_chain(
    repos: &[ProjectRepoWithName],
    next_action: ExecutorAction,
) -> (r: ExecutorAction)
    ensures
        r@ == setup_steps(repos@) + next_action@,
{
    match setup_actions_for_repos(repos) {
        Some(chain) => chain.append_action(next_action),
        None => {
            assert(Seq::<ActionView>::empty() + next_action@ =~= next_action@);
            next_action
        },
    }
}

} // verus!
