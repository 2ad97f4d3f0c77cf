use vstd::prelude::*;

use crate::action::{BaseCodingAgent, ExecutorProfileId};

verus! {

/// Smallest accepted ceiling on AI review rounds.
pub const MIN_AI_REVIEW_ITERATIONS: u32 = 1;

/// Largest accepted ceiling on AI review rounds.
pub const MAX_AI_REVIEW_ITERATIONS: u32 = 50;

/// Human review is off by default.
pub fn default_enable_human_review() -> (r: bool)
    ensures
        !r,
{
    false
}

/// Three AI review rounds by default.
pub fn default_max_ai_review_iterations() -> (r: u32)
    ensures
        r == 3,
{
    3
}

/// Testing is left by hand by default.
pub fn default_testing_requires_manual_exit() -> (r: bool)
    ensures
        r,
{
    true
}

/// AI review starts on its own by default.
pub fn default_auto_start_ai_review() -> (r: bool)
    ensures
        r,
{
    true
}

/// Branches are prefixed with `vk` by default.
pub fn default_git_branch_prefix() -> (r: String)
    ensures
        r@ == "vk"@,
{
    String::from_str("vk")
}

/// Pull request descriptions are generated by default.
pub fn default_pr_auto_description_enabled() -> (r: bool)
    ensures
        r,
{
    true
}

/// The task form does not start tasks on its own by default.
pub fn default_task_form_auto_start_by_default() -> (r: bool)
    ensures
        !r,
{
    false
}

/// Per-project policy of the review workflow.
#[derive(Clone, Debug, PartialEq, Eq)]
pub struct WorkflowConfig {
    pub enable_human_review: bool,
    pub max_ai_review_iterations: u32,
    pub testing_requires_manual_exit: bool,
    pub auto_start_ai_review: bool,
    pub ai_review_prompt_template: Option<String>,
}

/// The view of an optional text, as characters.
pub open spec fn opt_text(s: Option<String>) -> Option<Seq<char>> {
    match s {
        Some(t) => Some(t@),
        None => None,
    }
}

/// The workflow policy as plain values: flags, ceiling and template text.
pub struct WorkflowConfigView {
    pub enable_human_review: bool,
    pub max_ai_review_iterations: u32,
    pub testing_requires_manual_exit: bool,
    pub auto_start_ai_review: bool,
    pub ai_review_prompt_template: Option<Seq<char>>,
}

impl View for WorkflowConfig {
    type V = WorkflowConfigView;

    open spec fn view(&self) -> WorkflowConfigView {
        WorkflowConfigView {
            enable_human_review: self.enable_human_review,
            max_ai_review_iterations: self.max_ai_review_iterations,
            testing_requires_manual_exit: self.testing_requires_manual_exit,
            auto_start_ai_review: self.auto_start_ai_review,
            ai_review_prompt_template: opt_text(self.ai_review_prompt_template),
        }
    }
}

/// The policy a project has when it states none.
pub open spec fn default_workflow_view() -> WorkflowConfigView {
    WorkflowConfigView {
        enable_human_review: false,
        max_ai_review_iterations: 3,
        testing_requires_manual_exit: true,
        auto_start_ai_review: true,
        ai_review_prompt_template: None,
    }
}

impl Default for WorkflowConfig {
    fn default() -> (r: Self)
        ensures
            r@ == default_workflow_view(),
    {
        WorkflowConfig {
            enable_human_review: default_enable_human_review(),
            max_ai_review_iterations: default_max_ai_review_iterations(),
            testing_requires_manual_exit: default_testing_requires_manual_exit(),
            auto_start_ai_review: default_auto_start_ai_review(),
            ai_review_prompt_template: None,
        }
    }
}

/// A partial update of a project's workflow policy: each field that is present replaces
/// the current one. For the template, `Some(None)` clears it.
#[derive(Clone, Debug, PartialEq, Eq)]
pub struct UpdateWorkflowConfigRequest {
    pub enable_human_review: Option<bool>,
    pub max_ai_review_iterations: Option<u32>,
    pub testing_requires_manual_exit: Option<bool>,
    pub auto_start_ai_review: Option<bool>,
    pub ai_review_prompt_template: Option<Option<String>>,
}

/// The view of an optional template update.
pub open spec fn opt_opt_text(s: Option<Option<String>>) -> Option<Option<Seq<char>>> {
    match s {
        Some(t) => Some(opt_text(t)),
        None => None,
    }
}

/// A present value, or the fallback.
pub open spec fn or_keep<T>(update: Option<T>, current: T) -> T {
    match update {
        Some(v) => v,
        None => current,
    }
}

/// The policy after an update: every present field of the update replaces the current one.
pub open spec fn merged(
    existing: WorkflowConfigView,
    update: UpdateWorkflowConfigRequest,
) -> WorkflowConfigView {
    WorkflowConfigView {
        enable_human_review: or_keep(update.enable_human_review, existing.enable_human_review),
        max_ai_review_iterations: or_keep(
            update.max_ai_review_iterations,
            existing.max_ai_review_iterations,
        ),
        testing_requires_manual_exit: or_keep(
            update.testing_requires_manual_exit,
            existing.testing_requires_manual_exit,
        ),
        auto_start_ai_review: or_keep(update.auto_start_ai_review, existing.auto_start_ai_review),
        ai_review_prompt_template: or_keep(
            opt_opt_text(update.ai_review_prompt_template),
            existing.ai_review_prompt_template,
        ),
    }
}

/// The number of AI review rounds accepted as a ceiling.
pub open spec fn valid_max_iterations(value: u32) -> bool {
    MIN_AI_REVIEW_ITERATIONS <= value <= MAX_AI_REVIEW_ITERATIONS
}

/// Whether `value` is an accepted ceiling on AI review rounds (from 1 to 50).
pub fn is_valid_max_iterations(value: u32) -> (r: bool)
    ensures
        r == valid_max_iterations(value),
{
    value >= MIN_AI_REVIEW_ITERATIONS && value <= MAX_AI_REVIEW_ITERATIONS
}

/// Apply each present field of `update` to `existing`, without validation.
pub fn merge_config(existing: WorkflowConfig, update: UpdateWorkflowConfigRequest) -> (r:
    WorkflowConfig)
    ensures
        r@ == merged(existing@, update),
{
    let mut config = existing;
    if let Some(v) = update.enable_human_review {
        config.enable_human_review = v;
    }
    if let Some(v) = update.max_ai_review_iterations {
        config.max_ai_review_iterations = v;
    }
    if let Some(v) = update.testing_requires_manual_exit {
        config.testing_requires_manual_exit = v;
    }
    if let Some(v) = update.auto_start_ai_review {
        config.auto_start_ai_review = v;
    }
    if let Some(v) = update.ai_review_prompt_template {
        config.ai_review_prompt_template = v;
    }
    config
}

/// Why a workflow policy update was refused.
#[derive(Clone, Copy, Debug, PartialEq, Eq, Structural)]
pub enum WorkflowConfigError {
    /// The requested ceiling on AI review rounds is below 1 or above 50.
    InvalidMaxAiReviewIterations { value: u32 },
}

impl WorkflowConfigError {
    /// A sentence for the caller.
    pub fn message(&self) -> (r: &'static str)
        ensures
            r@ == match self {
                WorkflowConfigError::InvalidMaxAiReviewIterations { value } => if *value == 0 {
                    "max_ai_review_iterations must be at least 1"@
                } else {
                    "max_ai_review_iterations must be at most 50"@
                },
            },
    {
        match self {
            WorkflowConfigError::InvalidMaxAiReviewIterations { value } => {
                if *value == 0 {
                    "max_ai_review_iterations must be at least 1"
                } else {
                    "max_ai_review_iterations must be at most 50"
                }
            },
        }
    }
}

/// The policy after a validated update: refused exactly when a new ceiling on
/// AI review rounds is given and is not between 1 and 50.
pub fn update_workflow_config(
    existing: WorkflowConfig,
    update: UpdateWorkflowConfigRequest,
) -> (r: Result<WorkflowConfig, WorkflowConfigError>)
    ensures
        match update.max_ai_review_iterations {
            Some(v) if !valid_max_iterations(v) => r == Err::<WorkflowConfig, _>(
                WorkflowConfigError::InvalidMaxAiReviewIterations { value: v },
            ),
            _ => r matches Ok(c) && c@ == merged(existing@, update),
        },
{
    if let Some(v) = update.max_ai_review_iterations {
        if !is_valid_max_iterations(v) {
            return Err(WorkflowConfigError::InvalidMaxAiReviewIterations { value: v });
        }
    }
    Ok(merge_config(existing, update))
}

/// A stored policy completed with defaults: each missing field takes its default.
pub fn workflow_config_with_defaults(stored: UpdateWorkflowConfigRequest) -> (r: WorkflowConfig)
    ensures
        r@ == merged(default_workflow_view(), stored),
{
    merge_config(WorkflowConfig::default(), stored)
}

/// The update that sets every field of a policy.
pub open spec fn full_update(c: WorkflowConfig) -> UpdateWorkflowConfigRequest {
    UpdateWorkflowConfigRequest {
        enable_human_review: Some(c.enable_human_review),
        max_ai_review_iterations: Some(c.max_ai_review_iterations),
        testing_requires_manual_exit: Some(c.testing_requires_manual_exit),
        auto_start_ai_review: Some(c.auto_start_ai_review),
        ai_review_prompt_template: Some(c.ai_review_prompt_template),
    }
}

/// The update with no field present.
pub open spec fn empty_update() -> UpdateWorkflowConfigRequest {
    UpdateWorkflowConfigRequest {
        enable_human_review: None,
        max_ai_review_iterations: None,
        testing_requires_manual_exit: None,
        auto_start_ai_review: None,
        ai_review_prompt_template: None,
    }
}

/// A stored policy that names every field is read back unchanged, whatever the
/// combination of values; one that names none reads back as the defaults
/// (`false`, 3, `true`, `true`, no template).
pub proof fn lemma_stored_policy_round_trip(c: WorkflowConfig)
    ensures
        merged(default_workflow_view(), full_update(c)) == c@,
        merged(default_workflow_view(), empty_update()) == default_workflow_view(),
{
}

/// The policy as reported to clients.
#[derive(Clone, Debug, PartialEq, Eq)]
pub struct WorkflowConfigResponse {
    pub enable_human_review: bool,
    pub max_ai_review_iterations: u32,
    pub testing_requires_manual_exit: bool,
    pub auto_start_ai_review: bool,
    pub ai_review_prompt_template: Option<String>,
}

impl WorkflowConfigResponse {
    /// Report a policy, field for field.
    pub fn from_config(config: WorkflowConfig) -> (r: WorkflowConfigResponse)
        ensures
            r.enable_human_review == config.enable_human_review,
            r.max_ai_review_iterations == config.max_ai_review_iterations,
            r.testing_requires_manual_exit == config.testing_requires_manual_exit,
            r.auto_start_ai_review == config.auto_start_ai_review,
            r.ai_review_prompt_template == config.ai_review_prompt_template,
    {
        WorkflowConfigResponse {
            enable_human_review: config.enable_human_review,
            max_ai_review_iterations: config.max_ai_review_iterations,
            testing_requires_manual_exit: config.testing_requires_manual_exit,
            auto_start_ai_review: config.auto_start_ai_review,
            ai_review_prompt_template: config.ai_review_prompt_template,
        }
    }
}

/// Request to open a project in an editor.
#[derive(Clone, Debug, PartialEq, Eq)]
pub struct OpenEditorRequest {
    pub editor_type: Option<String>,
    pub git_repo_path: Option<String>,
}

/// Where the editor was opened, when it reports a URL.
#[derive(Clone, Debug, PartialEq, Eq)]
pub struct OpenEditorResponse {
    pub url: Option<String>,
}

/// The colour theme of the interface.
#[derive(Clone, Copy, Debug, PartialEq, Eq, Structural)]
pub enum ThemeMode {
    Light,
    Dark,
    System,
}

/// Settings of the previous configuration version that carry over unchanged. The
/// notification, editor, GitHub, language and showcase sections are settings of the
/// interface that this library only carries: each is held as its JSON text, `None`
/// meaning the section's defaults.
#[derive(Clone, Debug, PartialEq, Eq)]
pub struct PreviousConfig {
    pub theme: ThemeMode,
    pub executor_profile: ExecutorProfileId,
    pub notifications: Option<String>,
    pub editor: Option<String>,
    pub github: Option<String>,
    pub language: Option<String>,
    pub showcases: Option<String>,
    pub disclaimer_acknowledged: bool,
    pub onboarding_acknowledged: bool,
    pub analytics_enabled: bool,
    pub workspace_dir: Option<String>,
    pub last_app_version: Option<String>,
    pub show_release_notes: bool,
    pub git_branch_prefix: String,
    pub pr_auto_description_enabled: bool,
    pub pr_auto_description_prompt: Option<String>,
    pub task_form_auto_start_by_default: bool,
}

/// Application settings of the current version, which adds the workflow policy.
#[derive(Clone, Debug, PartialEq, Eq)]
pub struct Config {
    pub config_version: String,
    pub theme: ThemeMode,
    pub executor_profile: ExecutorProfileId,
    pub notifications: Option<String>,
    pub editor: Option<String>,
    pub github: Option<String>,
    pub language: Option<String>,
    pub showcases: Option<String>,
    pub disclaimer_acknowledged: bool,
    pub onboarding_acknowledged: bool,
    pub analytics_enabled: bool,
    pub workspace_dir: Option<String>,
    pub last_app_version: Option<String>,
    pub show_release_notes: bool,
    pub git_branch_prefix: String,
    pub pr_auto_description_enabled: bool,
    pub pr_auto_description_prompt: Option<String>,
    pub task_form_auto_start_by_default: bool,
    pub workflow: WorkflowConfig,
}

/// The version tag of the current settings.
pub open spec fn current_version() -> Seq<char> {
    "v9"@
}

impl Config {
    /// Upgrade settings of the previous version: every carried field is kept, the
    /// version becomes the current one and the workflow policy takes its defaults.
    pub fn from_v8_config(old_config: PreviousConfig) -> (r: Config)
        ensures
            r.config_version@ == current_version(),
            r.theme == old_config.theme,
            r.executor_profile == old_config.executor_profile,
            r.notifications == old_config.notifications,
            r.editor == old_config.editor,
            r.github == old_config.github,
            r.language == old_config.language,
            r.showcases == old_config.showcases,
            r.disclaimer_acknowledged == old_config.disclaimer_acknowledged,
            r.onboarding_acknowledged == old_config.onboarding_acknowledged,
            r.analytics_enabled == old_config.analytics_enabled,
            r.workspace_dir == old_config.workspace_dir,
            r.last_app_version == old_config.last_app_version,
            r.show_release_notes == old_config.show_release_notes,
            r.git_branch_prefix == old_config.git_branch_prefix,
            r.pr_auto_description_enabled == old_config.pr_auto_description_enabled,
            r.pr_auto_description_prompt == old_config.pr_auto_description_prompt,
            r.task_form_auto_start_by_default == old_config.task_form_auto_start_by_default,
            r.workflow@ == default_workflow_view(),
    {
        Config {
            config_version: String::from_str("v9"),
            theme: old_config.theme,
            executor_profile: old_config.executor_profile,
            notifications: old_config.notifications,
            editor: old_config.editor,
            github: old_config.github,
            language: old_config.language,
            showcases: old_config.showcases,
            disclaimer_acknowledged: old_config.disclaimer_acknowledged,
            onboarding_acknowledged: old_config.onboarding_acknowledged,
            analytics_enabled: old_config.analytics_enabled,
            workspace_dir: old_config.workspace_dir,
            last_app_version: old_config.last_app_version,
            show_release_notes: old_config.show_release_notes,
            git_branch_prefix: old_config.git_branch_prefix,
            pr_auto_description_enabled: old_config.pr_auto_description_enabled,
            pr_auto_description_prompt: old_config.pr_auto_description_prompt,
            task_form_auto_start_by_default: old_config.task_form_auto_start_by_default,
            workflow: WorkflowConfig::default(),
        }
    }

    /// Settings upgraded from the previous version, as `from_v8_config` states.
    pub fn from_previous_version(old_config: PreviousConfig) -> (r: Config)
        ensures
            r.config_version@ == current_version(),
            r.theme == old_config.theme,
            r.executor_profile == old_config.executor_profile,
            r.notifications == old_config.notifications,
            r.editor == old_config.editor,
            r.github == old_config.github,
            r.language == old_config.language,
            r.showcases == old_config.showcases,
            r.disclaimer_acknowledged == old_config.disclaimer_acknowledged,
            r.onboarding_acknowledged == old_config.onboarding_acknowledged,
            r.analytics_enabled == old_config.analytics_enabled,
            r.workspace_dir == old_config.workspace_dir,
            r.last_app_version == old_config.last_app_version,
            r.show_release_notes == old_config.show_release_notes,
            r.git_branch_prefix == old_config.git_branch_prefix,
            r.pr_auto_description_enabled == old_config.pr_auto_description_enabled,
            r.pr_auto_description_prompt == old_config.pr_auto_description_prompt,
            r.task_form_auto_start_by_default == old_config.task_form_auto_start_by_default,
            r.workflow@ == default_workflow_view(),
    {
        Self::from_v8_config(old_config)
    }

    /// Whether stored settings are already of the current version.
    pub fn is_current(&self) -> (r: bool)
        ensures
            r == (self.config_version@ == current_version()),
    {
        let v = self.config_version.as_str();
        proof {
            reveal_strlit("v9");
        }
        if v.unicode_len() != 2 {
            return false;
        }
        let r = v.get_char(0) == 'v' && v.get_char(1) == '9';
        proof {
            if r {
                assert(v@ =~= "v9"@);
            }
        }
        r
    }
}

impl Default for Config {
    fn default() -> (r: Self)
        ensures
            r.config_version@ == current_version(),
            r.theme == ThemeMode::System,
            r.executor_profile.executor == BaseCodingAgent::ClaudeCode,
            r.executor_profile.variant is None,
            r.notifications is None,
            r.editor is None,
            r.github is None,
            r.language is None,
            r.showcases is None,
            !r.disclaimer_acknowledged,
            !r.onboarding_acknowledged,
            r.analytics_enabled,
            r.workspace_dir is None,
            r.last_app_version is None,
            !r.show_release_notes,
            r.git_branch_prefix@ == "vk"@,
            r.pr_auto_description_enabled,
            r.pr_auto_description_prompt is None,
            !r.task_form_auto_start_by_default,
            r.workflow@ == default_workflow_view(),
    {
        Config {
            config_version: String::from_str("v9"),
            theme: ThemeMode::System,
            executor_profile: ExecutorProfileId { executor: BaseCodingAgent::ClaudeCode, variant: None },
            notifications: None,
            editor: None,
            github: None,
            language: None,
            showcases: None,
            disclaimer_acknowledged: false,
            onboarding_acknowledged: false,
            analytics_enabled: true,
            workspace_dir: None,
            last_app_version: None,
            show_release_notes: false,
            git_branch_prefix: default_git_branch_prefix(),
            pr_auto_description_enabled: default_pr_auto_description_enabled(),
            pr_auto_description_prompt: None,
            task_form_auto_start_by_default: default_task_form_auto_start_by_default(),
            workflow: WorkflowConfig::default(),
        }
    }
}

} // verus!
