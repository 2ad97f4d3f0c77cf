use services::config::{
    is_valid_max_iterations, merge_config, update_workflow_config, workflow_config_with_defaults,
    Config, PreviousConfig, ThemeMode, UpdateWorkflowConfigRequest, WorkflowConfig, WorkflowConfigError,
    WorkflowConfigResponse,
};
use services::action::{BaseCodingAgent, ExecutorProfileId};
use services::task::{
    approve_human_review, complete_testing, handle_ai_review_result, reject_human_review,
    validate_status_transition, AIReviewResult, Task, TaskStatus,
};
use TaskStatus::{Cancelled, Done, HumanReview, InProgress, InReview, Testing, Todo};

fn config(enable_human_review: bool, testing_requires_manual_exit: bool) -> WorkflowConfig {
    WorkflowConfig {
        enable_human_review,
        max_ai_review_iterations: 3,
        testing_requires_manual_exit,
        auto_start_ai_review: true,
        ai_review_prompt_template: None,
    }
}

fn empty_update() -> UpdateWorkflowConfigRequest {
    UpdateWorkflowConfigRequest {
        enable_human_review: None,
        max_ai_review_iterations: None,
        testing_requires_manual_exit: None,
        auto_start_ai_review: None,
        ai_review_prompt_template: None,
    }
}

/// Reads a stored policy the way a JSON object names its fields.
fn stored_policy(json: &str) -> UpdateWorkflowConfigRequest {
    let v: serde_json::Value = serde_json::from_str(json).expect("should deserialize");
    UpdateWorkflowConfigRequest {
        enable_human_review: v.get("enable_human_review").and_then(|x| x.as_bool()),
        max_ai_review_iterations: v
            .get("max_ai_review_iterations")
            .and_then(|x| x.as_u64())
            .map(|x| x as u32),
        testing_requires_manual_exit: v.get("testing_requires_manual_exit").and_then(|x| x.as_bool()),
        auto_start_ai_review: v.get("auto_start_ai_review").and_then(|x| x.as_bool()),
        ai_review_prompt_template: v
            .get("ai_review_prompt_template")
            .map(|x| x.as_str().map(|s| s.to_string())),
    }
}

fn policy_json(c: &WorkflowConfig) -> String {
    let mut m = serde_json::Map::new();
    m.insert("enable_human_review".to_string(), serde_json::Value::Bool(c.enable_human_review));
    m.insert(
        "max_ai_review_iterations".to_string(),
        serde_json::Value::from(c.max_ai_review_iterations),
    );
    m.insert(
        "testing_requires_manual_exit".to_string(),
        serde_json::Value::Bool(c.testing_requires_manual_exit),
    );
    m.insert("auto_start_ai_review".to_string(), serde_json::Value::Bool(c.auto_start_ai_review));
    m.insert(
        "ai_review_prompt_template".to_string(),
        match &c.ai_review_prompt_template {
            Some(t) => serde_json::Value::String(t.clone()),
            None => serde_json::Value::Null,
        },
    );
    serde_json::to_string(&serde_json::Value::Object(m)).expect("should serialize")
}

#[test]
fn test_update_workflow_config_request_defaults() {
    let req = empty_update();
    assert!(req.enable_human_review.is_none());
    assert!(req.max_ai_review_iterations.is_none());
    assert!(req.testing_requires_manual_exit.is_none());
    assert!(req.auto_start_ai_review.is_none());
    assert!(req.ai_review_prompt_template.is_none());
}

#[test]
fn test_project_workflow_config_serde_defaults() {
    let config = workflow_config_with_defaults(stored_policy("{}"));
    assert!(!config.enable_human_review);
    assert_eq!(config.max_ai_review_iterations, 3);
    assert!(config.testing_requires_manual_exit);
    assert!(config.auto_start_ai_review);
    assert!(config.ai_review_prompt_template.is_none());
}

#[test]
fn test_project_workflow_config_serialization() {
    let config = WorkflowConfig {
        enable_human_review: true,
        max_ai_review_iterations: 5,
        testing_requires_manual_exit: false,
        auto_start_ai_review: true,
        ai_review_prompt_template: Some("Review the code carefully".to_string()),
    };
    let json = policy_json(&config);
    let deserialized = workflow_config_with_defaults(stored_policy(&json));
    assert_eq!(deserialized.enable_human_review, true);
    assert_eq!(deserialized.max_ai_review_iterations, 5);
    assert_eq!(deserialized.testing_requires_manual_exit, false);
    assert_eq!(deserialized.auto_start_ai_review, true);
    assert_eq!(
        deserialized.ai_review_prompt_template,
        Some("Review the code carefully".to_string())
    );
}

#[test]
fn test_workflow_config_response_serialization() {
    let config = WorkflowConfig {
        enable_human_review: true,
        max_ai_review_iterations: 3,
        testing_requires_manual_exit: true,
        auto_start_ai_review: false,
        ai_review_prompt_template: None,
    };
    let response = WorkflowConfigResponse::from_config(config.clone());
    let json = policy_json(&config);
    let deserialized =
        WorkflowConfigResponse::from_config(workflow_config_with_defaults(stored_policy(&json)));
    assert_eq!(deserialized.enable_human_review, true);
    assert_eq!(deserialized.max_ai_review_iterations, 3);
    assert_eq!(deserialized.testing_requires_manual_exit, true);
    assert_eq!(deserialized.auto_start_ai_review, false);
    assert!(deserialized.ai_review_prompt_template.is_none());
    assert_eq!(deserialized, response);
}

#[test]
fn test_workflow_config_response_with_template() {
    let config = WorkflowConfig {
        enable_human_review: false,
        max_ai_review_iterations: 1,
        testing_requires_manual_exit: true,
        auto_start_ai_review: true,
        ai_review_prompt_template: Some("Custom template".to_string()),
    };
    let json = policy_json(&config);
    let deserialized =
        WorkflowConfigResponse::from_config(workflow_config_with_defaults(stored_policy(&json)));
    assert_eq!(
        deserialized.ai_review_prompt_template,
        Some("Custom template".to_string())
    );
}

#[test]
fn test_max_ai_review_iterations_validation() {
    assert!(is_valid_max_iterations(1));
    assert!(is_valid_max_iterations(3));
    assert!(is_valid_max_iterations(10));
    assert!(is_valid_max_iterations(50));
    assert!(!is_valid_max_iterations(0));
    assert!(!is_valid_max_iterations(u32::MAX));
}

#[test]
fn test_update_request_partial_updates() {
    let original_config = config(false, true);
    let update = UpdateWorkflowConfigRequest {
        enable_human_review: Some(true),
        ..empty_update()
    };
    let merged = merge_config(original_config.clone(), update);
    assert_eq!(merged.enable_human_review, true);
    assert_eq!(merged.max_ai_review_iterations, 3);
    assert_eq!(merged.testing_requires_manual_exit, true);
}

#[test]
fn update_rejects_zero_and_oversized_ceilings() {
    let zero = UpdateWorkflowConfigRequest {
        max_ai_review_iterations: Some(0),
        ..empty_update()
    };
    let e = update_workflow_config(config(false, true), zero).unwrap_err();
    assert_eq!(e, WorkflowConfigError::InvalidMaxAiReviewIterations { value: 0 });
    assert_eq!(e.message(), "max_ai_review_iterations must be at least 1");

    let big = UpdateWorkflowConfigRequest {
        max_ai_review_iterations: Some(51),
        ..empty_update()
    };
    let e = update_workflow_config(config(false, true), big).unwrap_err();
    assert_eq!(e, WorkflowConfigError::InvalidMaxAiReviewIterations { value: 51 });
    assert_eq!(e.message(), "max_ai_review_iterations must be at most 50");
}

#[test]
fn update_applies_every_present_field() {
    let update = UpdateWorkflowConfigRequest {
        enable_human_review: Some(true),
        max_ai_review_iterations: Some(50),
        testing_requires_manual_exit: Some(false),
        auto_start_ai_review: Some(false),
        ai_review_prompt_template: Some(Some("t".to_string())),
    };
    let c = update_workflow_config(config(false, true), update).unwrap();
    assert_eq!(
        c,
        WorkflowConfig {
            enable_human_review: true,
            max_ai_review_iterations: 50,
            testing_requires_manual_exit: false,
            auto_start_ai_review: false,
            ai_review_prompt_template: Some("t".to_string()),
        }
    );
    let cleared = UpdateWorkflowConfigRequest {
        ai_review_prompt_template: Some(None),
        ..empty_update()
    };
    let c2 = update_workflow_config(c, cleared).unwrap();
    assert_eq!(c2.ai_review_prompt_template, None);
    assert_eq!(c2.max_ai_review_iterations, 50);
}

#[test]
fn stored_policy_round_trips_for_every_flag_combination() {
    for bits in 0u32..16 {
        let c = WorkflowConfig {
            enable_human_review: bits & 1 != 0,
            max_ai_review_iterations: 1 + bits,
            testing_requires_manual_exit: bits & 2 != 0,
            auto_start_ai_review: bits & 4 != 0,
            ai_review_prompt_template: if bits & 8 != 0 { Some(format!("p{bits}")) } else { None },
        };
        let back = workflow_config_with_defaults(stored_policy(&policy_json(&c)));
        assert_eq!(back, c);
    }
}

#[test]
fn test_workflow_config_defaults() {
    let config = WorkflowConfig::default();
    assert!(!config.enable_human_review);
    assert_eq!(config.max_ai_review_iterations, 3);
    assert!(config.testing_requires_manual_exit);
    assert!(config.auto_start_ai_review);
    assert!(config.ai_review_prompt_template.is_none());
}

#[test]
fn config_upgrade_keeps_settings_and_adds_default_policy() {
    let old = PreviousConfig {
        theme: ThemeMode::Dark,
        executor_profile: ExecutorProfileId { executor: BaseCodingAgent::Gemini, variant: Some("FAST".to_string()) },
        notifications: Some("{\"sound_enabled\":true}".to_string()),
        editor: None,
        github: None,
        language: Some("\"EN\"".to_string()),
        showcases: None,
        disclaimer_acknowledged: true,
        onboarding_acknowledged: false,
        analytics_enabled: false,
        workspace_dir: Some("/w".to_string()),
        last_app_version: None,
        show_release_notes: true,
        git_branch_prefix: "feat".to_string(),
        pr_auto_description_enabled: false,
        pr_auto_description_prompt: Some("describe".to_string()),
        task_form_auto_start_by_default: true,
    };
    let c = Config::from_previous_version(old.clone());
    assert_eq!(c.config_version, "v9");
    assert!(c.is_current());
    assert!(c.disclaimer_acknowledged);
    assert!(!c.analytics_enabled);
    assert_eq!(c.workspace_dir, Some("/w".to_string()));
    assert_eq!(c.git_branch_prefix, "feat");
    assert_eq!(c.pr_auto_description_prompt, Some("describe".to_string()));
    assert!(c.task_form_auto_start_by_default);
    assert_eq!(c.workflow, WorkflowConfig::default());
    assert_eq!(c.theme, ThemeMode::Dark);
    assert_eq!(c.executor_profile.executor, BaseCodingAgent::Gemini);
    assert_eq!(c.language, Some("\"EN\"".to_string()));
    assert_eq!(Config::from_v8_config(old), c);

    let d = Config::default();
    assert_eq!(d.theme, ThemeMode::System);
    assert_eq!(d.executor_profile, ExecutorProfileId { executor: BaseCodingAgent::ClaudeCode, variant: None });
    assert_eq!(d.git_branch_prefix, "vk");
    assert!(d.analytics_enabled);
    assert!(d.pr_auto_description_enabled);
    assert!(!d.task_form_auto_start_by_default);
    let mut older = d.clone();
    older.config_version = "v8".to_string();
    assert!(!older.is_current());
}

#[test]
fn test_valid_status_transitions() {
    let human_review_enabled = config(true, true);
    assert!(validate_status_transition(Todo, InProgress, None).is_ok());
    assert!(validate_status_transition(InProgress, Testing, None).is_ok());
    assert!(validate_status_transition(Testing, InReview, None).is_ok());
    assert!(validate_status_transition(InReview, Done, None).is_ok());
    assert!(validate_status_transition(InReview, HumanReview, Some(&human_review_enabled)).is_ok());
    assert!(validate_status_transition(HumanReview, Done, None).is_ok());
    assert!(validate_status_transition(Testing, InProgress, None).is_ok());
    assert!(validate_status_transition(HumanReview, InProgress, None).is_ok());
    assert!(validate_status_transition(InProgress, Cancelled, None).is_ok());
    assert!(validate_status_transition(Testing, Cancelled, None).is_ok());
    assert!(validate_status_transition(InReview, Cancelled, None).is_ok());
    assert!(validate_status_transition(HumanReview, Cancelled, None).is_ok());
    assert!(validate_status_transition(InProgress, InProgress, None).is_ok());
    assert!(validate_status_transition(Testing, Testing, None).is_ok());
}

#[test]
fn test_invalid_status_transitions() {
    assert!(validate_status_transition(Todo, Testing, None).is_err());
    assert!(validate_status_transition(Todo, InReview, None).is_err());
    assert!(validate_status_transition(Todo, Done, None).is_err());
    assert!(validate_status_transition(InProgress, Todo, None).is_err());
    assert!(validate_status_transition(Testing, Todo, None).is_err());
    assert!(validate_status_transition(Todo, Testing, None).is_err());
    assert!(validate_status_transition(InReview, Testing, None).is_err());
    assert!(validate_status_transition(Done, InProgress, None).is_err());
    assert!(validate_status_transition(Done, Testing, None).is_err());
    assert!(validate_status_transition(Done, InReview, None).is_err());
    assert!(validate_status_transition(Cancelled, InProgress, None).is_err());
    assert!(validate_status_transition(Cancelled, Testing, None).is_err());
    assert!(validate_status_transition(InReview, InProgress, None).is_err());
    assert!(validate_status_transition(InReview, Testing, None).is_err());
    assert!(validate_status_transition(Testing, HumanReview, None).is_err());
    assert!(validate_status_transition(InProgress, HumanReview, None).is_err());
}

#[test]
fn rejection_reasons_name_the_rule() {
    assert_eq!(
        validate_status_transition(InReview, HumanReview, None),
        Err("Human Review is not enabled for this project")
    );
    assert_eq!(
        validate_status_transition(InProgress, InReview, None),
        Err("Testing phase requires manual exit - tasks must go through Testing before AI Review")
    );
    assert_eq!(
        validate_status_transition(InReview, InProgress, None),
        Err("Use AI review result handler instead")
    );
    assert_eq!(
        validate_status_transition(Todo, Testing, None),
        Err("Only InProgress tasks can enter Testing")
    );
    assert_eq!(
        validate_status_transition(Testing, HumanReview, None),
        Err("Only InReview tasks can enter Human Review")
    );
    assert_eq!(validate_status_transition(Todo, Done, None), Err("Tasks must start in InProgress"));
    assert_eq!(
        validate_status_transition(Testing, Todo, None),
        Err("Cannot transition to Todo status")
    );
    assert_eq!(validate_status_transition(Done, InProgress, None), Err("Cannot transition from Done"));
    assert_eq!(
        validate_status_transition(Cancelled, Done, None),
        Err("Cannot transition from Cancelled")
    );
    assert_eq!(validate_status_transition(InReview, Todo, None), Err("Cannot transition to Todo status"));
}

#[test]
fn terminal_statuses_allow_no_exit() {
    let all = [Todo, InProgress, Testing, InReview, HumanReview, Done, Cancelled];
    for from in [Done, Cancelled] {
        for to in all {
            for c in [config(true, false), config(false, true), config(true, true)] {
                assert_eq!(validate_status_transition(from, to, Some(&c)).is_ok(), from == to);
            }
        }
    }
}

#[test]
fn test_ai_review_result_enum() {
    let pass = AIReviewResult::Pass;
    let fail = AIReviewResult::Fail {
        issues: vec!["Issue 1".to_string(), "Issue 2".to_string()],
    };
    let intervention = AIReviewResult::NeedsIntervention;
    assert_eq!(pass, AIReviewResult::Pass);
    assert!(matches!(fail, AIReviewResult::Fail { issues } if issues.len() == 2));
    assert!(matches!(intervention, AIReviewResult::NeedsIntervention));
}

#[test]
fn test_config_aware_human_review() {
    let human_review_enabled = config(true, true);
    let human_review_disabled = config(false, true);
    assert!(validate_status_transition(InReview, HumanReview, Some(&human_review_enabled)).is_ok());
    assert!(validate_status_transition(InReview, HumanReview, Some(&human_review_disabled)).is_err());
    assert!(validate_status_transition(InReview, HumanReview, None).is_err());
}

#[test]
fn test_config_aware_testing_bypass() {
    let testing_bypass_allowed = config(false, false);
    let testing_bypass_blocked = config(false, true);
    assert!(validate_status_transition(InProgress, InReview, Some(&testing_bypass_allowed)).is_ok());
    assert!(validate_status_transition(InProgress, InReview, Some(&testing_bypass_blocked)).is_err());
    assert!(validate_status_transition(InProgress, InReview, None).is_err());
}

fn task_t() -> Task {
    Task { id: 7, project_id: 42, title: "T".to_string(), status: InReview }
}

#[test]
fn ai_review_fail_creates_fix_tasks() {
    let result = AIReviewResult::Fail {
        issues: vec!["null deref".to_string(), "missing test".to_string()],
    };
    let outcome = handle_ai_review_result(&task_t(), result, &WorkflowConfig::default());
    assert_eq!(outcome.new_status, Some(InProgress));
    assert_eq!(outcome.status, InProgress);
    assert_eq!(outcome.subtasks.len(), 2);
    assert_eq!(outcome.subtasks[0].title, "Fix: null deref");
    assert_eq!(outcome.subtasks[1].title, "Fix: missing test");
    assert_eq!(outcome.subtasks[0].description, Some("AI Review issue: null deref".to_string()));
    for s in &outcome.subtasks {
        assert_eq!(s.project_id, 42);
        assert_eq!(s.status, Todo);
    }
}

#[test]
fn ai_review_pass_and_intervention() {
    let done = handle_ai_review_result(&task_t(), AIReviewResult::Pass, &config(false, true));
    assert_eq!(done.new_status, Some(Done));
    assert!(done.subtasks.is_empty());
    let human = handle_ai_review_result(&task_t(), AIReviewResult::Pass, &config(true, true));
    assert_eq!(human.new_status, Some(HumanReview));
    assert_eq!(human.status, HumanReview);
    let wait = handle_ai_review_result(&task_t(), AIReviewResult::NeedsIntervention, &config(true, true));
    assert_eq!(wait.new_status, None);
    assert_eq!(wait.status, InReview);
}

#[test]
fn review_phase_handlers_check_the_table() {
    let c = WorkflowConfig::default();
    assert_eq!(complete_testing(Testing, &c), Ok(InReview));
    assert_eq!(complete_testing(Todo, &c), Err("Tasks must start in InProgress"));
    assert!(complete_testing(InProgress, &c).is_err());
    assert!(complete_testing(InProgress, &config(false, false)).is_ok());
    assert_eq!(approve_human_review(HumanReview, &c), Ok(Done));
    assert_eq!(approve_human_review(Cancelled, &c), Err("Cannot transition from Cancelled"));
    assert_eq!(reject_human_review(HumanReview, &c), Ok(InProgress));
    assert_eq!(reject_human_review(InReview, &c), Err("Use AI review result handler instead"));
}

#[test]
fn ai_review_leaves_done_and_cancelled_tasks_alone() {
    for status in [Done, Cancelled] {
        let task = Task { id: 1, project_id: 2, title: "T".to_string(), status };
        for result in [
            AIReviewResult::Pass,
            AIReviewResult::Fail { issues: vec!["a".to_string()] },
            AIReviewResult::NeedsIntervention,
        ] {
            let outcome = handle_ai_review_result(&task, result, &config(true, true));
            assert_eq!(outcome.new_status, None);
            assert_eq!(outcome.status, status);
            assert!(outcome.subtasks.is_empty());
        }
    }
}
