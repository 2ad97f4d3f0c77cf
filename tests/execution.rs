use services::action::{
    build_sequential_setup_chain, cleanup_actions_for_repos, setup_action_for_repo,
    setup_actions_for_repos, BaseCodingAgent, CodingAgentInitialRequest, ExecutorAction,
    ExecutorActionType, ExecutorProfileId, ProjectRepoWithName, ScriptContext, ScriptRequest,
    ScriptRequestLanguage,
};
use services::execution::{
    backfill_working_dirs, finalize_task, git_branch_name, has_running_processes, next_run_reason,
    plan_exit, recover_orphan, should_finalize, should_stop, start_status_update, start_workspace,
    start_execution, try_start_next_action, completion_notification, conclude_start, CompletionNotice, RepoProbe, StartExecutionError, ExecutionProcess, ExecutionProcessRepoState,
    ExecutionProcessRunReason, ExecutionProcessStatus, ProjectWorkingDirs,
};
use services::log::{LogMsg, StartError};
use services::task::TaskStatus;
use ExecutionProcessRunReason::{CleanupScript, CodingAgent, DevServer, SetupScript};
use ExecutionProcessStatus::{Completed, Failed, Killed, Running};

fn repo(name: &str, setup: Option<&str>, cleanup: Option<&str>, parallel: bool) -> ProjectRepoWithName {
    ProjectRepoWithName {
        repo_name: name.to_string(),
        setup_script: setup.map(|s| s.to_string()),
        cleanup_script: cleanup.map(|s| s.to_string()),
        parallel_setup_script: parallel,
    }
}

fn profile() -> ExecutorProfileId {
    ExecutorProfileId { executor: BaseCodingAgent::ClaudeCode, variant: None }
}

fn script(s: &str, context: ScriptContext, dir: &str) -> ExecutorActionType {
    ExecutorActionType::ScriptRequest(ScriptRequest {
        script: s.to_string(),
        language: ScriptRequestLanguage::Bash,
        context,
        working_dir: Some(dir.to_string()),
    })
}

fn steps(a: &ExecutorAction) -> Vec<&ExecutorActionType> {
    let mut out = vec![a.typ()];
    let mut cur = a.next_action();
    while let Some(n) = cur {
        out.push(n.typ());
        cur = n.next_action();
    }
    out
}

fn coding(prompt: &str) -> ExecutorActionType {
    ExecutorActionType::CodingAgentInitialRequest(CodingAgentInitialRequest {
        prompt: prompt.to_string(),
        executor_profile_id: profile(),
        working_dir: None,
    })
}

fn process(
    run_reason: ExecutionProcessRunReason,
    status: ExecutionProcessStatus,
    action: ExecutorAction,
) -> ExecutionProcess {
    ExecutionProcess { id: 1, session_id: 2, run_reason, status, executor_action: action, exit_code: None }
}

#[test]
fn append_keeps_order() {
    let a = ExecutorAction::new(script("a", ScriptContext::SetupScript, "r1"), None);
    let b = ExecutorAction::new(script("b", ScriptContext::SetupScript, "r2"), None);
    let c = ExecutorAction::new(coding("p"), None);
    let chain = a.append_action(b).append_action(c);
    let s = steps(&chain);
    assert_eq!(s.len(), 3);
    assert_eq!(s[0], &script("a", ScriptContext::SetupScript, "r1"));
    assert_eq!(s[1], &script("b", ScriptContext::SetupScript, "r2"));
    assert_eq!(s[2], &coding("p"));
}

#[test]
fn setup_and_cleanup_chains_follow_repo_order() {
    let repos = vec![
        repo("one", Some("s1"), None, false),
        repo("two", None, Some("c2"), false),
        repo("three", Some("s3"), Some("c3"), false),
    ];
    let setup = setup_actions_for_repos(&repos).unwrap();
    let s = steps(&setup);
    assert_eq!(s, vec![
        &script("s1", ScriptContext::SetupScript, "one"),
        &script("s3", ScriptContext::SetupScript, "three"),
    ]);
    let cleanup = cleanup_actions_for_repos(&repos).unwrap();
    let c = steps(&cleanup);
    assert_eq!(c, vec![
        &script("c2", ScriptContext::CleanupScript, "two"),
        &script("c3", ScriptContext::CleanupScript, "three"),
    ]);
    assert!(setup_actions_for_repos(&[repo("x", None, None, false)]).is_none());
    assert!(cleanup_actions_for_repos(&[]).is_none());
    assert!(setup_action_for_repo(&repos[1]).is_none());
    let single = setup_action_for_repo(&repos[0]).unwrap();
    assert!(single.next_action().is_none());
}

#[test]
fn sequential_chain_puts_setups_before_terminal() {
    let repos = vec![repo("a", Some("sa"), None, false), repo("b", Some("sb"), None, true)];
    let chain = build_sequential_setup_chain(&repos, ExecutorAction::new(coding("go"), None));
    let s = steps(&chain);
    assert_eq!(s, vec![
        &script("sa", ScriptContext::SetupScript, "a"),
        &script("sb", ScriptContext::SetupScript, "b"),
        &coding("go"),
    ]);
    let bare = build_sequential_setup_chain(&[], ExecutorAction::new(coding("go"), None));
    assert_eq!(steps(&bare), vec![&coding("go")]);
}

#[test]
fn parallel_setup_mode_starts_four_processes() {
    let repos = vec![
        repo("a", Some("sa"), None, true),
        repo("b", Some("sb"), None, true),
        repo("c", Some("sc"), None, true),
    ];
    let starts = start_workspace(&repos, "do it".to_string(), profile(), &None);
    assert_eq!(starts.len(), 4);
    for (i, name) in ["a", "b", "c"].iter().enumerate() {
        assert_eq!(starts[i].run_reason, ExecutionProcessRunReason::SetupScript);
        assert!(starts[i].action.next_action().is_none());
        assert_eq!(starts[i].action.typ(), &script(&format!("s{name}"), ScriptContext::SetupScript, name));
    }
    assert_eq!(starts[3].run_reason, ExecutionProcessRunReason::CodingAgent);
    assert_eq!(steps(&starts[3].action), vec![&coding("do it")]);
    for start in starts {
        for status in [ExecutionProcessStatus::Completed, ExecutionProcessStatus::Failed] {
            let p = process(start.run_reason, status, ExecutorAction::new(start.action.typ().clone(), None));
            let expect = start.run_reason == ExecutionProcessRunReason::CodingAgent;
            assert_eq!(should_finalize(&p), expect);
        }
    }
}

#[test]
fn sequential_setup_mode_starts_one_chain() {
    let repos = vec![
        repo("a", Some("sa"), Some("ca"), true),
        repo("b", Some("sb"), None, false),
    ];
    let dir = Some("a".to_string());
    let starts = start_workspace(&repos, "p".to_string(), profile(), &dir);
    assert_eq!(starts.len(), 1);
    assert_eq!(starts[0].run_reason, ExecutionProcessRunReason::SetupScript);
    let agent = ExecutorActionType::CodingAgentInitialRequest(CodingAgentInitialRequest {
        prompt: "p".to_string(),
        executor_profile_id: profile(),
        working_dir: Some("a".to_string()),
    });
    assert_eq!(steps(&starts[0].action), vec![
        &script("sa", ScriptContext::SetupScript, "a"),
        &script("sb", ScriptContext::SetupScript, "b"),
        &agent,
        &script("ca", ScriptContext::CleanupScript, "a"),
    ]);
}

#[test]
fn workspace_without_setup_starts_the_agent() {
    let repos = vec![repo("only", None, None, false)];
    let empty_dir = Some(String::new());
    let starts = start_workspace(&repos, "hello".to_string(), profile(), &empty_dir);
    assert_eq!(starts.len(), 1);
    assert_eq!(starts[0].run_reason, ExecutionProcessRunReason::CodingAgent);
    assert_eq!(steps(&starts[0].action), vec![&coding("hello")]);
}

#[test]
fn finalisation_policy() {
    let leaf = || ExecutorAction::new(coding("p"), None);
    let with_next = || ExecutorAction::new(coding("p"), Some(Box::new(leaf())));
    assert!(!should_finalize(&process(DevServer, Failed, leaf())));
    assert!(!should_finalize(&process(SetupScript, Failed, leaf())));
    assert!(should_finalize(&process(SetupScript, Failed, with_next())));
    assert!(should_finalize(&process(CodingAgent, Killed, with_next())));
    assert!(!should_finalize(&process(CodingAgent, Completed, with_next())));
    assert!(should_finalize(&process(CodingAgent, Completed, leaf())));
    assert!(should_finalize(&process(CleanupScript, Completed, leaf())));
}

#[test]
fn finalize_goes_to_testing_unless_killed() {
    let done = finalize_task(TaskStatus::InProgress, ExecutionProcessStatus::Completed);
    assert_eq!(done.task_status, Some(TaskStatus::Testing));
    assert_eq!(done.notice, Some(CompletionNotice::Completed));
    let failed = finalize_task(TaskStatus::InProgress, ExecutionProcessStatus::Failed);
    assert_eq!(failed.task_status, Some(TaskStatus::Testing));
    assert_eq!(failed.notice, Some(CompletionNotice::CompletedWithIssues));
    let killed = finalize_task(TaskStatus::InProgress, ExecutionProcessStatus::Killed);
    assert_eq!(killed.task_status, None);
    assert_eq!(killed.notice, None);
    for terminal in [TaskStatus::Done, TaskStatus::Cancelled] {
        for status in [Completed, Failed, Killed] {
            let plan = finalize_task(terminal, status);
            assert_eq!(plan.task_status, None);
            assert_eq!(plan.notice, None);
        }
    }
}

#[test]
fn next_run_reasons() {
    let s = script("x", ScriptContext::SetupScript, "r");
    let c = coding("p");
    assert_eq!(next_run_reason(&s, &s), ExecutionProcessRunReason::SetupScript);
    assert_eq!(next_run_reason(&c, &s), ExecutionProcessRunReason::CleanupScript);
    assert_eq!(next_run_reason(&s, &c), ExecutionProcessRunReason::CodingAgent);
    assert_eq!(next_run_reason(&c, &c), ExecutionProcessRunReason::CodingAgent);
}

#[test]
fn exit_without_finalising_leaves_task_alone() {
    let chain = ExecutorAction::new(
        script("s", ScriptContext::SetupScript, "r"),
        Some(Box::new(ExecutorAction::new(coding("p"), None))),
    );
    let p = process(ExecutionProcessRunReason::SetupScript, ExecutionProcessStatus::Completed, chain);
    let plan = plan_exit(&p, TaskStatus::InProgress);
    assert_eq!(plan.task_status, None);
    assert_eq!(plan.next_run_reason, Some(ExecutionProcessRunReason::CodingAgent));
    assert_eq!(try_start_next_action(&p), Some(ExecutionProcessRunReason::CodingAgent));

    let leaf = process(
        ExecutionProcessRunReason::SetupScript,
        ExecutionProcessStatus::Completed,
        ExecutorAction::new(script("s", ScriptContext::SetupScript, "r"), None),
    );
    let plan = plan_exit(&leaf, TaskStatus::InProgress);
    assert_eq!(plan.task_status, None);
    assert_eq!(plan.next_run_reason, None);

    let killed = process(
        ExecutionProcessRunReason::CodingAgent,
        ExecutionProcessStatus::Killed,
        ExecutorAction::new(coding("p"), None),
    );
    assert_eq!(plan_exit(&killed, TaskStatus::InProgress).task_status, None);
}

#[test]
fn happy_path_single_repo() {
    assert_eq!(
        start_status_update(TaskStatus::Todo, ExecutionProcessRunReason::CodingAgent, false),
        Some(TaskStatus::InProgress)
    );
    let starts = start_workspace(&[repo("r", None, None, false)], "p".to_string(), profile(), &None);
    assert_eq!(starts.len(), 1);
    let mut state = ExecutionProcessRepoState::at_start(9, Some("abc".to_string()), false, &[]);
    assert!(!state.had_conflicts_before);
    state.record_after_head_commit("def".to_string());
    assert_eq!(state.before_head_commit, Some("abc".to_string()));
    assert_eq!(state.after_head_commit, Some("def".to_string()));
    let ExecutionStartParts { action, run_reason } = into_parts(starts);
    let p = process(run_reason, ExecutionProcessStatus::Completed, action);
    let plan = plan_exit(&p, TaskStatus::InProgress);
    assert_eq!(plan.task_status, Some(TaskStatus::Testing));
    assert_eq!(plan.notice, Some(CompletionNotice::Completed));
    let n = completion_notification(plan.notice.unwrap(), "Happy", "\"b\"", "None");
    assert_eq!(n.title, "Task Ready for Testing: Happy");
    assert!(n.message.starts_with("\u{2705}"));
}

struct ExecutionStartParts {
    action: ExecutorAction,
    run_reason: ExecutionProcessRunReason,
}

fn into_parts(mut starts: Vec<services::execution::ExecutionStart>) -> ExecutionStartParts {
    let s = starts.remove(0);
    ExecutionStartParts { action: s.action, run_reason: s.run_reason }
}

#[test]
fn start_status_update_cases() {
    assert_eq!(start_status_update(TaskStatus::InProgress, ExecutionProcessRunReason::CodingAgent, false), None);
    assert_eq!(start_status_update(TaskStatus::Todo, ExecutionProcessRunReason::DevServer, false), None);
    assert_eq!(
        start_status_update(TaskStatus::Testing, ExecutionProcessRunReason::SetupScript, false),
        Some(TaskStatus::InProgress)
    );
    assert_eq!(start_status_update(TaskStatus::Testing, ExecutionProcessRunReason::CodingAgent, true), None);
}

#[test]
fn repo_state_records_conflicts_at_start() {
    let s = ExecutionProcessRepoState::at_start(1, None, true, &[]);
    assert!(s.had_conflicts_before);
    assert_eq!(s.before_head_commit, None);
    let t = ExecutionProcessRepoState::at_start(1, None, false, &["f".to_string()]);
    assert!(t.had_conflicts_before);
}

#[test]
fn backfill_fills_before_commits() {
    let row = ExecutionProcessRepoState {
        repo_id: 1,
        before_head_commit: None,
        after_head_commit: Some("after".to_string()),
        merge_commit: None,
        had_conflicts_before: false,
    };
    let mut a = row.clone();
    a.backfill_before_head_commit(Some("prev".to_string()), Some("base".to_string()));
    assert_eq!(a.before_head_commit, Some("prev".to_string()));
    let mut b = row.clone();
    b.backfill_before_head_commit(None, Some("base".to_string()));
    assert_eq!(b.before_head_commit, Some("base".to_string()));
    let mut c = row.clone();
    c.backfill_before_head_commit(None, None);
    assert_eq!(c.before_head_commit, None);
    let mut d = ExecutionProcessRepoState { after_head_commit: None, ..row.clone() };
    d.backfill_before_head_commit(Some("prev".to_string()), None);
    assert_eq!(d.before_head_commit, None);
    let mut e = ExecutionProcessRepoState { before_head_commit: Some("kept".to_string()), ..row };
    e.backfill_before_head_commit(Some("prev".to_string()), None);
    assert_eq!(e.before_head_commit, Some("kept".to_string()));
}

#[test]
fn orphans_fail_and_send_task_to_review() {
    for reason in [
        ExecutionProcessRunReason::CodingAgent,
        ExecutionProcessRunReason::SetupScript,
        ExecutionProcessRunReason::CleanupScript,
    ] {
        let r = recover_orphan(reason);
        assert_eq!(r.process_status, ExecutionProcessStatus::Failed);
        assert_eq!(r.exit_code, None);
        assert_eq!(r.task_status, Some(TaskStatus::InReview));
    }
    assert_eq!(recover_orphan(ExecutionProcessRunReason::DevServer).task_status, None);
}

#[test]
fn stop_selection() {
    assert!(should_stop(Running, CodingAgent, false));
    assert!(!should_stop(Running, DevServer, false));
    assert!(should_stop(Running, DevServer, true));
    assert!(!should_stop(Completed, CodingAgent, true));
    assert!(has_running_processes(&[Completed, Running]));
    assert!(!has_running_processes(&[Completed, Killed, Failed]));
    assert!(!has_running_processes(&[]));
}

#[test]
fn working_dirs_backfilled_for_single_repo_projects() {
    let project = ProjectWorkingDirs {
        dev_script: Some("npm run dev".to_string()),
        dev_script_working_dir: Some(String::new()),
        default_agent_working_dir: None,
    };
    let name = "frontend".to_string();
    let p = backfill_working_dirs(&project, &name, 1).unwrap();
    assert_eq!(p.dev_script_working_dir, Some("frontend".to_string()));
    assert_eq!(p.default_agent_working_dir, Some("frontend".to_string()));
    assert_eq!(p.dev_script, Some("npm run dev".to_string()));
    assert_eq!(backfill_working_dirs(&project, &name, 2), None);
    let set = ProjectWorkingDirs {
        dev_script: None,
        dev_script_working_dir: None,
        default_agent_working_dir: Some("x".to_string()),
    };
    assert_eq!(backfill_working_dirs(&set, &name, 1), None);
}

#[test]
fn branch_names() {
    assert_eq!(git_branch_name("", "ab12", "fix-bug"), "ab12-fix-bug");
    assert_eq!(git_branch_name("vk", "ab12", "fix-bug"), "vk/ab12-fix-bug");
}

#[test]
fn start_records_before_state_and_prompt() {
    let probes = vec![
        RepoProbe { repo_id: 1, head: Some("abc".to_string()), rebase_in_progress: false, conflicted_files: vec![] },
        RepoProbe { repo_id: 2, head: None, rebase_in_progress: false, conflicted_files: vec!["x.rs".to_string()] },
    ];
    let action = ExecutorAction::new(coding("build it"), None);
    let plan = start_execution(TaskStatus::Todo, CodingAgent, false, &action, &probes);
    assert_eq!(plan.task_status, Some(TaskStatus::InProgress));
    let rec = plan.record.unwrap();
    assert_eq!(rec.coding_prompt, Some("build it".to_string()));
    assert_eq!(rec.repo_states.len(), 2);
    assert_eq!(rec.repo_states[0].before_head_commit, Some("abc".to_string()));
    assert!(!rec.repo_states[0].had_conflicts_before);
    assert_eq!(rec.repo_states[1].repo_id, 2);
    assert!(rec.repo_states[1].had_conflicts_before);
    let script_action = ExecutorAction::new(script("s", ScriptContext::SetupScript, "r"), None);
    let next = start_execution(TaskStatus::Testing, SetupScript, true, &script_action, &probes);
    assert_eq!(next.task_status, None);
    assert_eq!(next.record.unwrap().coding_prompt, None);
    let empty = start_execution(TaskStatus::Todo, CodingAgent, false, &action, &[]);
    assert_eq!(empty.task_status, Some(TaskStatus::InProgress));
    let err = empty.record.unwrap_err();
    assert_eq!(err, StartExecutionError::NoRepositories);
    assert_eq!(err.message(), "Workspace has no repositories configured");
}

#[test]
fn exit_of_a_done_task_keeps_it_done() {
    let p = process(CodingAgent, Completed, ExecutorAction::new(coding("p"), None));
    assert!(should_finalize(&p));
    let plan = plan_exit(&p, TaskStatus::Done);
    assert_eq!(plan.task_status, None);
    assert_eq!(plan.notice, None);
    assert_eq!(plan_exit(&p, TaskStatus::Cancelled).task_status, None);
}

#[test]
fn notifications_of_concluded_runs() {
    let n = completion_notification(CompletionNotice::Completed, "Add login", "\"vk/ab12-add-login\"", "Some(\"CLAUDE_CODE\")");
    assert_eq!(n.title, "Task Ready for Testing: Add login");
    assert_eq!(
        n.message,
        "\u{2705} 'Add login' completed and ready for testing\nBranch: \"vk/ab12-add-login\"\nExecutor: Some(\"CLAUDE_CODE\")"
    );
    let w = completion_notification(CompletionNotice::CompletedWithIssues, "T", "b", "None");
    assert_eq!(w.title, "Task Ready for Testing: T");
    assert_eq!(w.message, "\u{26a0}\u{fe0f} 'T' execution completed with issues, ready for testing\nBranch: b\nExecutor: None");
}

#[test]
fn failed_spawn_is_concluded() {
    assert!(conclude_start(&Ok(())).is_none());
    let f = conclude_start(&Err(StartError::ExecutableNotFound { program: "/nope/agent".to_string() })).unwrap();
    assert_eq!(f.process_status, Failed);
    assert_eq!(f.exit_code, None);
    assert_eq!(f.task_status, TaskStatus::InReview);
    assert_eq!(f.log.len(), 2);
    assert_eq!(
        f.log[0],
        LogMsg::Stderr("Failed to start execution: ExecutableNotFound { program: \"/nope/agent\" }".to_string())
    );
    assert!(matches!(&f.log[1], LogMsg::JsonPatch(p) if p.index == 2));
}
