use metaagent::agent::AgentEvent;
use metaagent::deterministic::{
    completion_events, RunOutcome, TestRunnerAdapter, TestRunnerConfig, EXIT_NOT_RUN, EXIT_NO_COMMAND,
};

#[test]
fn drain_events_limited_respects_max_and_preserves_queue() {
    let mut runner = TestRunnerAdapter::new();
    for idx in 0..4 {
        runner.push_event(AgentEvent::Output(format!("line-{idx}")));
    }

    let first = runner.drain_events_limited(1);
    assert_eq!(first.len(), 1);
    assert!(matches!(first[0], AgentEvent::Output(_)));

    let second = runner.drain_events_limited(10);
    assert_eq!(second.len(), 3);
    assert!(second.iter().all(|e| matches!(e, AgentEvent::Output(_))));
}

#[test]
fn drain_limited_zero_returns_nothing_and_removes_nothing() {
    let mut runner = TestRunnerAdapter::new();
    runner.push_event(AgentEvent::Output("a".to_string()));
    runner.push_event(AgentEvent::Output("b".to_string()));
    assert!(runner.drain_events_limited(0).is_empty());
    assert_eq!(
        runner.drain_events(),
        vec![AgentEvent::Output("a".to_string()), AgentEvent::Output("b".to_string())]
    );
    assert!(runner.drain_events().is_empty());
    assert!(runner.drain_events_limited(3).is_empty());
}

#[test]
fn drain_limited_keeps_order_and_remainder() {
    let mut runner = TestRunnerAdapter::new();
    let all: Vec<AgentEvent> = (0..5).map(|i| AgentEvent::Output(format!("l{i}"))).collect();
    for event in &all {
        runner.push_event(event.clone());
    }
    assert_eq!(runner.drain_events_limited(2), all[..2].to_vec());
    assert_eq!(runner.drain_events_limited(2), all[2..4].to_vec());
    assert_eq!(runner.drain_events_limited(usize::MAX), all[4..].to_vec());
}

#[test]
fn missing_test_command_reports_failure_with_its_own_code() {
    for command in [None, Some(""), Some("  \t\n ")] {
        let mut runner = TestRunnerAdapter::new();
        assert_eq!(runner.run_tests_with_command(command), None);
        let events = runner.drain_events();
        assert_eq!(events.len(), 2);
        match &events[0] {
            AgentEvent::System(line) => assert!(line.contains("no test command configured")),
            other => panic!("unexpected first event {other:?}"),
        }
        assert_eq!(events[1], AgentEvent::Completed { success: false, code: -2 });
        assert_eq!(EXIT_NO_COMMAND, -2);
    }
}

#[test]
fn explicit_command_runs_through_bash_after_trimming() {
    let mut runner = TestRunnerAdapter::new();
    let start = runner.run_tests_with_command(Some("  printf 'from-meta-command\\n'  "));
    assert_eq!(
        start,
        Some(TestRunnerConfig {
            program: "bash".to_string(),
            args: vec!["-lc".to_string(), "printf 'from-meta-command\\n'".to_string()],
        })
    );
    assert!(runner.drain_events().is_empty());
}

#[test]
fn configured_command_is_what_a_plain_run_asks_for() {
    assert_eq!(
        TestRunnerAdapter::new().run_tests(),
        TestRunnerConfig { program: "cargo".to_string(), args: vec!["test".to_string()] }
    );
    assert_eq!(TestRunnerConfig::default(), TestRunnerAdapter::new().run_tests());
    let config = TestRunnerConfig {
        program: "bash".to_string(),
        args: vec!["-lc".to_string(), "printf 'runner-out\\n'".to_string()],
    };
    assert_eq!(TestRunnerAdapter::with_config(config.clone()).run_tests(), config);
}

#[test]
fn spawn_failure_is_explained_then_completed() {
    let events = completion_events(RunOutcome::SpawnFailed("No such file or directory".to_string()));
    assert_eq!(
        events,
        vec![
            AgentEvent::System(
                "Deterministic test runner failed to start: No such file or directory".to_string()
            ),
            AgentEvent::Completed { success: false, code: -1 },
        ]
    );
    assert_eq!(EXIT_NOT_RUN, -1);
}

#[test]
fn wait_failure_is_explained_then_completed() {
    let events = completion_events(RunOutcome::WaitFailed("interrupted".to_string()));
    assert_eq!(
        events,
        vec![
            AgentEvent::System("Deterministic test runner wait failed: interrupted".to_string()),
            AgentEvent::Completed { success: false, code: -1 },
        ]
    );
}

#[test]
fn exit_is_completed_and_a_failure_explained_afterwards() {
    assert_eq!(
        completion_events(RunOutcome::Exited { success: true, code: Some(0) }),
        vec![AgentEvent::Completed { success: true, code: 0 }]
    );
    assert_eq!(
        completion_events(RunOutcome::Exited { success: false, code: Some(101) }),
        vec![
            AgentEvent::Completed { success: false, code: 101 },
            AgentEvent::System(
                "Deterministic test runner exited with status code 101".to_string()
            ),
        ]
    );
    assert_eq!(
        completion_events(RunOutcome::Exited { success: false, code: None }),
        vec![
            AgentEvent::Completed { success: false, code: -1 },
            AgentEvent::System("Deterministic test runner exited with status code -1".to_string()),
        ]
    );
    assert_eq!(
        completion_events(RunOutcome::Exited { success: false, code: Some(i32::MIN) }),
        vec![
            AgentEvent::Completed { success: false, code: i32::MIN },
            AgentEvent::System(
                "Deterministic test runner exited with status code -2147483648".to_string()
            ),
        ]
    );
}

#[test]
fn finished_run_lands_behind_buffered_output() {
    let mut runner = TestRunnerAdapter::new();
    runner.push_event(AgentEvent::Output("runner-out".to_string()));
    runner.push_event(AgentEvent::Output("runner-err".to_string()));
    runner.finish_run(RunOutcome::Exited { success: true, code: Some(0) });
    assert_eq!(
        runner.drain_events(),
        vec![
            AgentEvent::Output("runner-out".to_string()),
            AgentEvent::Output("runner-err".to_string()),
            AgentEvent::Completed { success: true, code: 0 },
        ]
    );
}

#[test]
fn deterministic_runner_streams_output_and_completes() {
    let config = TestRunnerConfig {
        program: "bash".to_string(),
        args: vec![
            "-lc".to_string(),
            "printf 'runner-out\\n'; printf 'runner-err\\n' 1>&2".to_string(),
        ],
    };
    let mut runner = TestRunnerAdapter::with_config(config.clone());
    assert_eq!(runner.run_tests(), config);
    runner.push_event(AgentEvent::Output("runner-out".to_string()));
    runner.push_event(AgentEvent::Output("runner-err".to_string()));
    runner.finish_run(RunOutcome::Exited { success: true, code: Some(0) });

    let mut saw_output = false;
    let mut saw_completed = false;
    for event in runner.drain_events() {
        match event {
            AgentEvent::Output(line) if line == "runner-out" || line == "runner-err" => {
                saw_output = true;
            }
            AgentEvent::Completed { success, code } => {
                assert!(success);
                assert_eq!(code, 0);
                saw_completed = true;
            }
            AgentEvent::Output(_) | AgentEvent::System(_) => {}
        }
    }

    assert!(saw_output);
    assert!(saw_completed);
}

#[test]
fn deterministic_runner_reports_spawn_failure() {
    let config = TestRunnerConfig { program: "__no_such_runner__".to_string(), args: Vec::new() };
    let mut runner = TestRunnerAdapter::with_config(config.clone());
    assert_eq!(runner.run_tests(), config);
    runner.finish_run(RunOutcome::SpawnFailed("No such file or directory (os error 2)".to_string()));

    let mut saw_error = false;
    let mut saw_completed = false;
    for event in runner.drain_events() {
        match event {
            AgentEvent::System(line) if line.contains("failed to start") => {
                assert!(!saw_completed);
                saw_error = true;
            }
            AgentEvent::Completed { success, code } => {
                assert!(!success);
                assert_eq!(code, -1);
                saw_completed = true;
            }
            AgentEvent::Output(_) | AgentEvent::System(_) => {}
        }
    }

    assert!(saw_error);
    assert!(saw_completed);
}

#[test]
fn deterministic_runner_emits_completed_after_output_is_drained() {
    let mut runner = TestRunnerAdapter::with_config(TestRunnerConfig {
        program: "bash".to_string(),
        args: vec![
            "-lc".to_string(),
            "(sleep 0.05; printf 'late\\n') & printf 'early\\n'".to_string(),
        ],
    });
    runner.push_event(AgentEvent::Output("early".to_string()));
    runner.push_event(AgentEvent::Output("late".to_string()));
    runner.finish_run(RunOutcome::Exited { success: true, code: Some(0) });

    let mut saw_completed = false;
    let mut saw_late = false;
    let mut output_after_completed = false;
    for event in runner.drain_events() {
        match event {
            AgentEvent::Output(line) => {
                if saw_completed {
                    output_after_completed = true;
                }
                if line.trim() == "late" {
                    saw_late = true;
                }
            }
            AgentEvent::Completed { .. } => {
                saw_completed = true;
            }
            AgentEvent::System(_) => {}
        }
    }
    for event in runner.drain_events() {
        if let AgentEvent::Output(_) = event {
            output_after_completed = true;
        }
    }

    assert!(saw_completed, "expected completed event");
    assert!(saw_late, "expected delayed output line");
    assert!(
        !output_after_completed,
        "saw output after completed event, which can corrupt next-job context"
    );
}

#[test]
fn deterministic_runner_runs_explicit_command_string() {
    let mut runner = TestRunnerAdapter::new();
    let start = runner.run_tests_with_command(Some("printf 'from-meta-command\\n'"));
    assert_eq!(
        start,
        Some(TestRunnerConfig {
            program: "bash".to_string(),
            args: vec!["-lc".to_string(), "printf 'from-meta-command\\n'".to_string()],
        })
    );
    runner.push_event(AgentEvent::Output("from-meta-command".to_string()));
    runner.finish_run(RunOutcome::Exited { success: true, code: Some(0) });

    let mut saw_output = false;
    let mut saw_completed = false;
    for event in runner.drain_events() {
        match event {
            AgentEvent::Output(line) if line == "from-meta-command" => {
                saw_output = true;
            }
            AgentEvent::Completed { success, code } => {
                assert!(success);
                assert_eq!(code, 0);
                saw_completed = true;
            }
            AgentEvent::Output(_) | AgentEvent::System(_) => {}
        }
    }

    assert!(saw_output);
    assert!(saw_completed);
}
