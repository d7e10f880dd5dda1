use playbook_tester::driver::Orchestrator;
use playbook_tester::model::Automation;
use playbook_tester::model::AutomationContent;
use playbook_tester::model::FailurePolicy;
use playbook_tester::model::LocalImage;
use playbook_tester::model::LogChunk;
use playbook_tester::model::ManifestDoc;
use playbook_tester::model::Step;
use playbook_tester::model::StreamOrigin;
use playbook_tester::model::TargetDescriptor;
use playbook_tester::model::TargetOutcome;
use playbook_tester::model::TestError;
use playbook_tester::orchestrate::EngineAction;
use playbook_tester::orchestrate::EngineEvent;
use playbook_tester::resolve::default_alias_table;

fn step(title: &str, content: &str) -> Step {
    Step {
        title: title.to_string(),
        description: None,
        runner: "shell".to_string(),
        approval_message: None,
        content: content.to_string(),
    }
}

fn manifest(env: Option<&str>, steps: Vec<Step>) -> ManifestDoc {
    ManifestDoc {
        name: None,
        automations: Some(vec![Automation {
            name: "setup".to_string(),
            content: Some(AutomationContent {
                description: "test automation".to_string(),
                env: env.map(|e| e.to_string()),
                steps,
            }),
        }]),
    }
}

fn new_orchestrator(
    doc: ManifestDoc,
    targets: Vec<TargetDescriptor>,
    policy: FailurePolicy,
) -> Orchestrator {
    let requested = "demo".to_string();
    let table = default_alias_table();
    Orchestrator::new(doc, &requested, targets, &table, policy, true).unwrap()
}

fn ubuntu_inventory() -> Vec<LocalImage> {
    vec![LocalImage { repository: "ubuntu".to_string(), tag: "latest".to_string() }]
}

/// Answers each action the way a healthy engine would, with the given
/// inventory and per-step exit code and stdout, and records every action.
fn drive_healthy(
    orch: &mut Orchestrator,
    inventory: Vec<LocalImage>,
    exit_code: i64,
    stdout: &str,
) -> Vec<EngineAction> {
    let mut actions = Vec::new();
    let mut next = orch.start();
    while let Some(action) = next {
        let event = match &action {
            EngineAction::ListImages => EngineEvent::InventoryListed {
                inventory: inventory.clone(),
            },
            EngineAction::PullImage { .. } => EngineEvent::PullFinished,
            EngineAction::CreateContainer { .. } => EngineEvent::ContainerCreated,
            EngineAction::StartContainer { .. } => EngineEvent::ContainerStarted,
            EngineAction::CreateSession { .. } => EngineEvent::SessionCreated {
                session: "session-1".to_string(),
            },
            EngineAction::StartSession { .. } => EngineEvent::SessionCompleted { exit_code },
            EngineAction::StreamLogs { .. } => EngineEvent::LogsCollected {
                chunks: vec![LogChunk {
                    origin: StreamOrigin::StdOut,
                    text: stdout.to_string(),
                }],
            },
        };
        actions.push(action);
        next = orch.deliver(event);
    }
    actions
}

fn count_pulls(actions: &[EngineAction]) -> usize {
    actions.iter().filter(|a| matches!(a, EngineAction::PullImage { .. })).count()
}

fn session_commands(actions: &[EngineAction]) -> Vec<Vec<String>> {
    actions
        .iter()
        .filter_map(|a| match a {
            EngineAction::CreateSession { command, .. } => Some(command.clone()),
            _ => None,
        })
        .collect()
}

#[test]
fn manifest_without_automations_fails_before_any_engine_action() {
    let doc = ManifestDoc { name: None, automations: None };
    let requested = "demo".to_string();
    let table = default_alias_table();
    let targets = vec![TargetDescriptor::OsAlias("Linux".to_string())];
    match Orchestrator::new(doc, &requested, targets, &table, FailurePolicy::ContinueAndAggregate, true)
    {
        Err(TestError::ConfigError { playbook, .. }) => assert_eq!(playbook, "demo"),
        other => panic!("expected ConfigError, got {:?}", other),
    }
}

#[test]
fn unknown_alias_fails_resolution_and_creates_no_container() {
    let doc = manifest(None, vec![step("greet", "echo hello")]);
    let targets = vec![TargetDescriptor::OsAlias("solaris".to_string())];
    let mut orch = new_orchestrator(doc, targets, FailurePolicy::ContinueAndAggregate);
    let first = orch.start();
    assert!(first.is_none(), "an unresolved target must request no engine action");
    assert!(orch.is_complete());
    let report = orch.into_report();
    assert_eq!(report.entries.len(), 1);
    match &report.entries[0] {
        TargetOutcome::Failed(TestError::UnknownOs { playbook, target }) => {
            assert_eq!(playbook, "demo");
            assert_eq!(target, "solaris");
        },
        other => panic!("expected UnknownOs, got {:?}", other),
    }
    assert!(report.failed());
}

#[test]
fn present_image_is_never_pulled_even_on_a_second_run() {
    let doc = manifest(Some("Linux"), vec![step("greet", "echo hello")]);
    let targets = vec![TargetDescriptor::OsAlias("Linux".to_string())];
    let mut first = new_orchestrator(doc, targets, FailurePolicy::ContinueAndAggregate);
    let actions = drive_healthy(&mut first, ubuntu_inventory(), 0, "hello\n");
    assert_eq!(count_pulls(&actions), 0, "present image must not be pulled");

    let doc2 = manifest(Some("Linux"), vec![step("greet", "echo hello")]);
    let targets2 = vec![TargetDescriptor::OsAlias("Linux".to_string())];
    let mut second = new_orchestrator(doc2, targets2, FailurePolicy::ContinueAndAggregate);
    let actions2 = drive_healthy(&mut second, ubuntu_inventory(), 0, "hello\n");
    assert_eq!(count_pulls(&actions2), 0, "second run must also pull nothing");
}

#[test]
fn missing_image_is_pulled_exactly_once() {
    let doc = manifest(Some("Linux"), vec![step("greet", "echo hello")]);
    let targets = vec![TargetDescriptor::OsAlias("Linux".to_string())];
    let mut orch = new_orchestrator(doc, targets, FailurePolicy::ContinueAndAggregate);
    let actions = drive_healthy(&mut orch, Vec::new(), 0, "hello\n");
    assert_eq!(count_pulls(&actions), 1);
    match &actions[1] {
        EngineAction::PullImage { image } => assert_eq!(image, "ubuntu:latest"),
        other => panic!("expected the pull right after the listing, got {:?}", other),
    }
}

#[test]
fn one_session_per_step_in_file_order_in_one_container() {
    let doc = manifest(
        Some("Linux"),
        vec![
            step("first", "echo 1"),
            step("second", "echo 2"),
            step("third", "echo 3"),
        ],
    );
    let targets = vec![TargetDescriptor::OsAlias("Linux".to_string())];
    let mut orch = new_orchestrator(doc, targets, FailurePolicy::ContinueAndAggregate);
    let actions = drive_healthy(&mut orch, ubuntu_inventory(), 0, "");
    let commands = session_commands(&actions);
    assert_eq!(commands.len(), 3, "exactly one session per step");
    assert_eq!(commands[0], vec!["/bin/sh", "-c", "echo 1"]);
    assert_eq!(commands[1], vec!["/bin/sh", "-c", "echo 2"]);
    assert_eq!(commands[2], vec!["/bin/sh", "-c", "echo 3"]);
    let containers: Vec<String> = actions
        .iter()
        .filter_map(|a| match a {
            EngineAction::CreateSession { container, .. } => Some(container.clone()),
            _ => None,
        })
        .collect();
    assert!(containers.iter().all(|c| c == "demo_Linux_container"));
    let report = orch.into_report();
    match &report.entries[0] {
        TargetOutcome::Completed(result) => {
            assert_eq!(result.step_results.len(), 3);
            assert_eq!(result.step_results[0].step_title, "first");
            assert_eq!(result.step_results[1].step_title, "second");
            assert_eq!(result.step_results[2].step_title, "third");
        },
        other => panic!("expected a completed run, got {:?}", other),
    }
}

#[test]
fn end_to_end_echo_hello_on_linux() {
    let doc = manifest(Some("Linux"), vec![step("greet", "echo hello")]);
    let targets = vec![TargetDescriptor::OsAlias("Linux".to_string())];
    let mut orch = new_orchestrator(doc, targets, FailurePolicy::ContinueAndAggregate);
    let actions = drive_healthy(&mut orch, Vec::new(), 0, "hello\n");

    let creations: Vec<(&String, &String)> = actions
        .iter()
        .filter_map(|a| match a {
            EngineAction::CreateContainer { image, name, .. } => Some((image, name)),
            _ => None,
        })
        .collect();
    assert_eq!(creations.len(), 1, "exactly one container is created");
    assert_eq!(creations[0].0, "ubuntu:latest");
    assert_eq!(creations[0].1, "demo_Linux_container");
    let starts = actions
        .iter()
        .filter(|a| matches!(a, EngineAction::StartContainer { .. }))
        .count();
    assert_eq!(starts, 1, "exactly one container is started");
    assert_eq!(session_commands(&actions).len(), 1, "exactly one session is executed");

    assert!(orch.is_complete());
    let report = orch.into_report();
    assert_eq!(report.entries.len(), 1);
    match &report.entries[0] {
        TargetOutcome::Completed(result) => {
            assert_eq!(result.step_results.len(), 1);
            assert_eq!(result.step_results[0].exit_code, 0);
            assert!(result.step_results[0].stdout.contains("hello"));
            assert_eq!(result.overall_exit_code, 0);
        },
        other => panic!("expected a completed run, got {:?}", other),
    }
    assert!(!report.failed());
}

#[test]
fn continue_and_aggregate_reports_both_targets() {
    let doc = manifest(Some("Linux"), vec![step("greet", "echo hello")]);
    let targets = vec![
        TargetDescriptor::OsAlias("Linux".to_string()),
        TargetDescriptor::Image("unreachable.example/img:1".to_string()),
    ];
    let mut orch = new_orchestrator(doc, targets, FailurePolicy::ContinueAndAggregate);

    // First target: healthy. Second target: its image is not local and
    // the pull fails at the unreachable registry.
    let mut actions: Vec<EngineAction> = Vec::new();
    let mut next = orch.start();
    while let Some(action) = next {
        let event = match &action {
            EngineAction::ListImages => EngineEvent::InventoryListed {
                inventory: ubuntu_inventory(),
            },
            EngineAction::PullImage { .. } => EngineEvent::PullFailed {
                detail: "registry unreachable".to_string(),
            },
            EngineAction::CreateContainer { .. } => EngineEvent::ContainerCreated,
            EngineAction::StartContainer { .. } => EngineEvent::ContainerStarted,
            EngineAction::CreateSession { .. } => EngineEvent::SessionCreated {
                session: "session-1".to_string(),
            },
            EngineAction::StartSession { .. } => EngineEvent::SessionCompleted { exit_code: 0 },
            EngineAction::StreamLogs { .. } => EngineEvent::LogsCollected {
                chunks: vec![LogChunk {
                    origin: StreamOrigin::StdOut,
                    text: "hello\n".to_string(),
                }],
            },
        };
        actions.push(action);
        next = orch.deliver(event);
    }

    assert!(orch.is_complete());
    let report = orch.into_report();
    assert_eq!(report.entries.len(), 2);
    assert!(matches!(&report.entries[0], TargetOutcome::Completed(_)));
    match &report.entries[1] {
        TargetOutcome::Failed(TestError::ProvisionError { playbook, target, detail }) => {
            assert_eq!(playbook, "demo");
            assert_eq!(target, "unreachable.example/img:1");
            assert_eq!(detail, "registry unreachable");
        },
        other => panic!("expected ProvisionError, got {:?}", other),
    }
    assert!(report.failed());
}

#[test]
fn fail_fast_stops_after_the_first_failed_target() {
    let doc = manifest(Some("Linux"), vec![step("greet", "echo hello")]);
    let targets = vec![
        TargetDescriptor::Image("unreachable.example/img:1".to_string()),
        TargetDescriptor::OsAlias("Linux".to_string()),
    ];
    let mut orch = new_orchestrator(doc, targets, FailurePolicy::FailFast);
    let mut next = orch.start();
    let mut pulls = 0;
    while let Some(action) = next {
        let event = match &action {
            EngineAction::ListImages => EngineEvent::InventoryListed { inventory: Vec::new() },
            EngineAction::PullImage { .. } => {
                pulls += 1;
                EngineEvent::PullFailed { detail: "registry unreachable".to_string() }
            },
            other => panic!("the run must stop at the failed pull, got {:?}", other),
        };
        next = orch.deliver(event);
    }
    assert_eq!(pulls, 1);
    assert!(orch.is_complete());
    let report = orch.into_report();
    assert_eq!(report.entries.len(), 1, "the second target never runs under fail-fast");
    assert!(report.failed());
}

#[test]
fn container_create_failure_is_a_lifecycle_error() {
    let doc = manifest(Some("Linux"), vec![step("greet", "echo hello")]);
    let targets = vec![TargetDescriptor::OsAlias("Linux".to_string())];
    let mut orch = new_orchestrator(doc, targets, FailurePolicy::ContinueAndAggregate);
    let a1 = orch.start().unwrap();
    assert!(matches!(a1, EngineAction::ListImages));
    let a2 = orch
        .deliver(EngineEvent::InventoryListed { inventory: ubuntu_inventory() })
        .unwrap();
    assert!(matches!(a2, EngineAction::CreateContainer { .. }));
    let done = orch.deliver(EngineEvent::ContainerCreateFailed {
        detail: "name already in use".to_string(),
    });
    assert!(done.is_none());
    let report = orch.into_report();
    match &report.entries[0] {
        TargetOutcome::Failed(TestError::LifecycleError { target, detail, .. }) => {
            assert_eq!(target, "Linux");
            assert_eq!(detail, "name already in use");
        },
        other => panic!("expected LifecycleError, got {:?}", other),
    }
}

#[test]
fn session_create_failure_names_the_step() {
    let doc = manifest(Some("Linux"), vec![step("greet", "echo hello")]);
    let targets = vec![TargetDescriptor::OsAlias("Linux".to_string())];
    let mut orch = new_orchestrator(doc, targets, FailurePolicy::ContinueAndAggregate);
    orch.start().unwrap();
    orch.deliver(EngineEvent::InventoryListed { inventory: ubuntu_inventory() }).unwrap();
    orch.deliver(EngineEvent::ContainerCreated).unwrap();
    orch.deliver(EngineEvent::ContainerStarted).unwrap();
    let done = orch.deliver(EngineEvent::SessionCreateFailed {
        detail: "container not running".to_string(),
    });
    assert!(done.is_none());
    let report = orch.into_report();
    match &report.entries[0] {
        TargetOutcome::Failed(TestError::ExecError { step_title, detail, .. }) => {
            assert_eq!(step_title, "greet");
            assert_eq!(detail, "container not running");
        },
        other => panic!("expected ExecError, got {:?}", other),
    }
}

#[test]
fn a_nonzero_step_exit_does_not_fail_the_target() {
    let doc = manifest(Some("Linux"), vec![step("flaky", "exit 7")]);
    let targets = vec![TargetDescriptor::OsAlias("Linux".to_string())];
    let mut orch = new_orchestrator(doc, targets, FailurePolicy::ContinueAndAggregate);
    drive_healthy(&mut orch, ubuntu_inventory(), 7, "");
    let report = orch.into_report();
    match &report.entries[0] {
        TargetOutcome::Completed(result) => {
            assert_eq!(result.step_results[0].exit_code, 7);
            assert_eq!(result.overall_exit_code, 7);
        },
        other => panic!("expected a completed run, got {:?}", other),
    }
    assert!(!report.failed(), "step exit codes are reported, not fatal");
}

#[test]
fn an_unexpected_event_is_a_protocol_error() {
    let doc = manifest(Some("Linux"), vec![step("greet", "echo hello")]);
    let targets = vec![TargetDescriptor::OsAlias("Linux".to_string())];
    let mut orch = new_orchestrator(doc, targets, FailurePolicy::ContinueAndAggregate);
    orch.start().unwrap();
    let done = orch.deliver(EngineEvent::ContainerStarted);
    assert!(done.is_none());
    let report = orch.into_report();
    match &report.entries[0] {
        TargetOutcome::Failed(TestError::ExecError { detail, .. }) => {
            assert_eq!(detail, "unexpected engine event");
        },
        other => panic!("expected a protocol ExecError, got {:?}", other),
    }
}

#[test]
fn a_playbook_with_no_runnable_steps_completes_empty() {
    let doc = ManifestDoc {
        name: None,
        automations: Some(vec![Automation { name: "empty".to_string(), content: None }]),
    };
    let targets = vec![TargetDescriptor::OsAlias("Linux".to_string())];
    let mut orch = new_orchestrator(doc, targets, FailurePolicy::ContinueAndAggregate);
    assert_eq!(orch.run_config().skipped_automations, vec!["empty".to_string()]);
    let actions = drive_healthy(&mut orch, ubuntu_inventory(), 0, "");
    assert_eq!(session_commands(&actions).len(), 0);
    let report = orch.into_report();
    match &report.entries[0] {
        TargetOutcome::Completed(result) => {
            assert_eq!(result.step_results.len(), 0);
            assert_eq!(result.overall_exit_code, 0);
        },
        other => panic!("expected a completed run, got {:?}", other),
    }
}
