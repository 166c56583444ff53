use ra_cargo_watch::{
    cargo_args, event_to_tasks, is_forwarded, plan_worker, CargoError, CheckCommand, CheckEvent,
    CheckOptions, ExitOutcome, LineScan, Progress, RawMessage, Reaction, RunPhase, Supervisor,
    SupervisorInput, TaskRequest, WorkerPlan, WorkerRun,
};

const TARGET: &str = r#"{"name":"foo","kind":["lib"],"crate_types":["lib"],"src_path":"/ws/src/lib.rs","edition":"2018","doctest":true}"#;

fn artifact_line(fresh: bool) -> String {
    format!(
        r#"{{"reason":"compiler-artifact","package_id":"foo 0.1.0 (path+file:///ws)","target":{},"profile":{{"opt_level":"0","debuginfo":2,"debug_assertions":true,"overflow_checks":true,"test":false}},"features":[],"filenames":["/ws/target/debug/libfoo.rlib"],"executable":null,"fresh":{}}}"#,
        TARGET, fresh
    )
}

fn diagnostic_line(text: &str) -> String {
    format!(
        r#"{{"reason":"compiler-message","package_id":"foo 0.1.0 (path+file:///ws)","target":{},"message":{{"message":"{}","code":null,"level":"warning","spans":[],"children":[],"rendered":"warning: {}"}}}}"#,
        TARGET, text, text
    )
}

fn options(enable: bool, all_targets: bool, args: &[&str]) -> CheckOptions {
    CheckOptions {
        enable,
        args: args.iter().map(|s| s.to_string()).collect(),
        command: "check".to_string(),
        all_targets,
    }
}

fn strings(v: &[&str]) -> Vec<String> {
    v.iter().map(|s| s.to_string()).collect()
}

#[test]
fn args_without_all_targets() {
    let r = cargo_args(&options(true, false, &["--features", "x"]), "/ws");
    assert_eq!(
        r,
        strings(&[
            "check",
            "--workspace",
            "--message-format=json",
            "--manifest-path",
            "/ws/Cargo.toml",
            "--features",
            "x",
        ])
    );
}

#[test]
fn args_with_all_targets() {
    let r = cargo_args(&options(true, true, &[]), "/a/b");
    assert_eq!(
        r,
        strings(&[
            "check",
            "--workspace",
            "--message-format=json",
            "--manifest-path",
            "/a/b/Cargo.toml",
            "--all-targets",
        ])
    );
}

#[test]
fn disabled_options_plan_inactive_run() {
    assert!(matches!(plan_worker(&options(false, true, &[]), "/ws"), WorkerPlan::Inactive));
    match plan_worker(&options(true, false, &[]), "/ws") {
        WorkerPlan::Active { args } => assert_eq!(args.len(), 5),
        WorkerPlan::Inactive => panic!("expected an active run"),
    }
}

#[test]
fn scan_skips_garbage_and_continues() {
    let mut scan = LineScan::new();
    let lines = vec![
        Some(artifact_line(false)),
        Some(diagnostic_line("first")),
        Some("not json".to_string()),
        None,
        Some(diagnostic_line("second")),
    ];
    let mut out = Vec::new();
    for line in lines {
        if let Some(m) = scan.on_line(line) {
            out.push(m);
        }
    }
    assert_eq!(out.len(), 3);
    match &out[0] {
        RawMessage::CompilerArtifact { fresh, target_name } => {
            assert!(!fresh);
            assert_eq!(target_name, "foo");
        }
        other => panic!("unexpected {:?}", other),
    }
    match &out[1] {
        RawMessage::CompilerMessage { diagnostic } => assert_eq!(diagnostic.message, "first"),
        other => panic!("unexpected {:?}", other),
    }
    match &out[2] {
        RawMessage::CompilerMessage { diagnostic } => assert_eq!(diagnostic.message, "second"),
        other => panic!("unexpected {:?}", other),
    }
    assert!(scan.read_at_least_one_message);
}

#[test]
fn scenario_lines_to_tasks() {
    let mut scan = LineScan::new();
    let mut run = WorkerRun::new();
    let mut events = vec![run.begin()];
    for line in vec![
        artifact_line(false),
        diagnostic_line("unused"),
        "not json".to_string(),
        diagnostic_line("dead code"),
    ] {
        if let Some(m) = scan.on_line(Some(line)) {
            if let Some(e) = run.message(m) {
                events.push(e);
            }
        }
    }
    events.push(run.end());
    let mut tasks = Vec::new();
    for e in events {
        tasks.extend(event_to_tasks(e));
    }
    assert_eq!(tasks.len(), 5);
    assert!(matches!(&tasks[0], TaskRequest::Status(Progress::Begin { title }) if title == "Running 'cargo check'"));
    assert!(matches!(&tasks[1], TaskRequest::Status(Progress::Report { message }) if message == "foo"));
    assert!(matches!(&tasks[2], TaskRequest::MapDiagnostic(d) if d.message == "unused"));
    assert!(matches!(&tasks[3], TaskRequest::MapDiagnostic(d) if d.message == "dead code"));
    assert!(matches!(&tasks[4], TaskRequest::Status(Progress::End)));
}

#[test]
fn unread_line_is_not_a_message() {
    let mut scan = LineScan::new();
    assert!(scan.on_line(None).is_none());
    assert!(scan.on_line(Some(String::new())).is_none());
    assert!(!scan.read_at_least_one_message);
}

#[test]
fn failed_exit_without_messages_is_an_error() {
    let scan = LineScan::new();
    let exit = ExitOutcome::Exited { success: false, status: "exit status: 101".to_string() };
    let r = scan.finish(&exit, &strings(&["check", "--workspace"]));
    let e = r.unwrap_err();
    assert_eq!(
        e.0,
        "the command produced no valid metadata (exit code: exit status: 101): cargo check --workspace"
    );
    assert_eq!(
        e.describe(),
        "Cargo failed: the command produced no valid metadata (exit code: exit status: 101): cargo check --workspace"
    );
}

#[test]
fn failed_exit_after_a_message_is_success() {
    let mut scan = LineScan::new();
    assert!(scan.on_line(Some(diagnostic_line("x"))).is_some());
    let exit = ExitOutcome::Exited { success: false, status: "exit status: 101".to_string() };
    assert!(scan.finish(&exit, &strings(&["check"])).is_ok());
}

#[test]
fn successful_exit_is_success() {
    let scan = LineScan::new();
    let exit = ExitOutcome::Exited { success: true, status: "exit status: 0".to_string() };
    assert!(scan.finish(&exit, &Vec::new()).is_ok());
}

#[test]
fn wait_failure_is_an_io_error() {
    let mut scan = LineScan::new();
    scan.on_line(Some(diagnostic_line("x")));
    let exit = ExitOutcome::WaitFailed { error: "Interrupted".to_string() };
    let e: CargoError = scan.finish(&exit, &Vec::new()).unwrap_err();
    assert_eq!(e.0, "io error: Interrupted");
}

#[test]
fn error_text_with_no_arguments() {
    let scan = LineScan::new();
    let exit = ExitOutcome::Exited { success: false, status: "1".to_string() };
    let e = scan.finish(&exit, &Vec::new()).unwrap_err();
    assert_eq!(e.0, "the command produced no valid metadata (exit code: 1): cargo ");
}

#[test]
fn forwarding_filter() {
    assert!(is_forwarded(&RawMessage::CompilerArtifact { fresh: false, target_name: "a".to_string() }));
    assert!(!is_forwarded(&RawMessage::CompilerArtifact { fresh: true, target_name: "a".to_string() }));
    assert!(!is_forwarded(&RawMessage::BuildScriptExecuted));
    assert!(!is_forwarded(&RawMessage::Unknown));
}

#[test]
fn run_begins_once_and_ends_once() {
    let mut run = WorkerRun::new();
    assert_eq!(run.phase, RunPhase::NotStarted);
    assert!(matches!(run.begin(), CheckEvent::Begin));
    assert_eq!(run.phase, RunPhase::Running);
    let fresh = RawMessage::CompilerArtifact { fresh: true, target_name: "a".to_string() };
    assert!(run.message(fresh).is_none());
    let stale = RawMessage::CompilerArtifact { fresh: false, target_name: "b".to_string() };
    assert!(matches!(run.message(stale), Some(CheckEvent::Msg(_))));
    assert!(matches!(run.end(), CheckEvent::End));
    assert_eq!(run.phase, RunPhase::Finished);
}

#[test]
fn two_quick_updates_restart_once() {
    let mut sup = Supervisor::new(options(true, false, &[]), "/ws".to_string());
    assert!(matches!(sup.handle_input(SupervisorInput::Command(CheckCommand::Update)), Reaction::Tasks(t) if t.is_empty()));
    assert!(matches!(sup.handle_input(SupervisorInput::Command(CheckCommand::Update)), Reaction::Tasks(t) if t.is_empty()));
    assert!(sup.should_recheck());
    assert!(sup.should_recheck());
    assert_eq!(sup.control.worker, 0);
    match sup.begin_restart() {
        WorkerPlan::Active { args } => assert_eq!(args[4], "/ws/Cargo.toml"),
        other => panic!("unexpected {:?}", other),
    }
    assert_eq!(sup.control.worker, 1);
    assert!(!sup.should_recheck());
    assert_eq!(sup.control.worker, 1);
}

#[test]
fn queued_updates_in_one_round_restart_once() {
    let mut sup = Supervisor::new(options(true, false, &["--lib"]), "/ws".to_string());
    let step = sup.step(vec![
        SupervisorInput::Command(CheckCommand::Update),
        SupervisorInput::Command(CheckCommand::Update),
        SupervisorInput::Command(CheckCommand::Update),
    ]);
    assert_eq!(step.tasks.len(), 1);
    assert!(matches!(step.tasks[0], TaskRequest::ClearDiagnostics));
    match step.restart {
        Some(WorkerPlan::Active { args }) => assert_eq!(args[5], "--lib"),
        other => panic!("unexpected {:?}", other),
    }
    assert_eq!(sup.control.worker, 1);
    assert!(!sup.control.restart_pending);
}

#[test]
fn round_with_event_then_updates() {
    let mut sup = Supervisor::new(options(true, false, &[]), "/ws".to_string());
    sup.step(vec![SupervisorInput::Command(CheckCommand::Update)]);
    let step = sup.step(vec![
        SupervisorInput::Event { worker: 1, event: CheckEvent::Begin },
        SupervisorInput::Command(CheckCommand::Update),
    ]);
    assert_eq!(step.tasks.len(), 2);
    assert!(matches!(step.tasks[0], TaskRequest::Status(Progress::Begin { .. })));
    assert!(matches!(step.tasks[1], TaskRequest::ClearDiagnostics));
    assert_eq!(sup.control.worker, 2);
}

#[test]
fn closing_in_a_round_ends_without_restart() {
    let mut sup = Supervisor::new(options(true, false, &[]), "/ws".to_string());
    let step = sup.step(vec![
        SupervisorInput::Command(CheckCommand::Update),
        SupervisorInput::CommandsClosed,
    ]);
    assert!(step.shutdown);
    assert!(step.tasks.is_empty());
    assert!(step.restart.is_none());
}

#[test]
fn update_step_clears_then_restarts() {
    let mut sup = Supervisor::new(options(true, false, &[]), "/ws".to_string());
    let step = sup.step(vec![SupervisorInput::Command(CheckCommand::Update)]);
    assert!(!step.shutdown);
    assert_eq!(step.tasks.len(), 1);
    assert!(matches!(step.tasks[0], TaskRequest::ClearDiagnostics));
    assert!(matches!(step.restart, Some(WorkerPlan::Active { .. })));
    let step = sup.step(vec![SupervisorInput::Event { worker: 1, event: CheckEvent::Begin }]);
    assert_eq!(step.tasks.len(), 1);
    assert!(step.restart.is_none());
}

#[test]
fn superseded_run_events_dropped() {
    let mut sup = Supervisor::new(options(true, false, &[]), "/ws".to_string());
    sup.step(vec![SupervisorInput::Command(CheckCommand::Update)]);
    sup.step(vec![SupervisorInput::Command(CheckCommand::Update)]);
    assert_eq!(sup.control.worker, 2);
    let step = sup.step(vec![SupervisorInput::Event { worker: 1, event: CheckEvent::End }]);
    assert!(step.tasks.is_empty());
    let step = sup.step(vec![SupervisorInput::EventsClosed { worker: 1 }]);
    assert!(!step.silence_worker);
    let step = sup.step(vec![SupervisorInput::Event { worker: 2, event: CheckEvent::End }]);
    assert!(matches!(step.tasks[0], TaskRequest::Status(Progress::End)));
}

#[test]
fn closed_stream_silences_current_run() {
    let mut sup = Supervisor::new(options(true, false, &[]), "/ws".to_string());
    sup.step(vec![SupervisorInput::Command(CheckCommand::Update)]);
    let step = sup.step(vec![SupervisorInput::EventsClosed { worker: 1 }]);
    assert!(step.silence_worker);
    assert!(!sup.control.listening);
    let step = sup.step(vec![SupervisorInput::Event { worker: 1, event: CheckEvent::Begin }]);
    assert!(step.tasks.is_empty());
}

#[test]
fn disabled_supervisor_yields_no_events() {
    let mut sup = Supervisor::new(options(false, false, &[]), "/ws".to_string());
    let step = sup.step(vec![SupervisorInput::Event { worker: 0, event: CheckEvent::Begin }]);
    assert!(step.tasks.is_empty());
    let step = sup.step(vec![SupervisorInput::Command(CheckCommand::Update)]);
    assert!(matches!(step.restart, Some(WorkerPlan::Inactive)));
    let step = sup.step(vec![SupervisorInput::Event { worker: 1, event: CheckEvent::Begin }]);
    assert!(step.tasks.is_empty());
    let step = sup.step(vec![SupervisorInput::CommandsClosed]);
    assert!(step.shutdown);
}

#[test]
fn commands_closed_shuts_down() {
    let mut sup = Supervisor::new(options(true, false, &[]), "/ws".to_string());
    sup.handle_input(SupervisorInput::Command(CheckCommand::Update));
    let step = sup.step(vec![SupervisorInput::CommandsClosed]);
    assert!(step.shutdown);
    assert!(step.tasks.is_empty());
    assert!(step.restart.is_none());
    assert!(sup.control.restart_pending);
}

#[test]
fn unknown_message_gives_no_task() {
    assert!(event_to_tasks(CheckEvent::Msg(RawMessage::Unknown)).is_empty());
    assert!(event_to_tasks(CheckEvent::Msg(RawMessage::BuildScriptExecuted)).is_empty());
}

#[test]
fn fresh_artifact_line_parses_as_fresh() {
    let mut scan = LineScan::new();
    match scan.on_line(Some(artifact_line(true))) {
        Some(RawMessage::CompilerArtifact { fresh, target_name }) => {
            assert!(fresh);
            assert_eq!(target_name, "foo");
        }
        other => panic!("unexpected {:?}", other),
    }
    assert!(matches!(
        scan.on_line(Some(r#"{"reason":"build-finished","success":true}"#.to_string())),
        Some(RawMessage::Unknown)
    ));
}
