use wynn_tools::builder::{Builder, BuilderCommand, RunState};
use wynn_tools::messages::BuilderMessage;
use wynn_tools::output::{OutputMode, OutputMultiplexer, StreamInput};
use wynn_tools::progress::BuilderProgress;

/// Starts a run and returns its number.
fn start(builder: &mut Builder) -> u64 {
    match builder.update(BuilderMessage::StartBinary) {
        BuilderCommand::Launch { run, .. } => run,
        other => panic!("expected a launch, got {other:?}"),
    }
}

/// Feeds what the process did through a multiplexer into the builder.
fn feed(builder: &mut Builder, run: u64, mux: &mut OutputMultiplexer, input: StreamInput) {
    for event in mux.step(input) {
        let command = builder.update(BuilderMessage::Communication(run, Ok(event)));
        assert_eq!(command, BuilderCommand::Nothing);
    }
}

fn lines(builder: &Builder) -> Vec<String> {
    builder.lines().to_vec()
}

#[test]
fn new_builder_is_idle_and_empty() {
    let builder = Builder::new();
    assert_eq!(builder.run_state(), RunState::Idle);
    assert!(!builder.is_running());
    assert!(builder.lines().is_empty());
    assert_eq!(builder.active_run(), None);
}

#[test]
fn completed_run_logs_lines_then_finish() {
    let mut builder = Builder::new();
    let run = start(&mut builder);
    let mut mux = OutputMultiplexer::new(OutputMode::Terminal);
    feed(&mut builder, run, &mut mux, StreamInput::Spawned);
    for l in ["step 1", "step 2", "build done"] {
        feed(&mut builder, run, &mut mux, StreamInput::Stdout(l.to_string()));
    }
    assert_eq!(
        lines(&builder),
        vec!["step 1", "step 2", "build done", "finished running builder binary"]
    );
    assert_eq!(builder.run_state(), RunState::Completed);
    assert_eq!(builder.active_run(), None);
}

#[test]
fn many_lines_keep_last_hundred_and_run_goes_on() {
    let mut builder = Builder::new();
    let run = start(&mut builder);
    let mut mux = OutputMultiplexer::new(OutputMode::Pipes);
    feed(&mut builder, run, &mut mux, StreamInput::Spawned);
    for i in 0..150 {
        feed(&mut builder, run, &mut mux, StreamInput::Stdout(format!("line {i}")));
    }
    let expected: Vec<String> = (50..150).map(|i| format!("line {i}")).collect();
    assert_eq!(lines(&builder), expected);
    assert_eq!(builder.run_state(), RunState::Running);
}

#[test]
fn stop_mid_stream_goes_idle_and_silences_the_run() {
    let mut builder = Builder::new();
    let run = start(&mut builder);
    let mut mux = OutputMultiplexer::new(OutputMode::Terminal);
    feed(&mut builder, run, &mut mux, StreamInput::Spawned);
    feed(&mut builder, run, &mut mux, StreamInput::Stdout("step 1".to_string()));
    assert_eq!(builder.update(BuilderMessage::StopBinary), BuilderCommand::Kill(run));
    assert_eq!(builder.run_state(), RunState::Idle);
    feed(&mut builder, run, &mut mux, StreamInput::Stdout("step 2".to_string()));
    feed(&mut builder, run, &mut mux, StreamInput::Stdout("build done".to_string()));
    builder.update(BuilderMessage::Communication(run, Err("late".to_string())));
    assert_eq!(lines(&builder), vec!["step 1"]);
    assert_eq!(builder.run_state(), RunState::Idle);
}

#[test]
fn missing_binary_gives_single_launch_error() {
    let mut builder = Builder::new();
    let run = start(&mut builder);
    let mut mux = OutputMultiplexer::new(OutputMode::Pipes);
    feed(
        &mut builder,
        run,
        &mut mux,
        StreamInput::SpawnFailed("No such file or directory (os error 2)".to_string()),
    );
    assert_eq!(
        lines(&builder),
        vec!["Failed to start binary: No such file or directory (os error 2)"]
    );
    assert_eq!(builder.run_state(), RunState::Failed);
    assert_eq!(builder.active_run(), None);
    assert!(mux.is_finished());
}

#[test]
fn pipe_stderr_line_fails_the_run() {
    let mut builder = Builder::new();
    let run = start(&mut builder);
    let mut mux = OutputMultiplexer::new(OutputMode::Pipes);
    feed(&mut builder, run, &mut mux, StreamInput::Spawned);
    feed(&mut builder, run, &mut mux, StreamInput::Stdout("working".to_string()));
    feed(&mut builder, run, &mut mux, StreamInput::Stderr("warning: low memory".to_string()));
    assert_eq!(builder.run_state(), RunState::Failed);
    assert_eq!(lines(&builder), vec!["working", "warning: low memory"]);
    assert!(mux.is_finished());
    feed(&mut builder, run, &mut mux, StreamInput::Stdout("still working".to_string()));
    assert_eq!(lines(&builder), vec!["working", "warning: low memory"]);
}

#[test]
fn stop_without_run_changes_nothing() {
    let mut builder = Builder::new();
    assert_eq!(builder.update(BuilderMessage::StopBinary), BuilderCommand::Nothing);
    assert_eq!(builder.run_state(), RunState::Idle);
    assert!(builder.lines().is_empty());

    let run = start(&mut builder);
    builder.update(BuilderMessage::Communication(run, Ok(BuilderProgress::Done)));
    assert_eq!(builder.run_state(), RunState::Completed);
    assert_eq!(builder.update(BuilderMessage::StopBinary), BuilderCommand::Nothing);
    assert_eq!(builder.run_state(), RunState::Completed);
    assert_eq!(lines(&builder), vec!["finished running builder binary"]);
}

#[test]
fn start_while_running_supersedes_prior_run() {
    let mut builder = Builder::new();
    let first = start(&mut builder);
    builder.update(BuilderMessage::Communication(first, Ok(BuilderProgress::Running("a".to_string()))));
    let command = builder.update(BuilderMessage::StartBinary);
    let second = match command {
        BuilderCommand::Launch { run, supersede } => {
            assert_eq!(supersede, Some(first));
            run
        }
        other => panic!("expected a launch, got {other:?}"),
    };
    assert_ne!(first, second);
    assert_eq!(builder.active_run(), Some(second));
    assert!(builder.lines().is_empty());
    builder.update(BuilderMessage::Communication(first, Ok(BuilderProgress::Done)));
    assert_eq!(builder.run_state(), RunState::Running);
    assert!(builder.lines().is_empty());
}

#[test]
fn first_start_supersedes_nothing() {
    let mut builder = Builder::new();
    let command = builder.update(BuilderMessage::StartBinary);
    assert_eq!(command, BuilderCommand::Launch { run: 1, supersede: None });
    assert!(builder.is_running());
}

#[test]
fn delivery_error_fails_the_run() {
    let mut builder = Builder::new();
    let run = start(&mut builder);
    builder.update(BuilderMessage::Communication(run, Err("Failed to read stdout".to_string())));
    assert_eq!(builder.run_state(), RunState::Failed);
    assert_eq!(lines(&builder), vec!["Failed to read stdout"]);
}

#[test]
fn pending_progress_logs_an_empty_line() {
    let mut builder = Builder::new();
    let run = start(&mut builder);
    builder.update(BuilderMessage::Communication(run, Ok(BuilderProgress::Pending)));
    assert_eq!(lines(&builder), vec![""]);
    assert_eq!(builder.run_state(), RunState::Running);
}

#[test]
fn nothing_counts_after_terminal_event() {
    let mut builder = Builder::new();
    let run = start(&mut builder);
    builder.update(BuilderMessage::Communication(run, Ok(BuilderProgress::Error("boom".to_string()))));
    builder.update(BuilderMessage::Communication(run, Ok(BuilderProgress::Done)));
    builder.update(BuilderMessage::Communication(run, Ok(BuilderProgress::Running("x".to_string()))));
    assert_eq!(builder.run_state(), RunState::Failed);
    assert_eq!(lines(&builder), vec!["boom"]);
}
