use resdesc_viewer::content::{Content, DecryptError};
use resdesc_viewer::orchestrator::{Orchestrator, ShellAction, ToolEvent, TOOL_MODE};
use resdesc_viewer::startup::{initial_contents, StartupPath};

/// Drives a run up to the draining phase, checking each requested action.
fn drain_ready(source: &str, temp_dir: &str) -> Orchestrator {
    let mut orch = Orchestrator::new(source.to_string());
    match orch.next_action() {
        ShellAction::CreateTempDir => {}
        _ => panic!("a fresh run must ask for the temporary directory first"),
    }
    orch.temp_dir_created(Some(temp_dir.to_string()));
    match orch.next_action() {
        ShellAction::Spawn { mode, source: s, out_dir } => {
            assert_eq!(mode, 67);
            assert_eq!(s, source);
            assert_eq!(out_dir, temp_dir);
        }
        _ => panic!("after the temporary directory, the tool must be spawned"),
    }
    orch.tool_spawned(true);
    match orch.next_action() {
        ShellAction::AwaitEvent => {}
        _ => panic!("a running tool must be drained"),
    }
    orch
}

#[test]
fn successful_run_round_trips_the_written_file() {
    let mut orch = drain_ready("/a/b/name.lua", "/tmp/work");
    orch.event_received(ToolEvent::Other);
    orch.event_received(ToolEvent::DiagnosticLine(String::new()));
    assert!(!orch.is_finished());
    orch.stream_ended();
    match orch.next_action() {
        ShellAction::ReadFile { file_path } => assert_eq!(file_path, "/tmp/work/name.lua"),
        _ => panic!("a clean stream end must lead to reading the output file"),
    }
    orch.output_read(Some("decrypted text\nline two".to_string()));
    match orch.into_outcome() {
        Ok(Content { filename, content }) => {
            assert_eq!(filename, "name.lua");
            assert_eq!(content, "decrypted text\nline two");
        }
        Err(e) => panic!("run should have succeeded, got: {}", e.message()),
    }
}

#[test]
fn diagnostic_text_fails_the_run_and_skips_the_read() {
    let mut orch = drain_ready("name.lua", "/tmp/work");
    orch.event_received(ToolEvent::DiagnosticLine("bad archive header".to_string()));
    assert!(orch.is_finished());
    match orch.next_action() {
        ShellAction::Stop => {}
        _ => panic!("a failed run must ask for nothing more, least of all a file read"),
    }
    match orch.into_outcome() {
        Err(DecryptError::ToolReported(text)) => assert_eq!(text, "bad archive header"),
        _ => panic!("the tool's text must come back as the failure"),
    }
}

#[test]
fn first_nonempty_diagnostic_wins() {
    let mut orch = drain_ready("name.lua", "/tmp/work");
    orch.event_received(ToolEvent::DiagnosticLine(String::new()));
    assert!(!orch.is_finished());
    orch.event_received(ToolEvent::DiagnosticLine("first failure".to_string()));
    assert!(orch.is_finished());
    match orch.into_outcome() {
        Err(e) => assert_eq!(e.message(), "first failure"),
        Ok(_) => panic!("the run must have failed"),
    }
}

#[test]
fn process_fault_text_fails_the_run() {
    let mut orch = drain_ready("name.lua", "/tmp/work");
    orch.event_received(ToolEvent::ProcessFault("tool crashed".to_string()));
    match orch.into_outcome() {
        Err(DecryptError::ToolReported(text)) => assert_eq!(text, "tool crashed"),
        _ => panic!("a process fault must fail the run with its text"),
    }
}

#[test]
fn temp_dir_failure_stops_before_any_spawn() {
    let mut orch = Orchestrator::new("name.lua".to_string());
    orch.temp_dir_created(None);
    match orch.next_action() {
        ShellAction::Stop => {}
        _ => panic!("after a temp-dir failure nothing may run, least of all the tool"),
    }
    match orch.into_outcome() {
        Err(e) => assert_eq!(e.message(), "Unable to create temporary directory!"),
        Ok(_) => panic!("the run must have failed"),
    }
}

#[test]
fn spawn_failure_has_its_fixed_message() {
    let mut orch = Orchestrator::new("name.lua".to_string());
    orch.temp_dir_created(Some("/tmp/work".to_string()));
    orch.tool_spawned(false);
    match orch.into_outcome() {
        Err(e) => assert_eq!(e.message(), "Unable to spawn ttarchext process!"),
        Ok(_) => panic!("the run must have failed"),
    }
}

#[test]
fn absent_output_file_is_a_failure_not_empty_content() {
    let mut orch = drain_ready("name.lua", "/tmp/work");
    orch.stream_ended();
    orch.output_read(None);
    match orch.into_outcome() {
        Err(e) => assert_eq!(e.message(), "Unable to read file!"),
        Ok(_) => panic!("an absent output file must not pass for empty content"),
    }
}

#[test]
fn sourceless_base_name_fails_after_the_drain() {
    let mut orch = drain_ready("..", "/tmp/work");
    orch.stream_ended();
    match orch.into_outcome() {
        Err(e) => assert_eq!(e.message(), "Unable to get filename from source path!"),
        Ok(_) => panic!("a path with no base name must fail the run"),
    }
}

#[test]
fn tool_is_invoked_with_the_fixed_mode() {
    assert_eq!(TOOL_MODE, 67);
}

#[test]
fn startup_query_swallows_failures() {
    let failed: Option<Result<Content, DecryptError>> =
        Some(Err(DecryptError::ToolReported("boom".to_string())));
    assert!(initial_contents(failed).is_none());
    assert!(initial_contents(None).is_none());
}

#[test]
fn startup_query_passes_success_through() {
    let record = Content {
        filename: "name.lua".to_string(),
        content: "text".to_string(),
    };
    match initial_contents(Some(Ok(record))) {
        Some(c) => {
            assert_eq!(c.filename, "name.lua");
            assert_eq!(c.content, "text");
        }
        None => panic!("a successful run's record must come through"),
    }
}

#[test]
fn startup_path_is_captured_as_given() {
    let with_arg = StartupPath::capture(Some("/give/me.lua".to_string()));
    assert_eq!(with_arg.stored().map(String::as_str), Some("/give/me.lua"));
    let without = StartupPath::capture(None);
    assert!(without.stored().is_none());
}
