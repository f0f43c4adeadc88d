use rust_analyzer_bridge::analysis::{
    analyze_code, step, Action, AnalysisRequest, AnalysisResponse, BridgeError, Event,
    RequestState,
};
use rust_analyzer_bridge::config::{set_config, ConfigError, ConfigStore, RustAnalyzerConfig};
use rust_analyzer_bridge::launcher::{LaunchError, ProbeOutcome, RunOutcome};
use rust_analyzer_bridge::model::{DiagnosticSeverity, Position};
use std::collections::HashMap;

fn request(file: Option<&str>, code: &str) -> AnalysisRequest {
    AnalysisRequest {
        code: code.to_string(),
        file_identifier: file.map(|f| f.to_string()),
        position: Some(Position { line: 0, character: 0 }),
        options: HashMap::new(),
    }
}

fn submitted(file: Option<&str>, token: u64) -> RequestState {
    analyze_code(&ConfigStore::new(), request(file, "fn main() {}"), token)
}

fn probed(file: Option<&str>, token: u64) -> RequestState {
    step(submitted(file, token), Event::ProbeFinished(ProbeOutcome::Exited { success: true }))
}

fn running(file: Option<&str>, token: u64) -> RequestState {
    step(probed(file, token), Event::WriteFinished { written: true })
}

fn exited(success: bool, stderr: &str) -> Event {
    Event::EngineFinished(RunOutcome::Exited { success, stderr: stderr.to_string() })
}

fn empty_response() -> AnalysisResponse {
    AnalysisResponse { diagnostics: vec![], suggestions: vec![], explanation: None }
}

fn failed(error: LaunchError) -> RequestState {
    RequestState::Failed(BridgeError::Launch(error))
}

#[test]
fn new_request_waits_for_submission() {
    let state = RequestState::new();
    assert_eq!(state, RequestState::Idle);
    assert_eq!(state.action(), Action::AwaitRequest);
    assert!(!state.is_finished());
    assert_eq!(state.into_outcome(), None);
}

#[test]
fn submitted_request_asks_for_the_probe() {
    let state = submitted(Some("src/main.rs"), 3);
    assert_eq!(
        state.action(),
        Action::ProbeEngine { program: "rust-analyzer", argument: "--version" }
    );
    assert!(!state.is_finished());
}

#[test]
fn submitted_request_reads_the_configuration_in_force() {
    let mut store = ConfigStore::new();
    let config = RustAnalyzerConfig { executable_path: "/opt/ra".to_string(), working_dir: None };
    assert_eq!(set_config(&mut store, Some(config)), Ok(()));
    let state = analyze_code(&store, request(None, "x"), 1);
    assert_eq!(state.action(), Action::ProbeEngine { program: "/opt/ra", argument: "--version" });
    assert_eq!(set_config(&mut store, None).is_err(), true);
    let state = analyze_code(&store, request(None, "x"), 2);
    assert_eq!(state.action(), Action::ProbeEngine { program: "/opt/ra", argument: "--version" });
}

#[test]
fn unreachable_engine_fails_before_any_file_is_written() {
    let state =
        step(submitted(Some("a.rs"), 1), Event::ProbeFinished(ProbeOutcome::Exited { success: false }));
    assert_eq!(state, failed(LaunchError::ExecutableUnreachable));
    assert_eq!(state.action(), Action::Finish);
    assert!(state.is_finished());
    let state = step(submitted(Some("a.rs"), 1), Event::ProbeFinished(ProbeOutcome::SpawnFailed));
    assert_eq!(state, failed(LaunchError::ExecutableUnreachable));
    assert_eq!(
        state.into_outcome(),
        Some(Err(BridgeError::Launch(LaunchError::ExecutableUnreachable)))
    );
}

#[test]
fn reachable_engine_asks_for_the_temporary_file() {
    let state = probed(Some("proj/src/main.rs"), 42);
    assert_eq!(
        state.action(),
        Action::WriteTempFile { file_name: "42-main.rs", contents: "fn main() {}" }
    );
}

#[test]
fn request_without_file_gets_a_generated_name() {
    let state = probed(None, 8);
    assert_eq!(
        state.action(),
        Action::WriteTempFile { file_name: "8-snippet.rs", contents: "fn main() {}" }
    );
}

#[test]
fn file_without_base_name_fails_the_request() {
    assert_eq!(probed(Some("src/.."), 1), failed(LaunchError::InvalidFilePath));
    assert_eq!(probed(Some(""), 1), failed(LaunchError::InvalidFilePath));
}

#[test]
fn failed_write_ends_the_request_with_io_error() {
    let state = step(probed(Some("a.rs"), 1), Event::WriteFinished { written: false });
    assert_eq!(state, failed(LaunchError::IoError));
    assert_eq!(state.action(), Action::Finish);
}

#[test]
fn written_file_is_handed_to_the_engine_in_check_mode() {
    let state = running(Some("a.rs"), 9);
    assert_eq!(
        state.action(),
        Action::RunEngine { program: "rust-analyzer", argument: "--check", file_name: "9-a.rs" }
    );
}

#[test]
fn clean_exit_yields_empty_response() {
    let state = step(running(Some("a.rs"), 9), exited(true, ""));
    assert_eq!(state.action(), Action::RemoveTempFile { file_name: "9-a.rs" });
    assert!(!state.is_finished());
    let state = step(state, Event::RemoveFinished { removed: true });
    assert_eq!(state, RequestState::Done(empty_response()));
    assert_eq!(state.action(), Action::Finish);
    assert_eq!(state.into_outcome(), Some(Ok(empty_response())));
}

#[test]
fn clean_exit_ignores_engine_output() {
    let state = step(running(Some("a.rs"), 9), exited(true, "warning: ignored\n"));
    let state = step(state, Event::RemoveFinished { removed: true });
    assert_eq!(state, RequestState::Done(empty_response()));
}

#[test]
fn findings_are_extracted_then_the_file_is_removed() {
    let state = step(
        running(Some("a.rs"), 9),
        exited(false, "error: mismatched types\nwarning: unused variable x"),
    );
    assert_eq!(state.action(), Action::ExtractDiagnostics);
    let state = step(state, Event::Resumed);
    assert_eq!(state.action(), Action::RemoveTempFile { file_name: "9-a.rs" });
    let state = step(state, Event::RemoveFinished { removed: true });
    let response = state.into_outcome().unwrap().unwrap();
    assert_eq!(response.diagnostics.len(), 2);
    assert_eq!(response.diagnostics[0].severity, DiagnosticSeverity::Error);
    assert_eq!(response.diagnostics[0].message, "error: mismatched types");
    assert_eq!(response.diagnostics[1].severity, DiagnosticSeverity::Warning);
    assert_eq!(response.diagnostics[1].message, "warning: unused variable x");
    assert_eq!(response.suggestions.len(), 1);
    assert_eq!(response.suggestions[0].title, "Fix error");
    assert_eq!(response.explanation, Some("Analysis performed by rust-analyzer".to_string()));
}

#[test]
fn spawn_failure_still_removes_the_file() {
    let state = step(running(Some("a.rs"), 9), Event::EngineFinished(RunOutcome::SpawnFailed));
    assert_eq!(state.action(), Action::RemoveTempFile { file_name: "9-a.rs" });
    assert!(!state.is_finished());
    let state = step(state, Event::RemoveFinished { removed: true });
    assert_eq!(state, failed(LaunchError::SpawnFailed));
}

#[test]
fn failed_removal_does_not_change_the_outcome() {
    let state = step(running(Some("a.rs"), 9), exited(true, ""));
    let state = step(state, Event::RemoveFinished { removed: false });
    assert_eq!(state, RequestState::Done(empty_response()));
    let state = step(running(Some("a.rs"), 9), Event::EngineFinished(RunOutcome::SpawnFailed));
    let state = step(state, Event::RemoveFinished { removed: false });
    assert_eq!(state, failed(LaunchError::SpawnFailed));
}

#[test]
fn unexpected_events_change_nothing() {
    assert_eq!(step(RequestState::new(), Event::Resumed), RequestState::Idle);
    assert_eq!(
        step(submitted(Some("a.rs"), 1), Event::WriteFinished { written: true }),
        submitted(Some("a.rs"), 1)
    );
    assert_eq!(step(probed(Some("a.rs"), 1), exited(true, "")), probed(Some("a.rs"), 1));
    assert_eq!(
        step(running(Some("a.rs"), 1), Event::RemoveFinished { removed: true }),
        running(Some("a.rs"), 1)
    );
    let extracting = step(running(Some("a.rs"), 1), exited(false, "error: e"));
    assert_eq!(
        step(extracting, Event::RemoveFinished { removed: true }),
        step(running(Some("a.rs"), 1), exited(false, "error: e"))
    );
    let cleaning = step(running(Some("a.rs"), 1), exited(true, ""));
    assert_eq!(step(cleaning, Event::Resumed), step(running(Some("a.rs"), 1), exited(true, "")));
}

#[test]
fn finished_request_stays_finished() {
    let done = RequestState::Done(empty_response());
    assert_eq!(step(done, exited(false, "error: late")), RequestState::Done(empty_response()));
    let state = step(failed(LaunchError::IoError), Event::WriteFinished { written: true });
    assert_eq!(state, failed(LaunchError::IoError));
}

#[test]
fn requests_with_the_same_file_name_get_different_files() {
    let first = probed(Some("a/main.rs"), 1);
    let second = probed(Some("b/main.rs"), 2);
    assert_eq!(
        first.action(),
        Action::WriteTempFile { file_name: "1-main.rs", contents: "fn main() {}" }
    );
    assert_eq!(
        second.action(),
        Action::WriteTempFile { file_name: "2-main.rs", contents: "fn main() {}" }
    );
}

#[test]
fn requests_do_not_share_findings() {
    let first = step(running(Some("a.rs"), 1), exited(false, "error: in a"));
    let second = step(running(Some("b.rs"), 2), exited(false, "warning: in b"));
    let first = step(step(first, Event::Resumed), Event::RemoveFinished { removed: true });
    let second = step(step(second, Event::Resumed), Event::RemoveFinished { removed: true });
    let first = first.into_outcome().unwrap().unwrap();
    let second = second.into_outcome().unwrap().unwrap();
    assert_eq!(first.diagnostics.len(), 1);
    assert_eq!(first.diagnostics[0].message, "error: in a");
    assert_eq!(second.diagnostics.len(), 1);
    assert_eq!(second.diagnostics[0].message, "warning: in b");
    assert_eq!(first.suggestions.len(), 1);
    assert!(second.suggestions.is_empty());
}

#[test]
fn bridge_errors_say_what_went_wrong() {
    assert_eq!(BridgeError::Config(ConfigError::Malformed).message(), "Failed to parse config");
    assert_eq!(BridgeError::RequestMalformed.message(), "Failed to parse request");
    assert_eq!(
        BridgeError::Launch(LaunchError::SpawnFailed).message(),
        "Failed to run rust-analyzer"
    );
    assert_eq!(ConfigError::Malformed.message(), "Failed to parse config");
}

#[test]
fn rejected_payload_fails_the_request() {
    let state = step(RequestState::new(), Event::Rejected);
    assert_eq!(state, RequestState::Failed(BridgeError::RequestMalformed));
    assert_eq!(state.action(), Action::Finish);
    assert_eq!(step(submitted(None, 1), Event::Rejected), submitted(None, 1));
}

#[test]
fn bridge_error_wraps_the_errors_of_its_parts() {
    assert_eq!(
        BridgeError::from(ConfigError::Malformed),
        BridgeError::Config(ConfigError::Malformed)
    );
    assert_eq!(
        BridgeError::from(LaunchError::IoError),
        BridgeError::Launch(LaunchError::IoError)
    );
    let mut store = ConfigStore::new();
    let wrapped = set_config(&mut store, None).map_err(BridgeError::from);
    assert_eq!(wrapped, Err(BridgeError::Config(ConfigError::Malformed)));
}
