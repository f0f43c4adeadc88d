use rust_analyzer_bridge::config::RustAnalyzerConfig;
use rust_analyzer_bridge::launcher::{
    initialize, LaunchError, ProbeOutcome, RunOutcome, RustAnalyzer,
};
use rust_analyzer_bridge::model::{AnalysisResult, DiagnosticSeverity};

fn handle() -> RustAnalyzer {
    initialize(RustAnalyzerConfig::default(), ProbeOutcome::Exited { success: true }).unwrap()
}

fn exited(success: bool, stderr: &str) -> RunOutcome {
    RunOutcome::Exited { success, stderr: stderr.to_string() }
}

#[test]
fn initialize_succeeds_on_exit_status_zero() {
    let config = RustAnalyzerConfig {
        executable_path: "/opt/ra".to_string(),
        working_dir: Some("/w".to_string()),
    };
    let analyzer = initialize(config.clone(), ProbeOutcome::Exited { success: true }).unwrap();
    assert_eq!(analyzer.config(), &config);
    assert_eq!(analyzer.program(), "/opt/ra");
}

#[test]
fn initialize_fails_on_other_exit_status() {
    let outcome = initialize(RustAnalyzerConfig::default(), ProbeOutcome::Exited { success: false });
    assert_eq!(outcome, Err(LaunchError::ExecutableUnreachable));
}

#[test]
fn initialize_fails_when_probe_cannot_start() {
    let outcome = initialize(RustAnalyzerConfig::default(), ProbeOutcome::SpawnFailed);
    assert_eq!(outcome, Err(LaunchError::ExecutableUnreachable));
}

#[test]
fn analyze_code_reports_spawn_failure() {
    assert_eq!(handle().analyze_code(RunOutcome::SpawnFailed), Err(LaunchError::SpawnFailed));
}

#[test]
fn analyze_code_clean_exit_finds_nothing() {
    assert_eq!(handle().analyze_code(exited(true, "")), Ok(AnalysisResult::empty()));
}

#[test]
fn analyze_code_clean_exit_ignores_what_was_printed() {
    let outcome = handle().analyze_code(exited(true, "error: printed all the same\n"));
    assert_eq!(outcome, Ok(AnalysisResult::empty()));
}

#[test]
fn analyze_code_reads_findings_on_other_exit() {
    let result = handle()
        .analyze_code(exited(false, "error: mismatched types\nwarning: unused variable x"))
        .unwrap();
    assert_eq!(result.diagnostics.len(), 2);
    assert_eq!(result.diagnostics[0].severity, DiagnosticSeverity::Error);
    assert_eq!(result.diagnostics[0].message, "error: mismatched types");
    assert_eq!(result.diagnostics[1].severity, DiagnosticSeverity::Warning);
    assert_eq!(result.suggestions.len(), 1);
    assert_eq!(result.explanation, Some("Analysis performed by rust-analyzer".to_string()));
}

#[test]
fn analyze_code_other_exit_without_findings_still_carries_the_note() {
    let result = handle().analyze_code(exited(false, "")).unwrap();
    assert!(result.diagnostics.is_empty());
    assert!(result.suggestions.is_empty());
    assert_eq!(result.explanation, Some("Analysis performed by rust-analyzer".to_string()));
}

#[test]
fn parse_diagnostics_collects_findings() {
    let result = handle().parse_diagnostics("note: n\nerror: e\n".to_string());
    assert_eq!(result.diagnostics.len(), 1);
    assert_eq!(result.diagnostics[0].message, "error: e");
    assert_eq!(result.diagnostics[0].source, Some("rust-analyzer".to_string()));
    assert_eq!(result.suggestions.len(), 1);
    assert_eq!(
        result.suggestions[0].description,
        Some("Suggestion to fix: error: e".to_string())
    );
    assert_eq!(result.suggestions[0].fix_text, "// TODO: Implement fix");
    assert_eq!(result.explanation, Some("Analysis performed by rust-analyzer".to_string()));
}

#[test]
fn launch_errors_say_what_went_wrong() {
    assert_eq!(
        LaunchError::ExecutableUnreachable.message(),
        "rust-analyzer executable not found"
    );
    assert_eq!(LaunchError::IoError.message(), "Failed to write temporary file");
    assert_eq!(LaunchError::SpawnFailed.message(), "Failed to run rust-analyzer");
    assert_eq!(LaunchError::InvalidFilePath.message(), "Invalid file path");
}
