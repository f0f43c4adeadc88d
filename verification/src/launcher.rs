//! Launching the engine: the liveness probe, and what a run of the engine
//! over a temporary file amounts to.
//!
//! The engine is run by the caller. This module says how: which executable,
//! with which argument; and it decides what each outcome means.

use vstd::prelude::*;
use vstd::string::StringExecFns;
use crate::config::{ConfigView, RustAnalyzerConfig};
use crate::extract::{
    diagnostics_in, extract, lemma_diagnostics_well_formed, lemma_suggestions_have_no_range,
    suggestions_for,
};
use crate::model::{range_ordered, AnalysisResult, AnalysisResultView};

verus! {

/// Why the engine could not be used.
#[derive(Debug, Clone, Copy, PartialEq, Eq, Structural)]
pub enum LaunchError {
    /// The liveness probe did not end with status zero.
    ExecutableUnreachable,
    /// The temporary file could not be written.
    IoError,
    /// The operating system could not start the engine.
    SpawnFailed,
    /// The file that the request names has no base name.
    InvalidFilePath,
}

impl LaunchError {
    /// What the error says, in words.
    pub open spec fn text(self) -> Seq<char> {
        match self {
            LaunchError::ExecutableUnreachable => "rust-analyzer executable not found"@,
            LaunchError::IoError => "Failed to write temporary file"@,
            LaunchError::SpawnFailed => "Failed to run rust-analyzer"@,
            LaunchError::InvalidFilePath => "Invalid file path"@,
        }
    }

    /// Says in words what went wrong.
    pub fn message(&self) -> (message: String)
        ensures
            message@ == self.text(),
    {
        match self {
            LaunchError::ExecutableUnreachable => String::from_str(
                "rust-analyzer executable not found",
            ),
            LaunchError::IoError => String::from_str("Failed to write temporary file"),
            LaunchError::SpawnFailed => String::from_str("Failed to run rust-analyzer"),
            LaunchError::InvalidFilePath => String::from_str("Invalid file path"),
        }
    }
}

/// How the liveness probe ended.
#[derive(Debug, Clone, Copy, PartialEq, Eq, Structural)]
pub enum ProbeOutcome {
    /// The executable could not be started.
    SpawnFailed,
    /// The executable ran and exited; `success` is set for status zero.
    Exited { success: bool },
}

/// How a run of the engine over the temporary file ended.
#[derive(Debug, PartialEq, Eq)]
pub enum RunOutcome {
    /// The engine could not be started.
    SpawnFailed,
    /// The engine ran and exited; `success` is set for status zero, and
    /// `stderr` holds what it wrote to its error stream.
    Exited { success: bool, stderr: String },
}

/// The mathematical content of a [`RunOutcome`].
pub enum RunView {
    SpawnFailed,
    Exited { success: bool, stderr: Seq<char> },
}

impl DeepView for RunOutcome {
    type V = RunView;

    open spec fn deep_view(&self) -> RunView {
        match self {
            RunOutcome::SpawnFailed => RunView::SpawnFailed,
            RunOutcome::Exited { success, stderr } => RunView::Exited {
                success: *success,
                stderr: stderr@,
            },
        }
    }
}

/// A handle on an engine that answered the liveness probe.
#[derive(Debug, PartialEq, Eq)]
pub struct RustAnalyzer {
    config: RustAnalyzerConfig,
}

impl DeepView for RustAnalyzer {
    type V = ConfigView;

    closed spec fn deep_view(&self) -> ConfigView {
        self.config.deep_view()
    }
}

/// The argument with which the engine is probed.
pub open spec fn probe_argument() -> Seq<char> {
    "--version"@
}

/// The argument that puts the engine in check mode; the path of the file to
/// check follows it.
pub open spec fn check_argument() -> Seq<char> {
    "--check"@
}

/// The note that a result carries when the engine reported findings.
pub open spec fn engine_note() -> Seq<char> {
    "Analysis performed by rust-analyzer"@
}

/// The engine answered the probe: it ran and exited with status zero.
pub open spec fn reachable(probe: ProbeOutcome) -> bool {
    probe == (ProbeOutcome::Exited { success: true })
}

/// The result that stands for what the engine wrote to its error stream.
pub open spec fn parsed_output(output: Seq<char>) -> AnalysisResultView {
    AnalysisResultView {
        diagnostics: diagnostics_in(output),
        suggestions: suggestions_for(diagnostics_in(output)),
        explanation: Some(engine_note()),
    }
}

/// What a run of the engine amounts to. A run that could not be started is a
/// failure of the launcher. A run that exits with status zero found nothing.
/// Any other exit is the engine's way of saying that it has findings, which
/// its error stream then holds.
pub open spec fn analysis_of(run: RunView) -> Result<AnalysisResultView, LaunchError> {
    match run {
        RunView::SpawnFailed => Err(LaunchError::SpawnFailed),
        RunView::Exited { success, stderr } => if success {
            Ok(AnalysisResultView::empty())
        } else {
            Ok(parsed_output(stderr))
        },
    }
}

/// Whatever the engine did, a result that comes of it is well formed: every
/// range in it is ordered, because no range is ever made up.
pub proof fn lemma_analysis_ranges_ordered(run: RunView)
    ensures
        analysis_of(run) matches Ok(result) ==> result.ranges_ordered(),
{
    if let RunView::Exited { success: false, stderr } = run {
        let lines = crate::text::lines_of(stderr);
        let result = parsed_output(stderr);
        assert forall|i: int| 0 <= i < result.diagnostics.len() implies range_ordered(
            (#[trigger] result.diagnostics[i]).range,
        ) by {
            lemma_diagnostics_well_formed(lines, i);
        }
        lemma_suggestions_have_no_range(result.diagnostics);
    }
}

/// The mathematical content of what [`RustAnalyzer::analyze_code`] returns.
pub open spec fn outcome_view(outcome: Result<AnalysisResult, LaunchError>) -> Result<
    AnalysisResultView,
    LaunchError,
> {
    match outcome {
        Ok(result) => Ok(result.deep_view()),
        Err(error) => Err(error),
    }
}

/// Turns the outcome of the liveness probe into a handle on the engine. The
/// probe is the configured executable run with [`probe_argument`]; only a run
/// that exits with status zero makes the engine reachable.
pub fn initialize(config: RustAnalyzerConfig, probe: ProbeOutcome) -> (handle: Result<
    RustAnalyzer,
    LaunchError,
>)
    ensures
        reachable(probe) ==> handle is Ok && handle->Ok_0.deep_view() == config.deep_view(),
        !reachable(probe) ==> handle == Err::<RustAnalyzer, LaunchError>(
            LaunchError::ExecutableUnreachable,
        ),
{
    match probe {
        ProbeOutcome::Exited { success: true } => Ok(RustAnalyzer { config }),
        _ => Err(LaunchError::ExecutableUnreachable),
    }
}

impl RustAnalyzer {
    /// The configuration under which the engine was reached.
    pub fn config(&self) -> (config: &RustAnalyzerConfig)
        ensures
            config.deep_view() == self.deep_view(),
    {
        &self.config
    }

    /// The executable to run.
    pub fn program(&self) -> (path: &str)
        ensures
            path@ == self.deep_view().executable_path,
    {
        self.config.executable_path.as_str()
    }

    /// Decides what a run of the engine over the temporary file amounts to.
    pub fn analyze_code(&self, run: RunOutcome) -> (outcome: Result<AnalysisResult, LaunchError>)
        ensures
            outcome_view(outcome) == analysis_of(run.deep_view()),
    {
        match run {
            RunOutcome::SpawnFailed => Err(LaunchError::SpawnFailed),
            RunOutcome::Exited { success, stderr } => {
                if success {
                    Ok(AnalysisResult::empty())
                } else {
                    Ok(self.parse_diagnostics(stderr))
                }
            },
        }
    }

    /// Reads the engine's output line by line and collects what it reports.
    pub fn parse_diagnostics(&self, output: String) -> (result: AnalysisResult)
        ensures
            result.deep_view() == parsed_output(output@),
    {
        let (diagnostics, suggestions) = extract(output.as_str());
        AnalysisResult {
            diagnostics,
            suggestions,
            explanation: Some(String::from_str("Analysis performed by rust-analyzer")),
        }
    }
}

} // verus!
