//! One analysis request, from submission to response.
//!
//! A request is a state machine. The caller does what the machine's current
//! state asks for (probe the engine, write the temporary file, run the
//! engine, remove the file) and reports how it went; the machine decides what
//! comes next. The machine does no input or output of its own, and no request
//! shares anything with another but the configuration it read when it was
//! submitted.

use std::collections::HashMap;
use vstd::prelude::*;
use vstd::string::StringExecFns;
use crate::config::{ConfigError, ConfigStore, ConfigView, RustAnalyzerConfig};
use crate::launcher::{
    analysis_of, check_argument, initialize, probe_argument, reachable, LaunchError, ProbeOutcome,
    RunOutcome, RunView, RustAnalyzer,
};
use crate::model::{AnalysisResult, AnalysisResultView, Diagnostic, Position, Suggestion};
use crate::naming::{temp_file_name, temp_name_for};

pub use crate::config::{get_config, set_config};

verus! {

/// What a caller submits.
#[derive(Debug, PartialEq, Eq)]
pub struct AnalysisRequest {
    /// The full text to analyze.
    pub code: String,
    /// The file that the code belongs to. Its base name names the temporary
    /// file, so that the engine applies the rules of the right language.
    pub file_identifier: Option<String>,
    /// The place in the code that the caller is interested in.
    pub position: Option<Position>,
    /// Further settings, by name.
    pub options: HashMap<String, String>,
}

/// What a caller gets back.
#[derive(Debug, PartialEq, Eq)]
pub struct AnalysisResponse {
    /// The diagnostics, in the order in which the engine reported them.
    pub diagnostics: Vec<Diagnostic>,
    pub suggestions: Vec<Suggestion>,
    pub explanation: Option<String>,
}

/// Why a request failed. Every error ends the request; none is retried.
#[derive(Debug, Clone, Copy, PartialEq, Eq, Structural)]
pub enum BridgeError {
    /// The configuration text did not parse.
    Config(ConfigError),
    /// The engine could not be used.
    Launch(LaunchError),
    /// The request text did not parse.
    RequestMalformed,
}

impl BridgeError {
    /// What the error says, in words.
    pub open spec fn text(self) -> Seq<char> {
        match self {
            BridgeError::Config(error) => error.text(),
            BridgeError::Launch(error) => error.text(),
            BridgeError::RequestMalformed => "Failed to parse request"@,
        }
    }

    /// Says in words what went wrong.
    pub fn message(&self) -> (message: String)
        ensures
            message@ == self.text(),
    {
        match self {
            BridgeError::Config(error) => error.message(),
            BridgeError::Launch(error) => error.message(),
            BridgeError::RequestMalformed => String::from_str("Failed to parse request"),
        }
    }
}

impl From<ConfigError> for BridgeError {
    fn from(error: ConfigError) -> (wrapped: BridgeError) {
        BridgeError::Config(error)
    }
}

impl vstd::std_specs::convert::FromSpecImpl<ConfigError> for BridgeError {
    open spec fn obeys_from_spec() -> bool {
        true
    }

    open spec fn from_spec(error: ConfigError) -> BridgeError {
        BridgeError::Config(error)
    }
}

impl From<LaunchError> for BridgeError {
    fn from(error: LaunchError) -> (wrapped: BridgeError) {
        BridgeError::Launch(error)
    }
}

impl vstd::std_specs::convert::FromSpecImpl<LaunchError> for BridgeError {
    open spec fn obeys_from_spec() -> bool {
        true
    }

    open spec fn from_spec(error: LaunchError) -> BridgeError {
        BridgeError::Launch(error)
    }
}

/// Where a request stands.
#[derive(Debug, PartialEq, Eq)]
pub enum RequestState {
    /// Nothing was submitted yet.
    Idle,
    /// The engine is being probed.
    VerifyingEngine {
        config: RustAnalyzerConfig,
        file_identifier: Option<String>,
        code: String,
        token: u64,
    },
    /// The code is being written to the temporary file.
    WritingTempFile { analyzer: RustAnalyzer, file_name: String, code: String },
    /// The engine is running over the temporary file.
    RunningEngine { analyzer: RustAnalyzer, file_name: String },
    /// The engine reported findings, which are about to be read.
    ExtractingDiagnostics { analyzer: RustAnalyzer, file_name: String, output: String },
    /// The temporary file is being removed.
    CleaningUp { file_name: String, outcome: Result<AnalysisResponse, BridgeError> },
    /// The request was answered.
    Done(AnalysisResponse),
    /// The request failed.
    Failed(BridgeError),
}

/// What happened outside the machine.
#[derive(Debug, PartialEq, Eq)]
pub enum Event {
    /// A request came in. `config` is the configuration in force, and `token`
    /// a number that no other request in flight has.
    Submitted { config: RustAnalyzerConfig, request: AnalysisRequest, token: u64 },
    /// What came in did not parse as a request.
    Rejected,
    /// The liveness probe ended.
    ProbeFinished(ProbeOutcome),
    /// The attempt to write the temporary file ended.
    WriteFinished { written: bool },
    /// The run of the engine ended.
    EngineFinished(RunOutcome),
    /// Nothing happened; the machine may go on.
    Resumed,
    /// The attempt to remove the temporary file ended.
    RemoveFinished { removed: bool },
}

/// What the machine asks its caller to do next.
#[derive(Debug, Clone, Copy, PartialEq, Eq)]
pub enum Action<'a> {
    /// Submit a request.
    AwaitRequest,
    /// Run `program` with `argument`, discard what it prints, and report
    /// whether it could be started and whether it exited with status zero.
    ProbeEngine { program: &'a str, argument: &'static str },
    /// Write `contents` to the file `file_name` in the directory for
    /// temporary files, and report whether that worked.
    WriteTempFile { file_name: &'a str, contents: &'a str },
    /// Run `program` with `argument` and the path of the temporary file
    /// `file_name`, capture what it prints, and report how it ended.
    RunEngine { program: &'a str, argument: &'static str, file_name: &'a str },
    /// Nothing to do outside; report [`Event::Resumed`].
    ExtractDiagnostics,
    /// Remove the temporary file `file_name`, and report whether that worked.
    RemoveTempFile { file_name: &'a str },
    /// The request is over: take its outcome.
    Finish,
}

/// The mathematical content of an [`AnalysisRequest`].
pub struct RequestView {
    pub code: Seq<char>,
    pub file_identifier: Option<Seq<char>>,
    pub position: Option<Position>,
    pub options: Map<Seq<char>, Seq<char>>,
}

/// The mathematical content of a [`RequestState`].
pub enum StateView {
    Idle,
    VerifyingEngine {
        config: ConfigView,
        file_identifier: Option<Seq<char>>,
        code: Seq<char>,
        token: u64,
    },
    WritingTempFile { config: ConfigView, file_name: Seq<char>, code: Seq<char> },
    RunningEngine { config: ConfigView, file_name: Seq<char> },
    ExtractingDiagnostics { config: ConfigView, file_name: Seq<char>, output: Seq<char> },
    CleaningUp { file_name: Seq<char>, outcome: Result<AnalysisResultView, BridgeError> },
    Done(AnalysisResultView),
    Failed(BridgeError),
}

/// The mathematical content of an [`Event`].
pub enum EventView {
    Submitted { config: ConfigView, request: RequestView, token: u64 },
    Rejected,
    ProbeFinished(ProbeOutcome),
    WriteFinished { written: bool },
    EngineFinished(RunView),
    Resumed,
    RemoveFinished { removed: bool },
}

/// The mathematical content of an [`Action`].
pub enum ActionView {
    AwaitRequest,
    ProbeEngine { program: Seq<char>, argument: Seq<char> },
    WriteTempFile { file_name: Seq<char>, contents: Seq<char> },
    RunEngine { program: Seq<char>, argument: Seq<char>, file_name: Seq<char> },
    ExtractDiagnostics,
    RemoveTempFile { file_name: Seq<char> },
    Finish,
}

impl DeepView for AnalysisRequest {
    type V = RequestView;

    open spec fn deep_view(&self) -> RequestView {
        RequestView {
            code: self.code@,
            file_identifier: self.file_identifier.deep_view(),
            position: self.position,
            options: self.options.deep_view(),
        }
    }
}

impl DeepView for AnalysisResponse {
    type V = AnalysisResultView;

    open spec fn deep_view(&self) -> AnalysisResultView {
        AnalysisResultView {
            diagnostics: self.diagnostics.deep_view(),
            suggestions: self.suggestions.deep_view(),
            explanation: self.explanation.deep_view(),
        }
    }
}

/// The mathematical content of a request's outcome.
pub open spec fn response_view(outcome: Result<AnalysisResponse, BridgeError>) -> Result<
    AnalysisResultView,
    BridgeError,
> {
    match outcome {
        Ok(response) => Ok(response.deep_view()),
        Err(error) => Err(error),
    }
}

impl DeepView for RequestState {
    type V = StateView;

    open spec fn deep_view(&self) -> StateView {
        match self {
            RequestState::Idle => StateView::Idle,
            RequestState::VerifyingEngine { config, file_identifier, code, token } => {
                StateView::VerifyingEngine {
                    config: config.deep_view(),
                    file_identifier: file_identifier.deep_view(),
                    code: code@,
                    token: *token,
                }
            },
            RequestState::WritingTempFile { analyzer, file_name, code } => {
                StateView::WritingTempFile {
                    config: analyzer.deep_view(),
                    file_name: file_name@,
                    code: code@,
                }
            },
            RequestState::RunningEngine { analyzer, file_name } => StateView::RunningEngine {
                config: analyzer.deep_view(),
                file_name: file_name@,
            },
            RequestState::ExtractingDiagnostics { analyzer, file_name, output } => {
                StateView::ExtractingDiagnostics {
                    config: analyzer.deep_view(),
                    file_name: file_name@,
                    output: output@,
                }
            },
            RequestState::CleaningUp { file_name, outcome } => StateView::CleaningUp {
                file_name: file_name@,
                outcome: response_view(*outcome),
            },
            RequestState::Done(response) => StateView::Done(response.deep_view()),
            RequestState::Failed(error) => StateView::Failed(*error),
        }
    }
}

impl DeepView for Event {
    type V = EventView;

    open spec fn deep_view(&self) -> EventView {
        match self {
            Event::Submitted { config, request, token } => EventView::Submitted {
                config: config.deep_view(),
                request: request.deep_view(),
                token: *token,
            },
            Event::Rejected => EventView::Rejected,
            Event::ProbeFinished(probe) => EventView::ProbeFinished(*probe),
            Event::WriteFinished { written } => EventView::WriteFinished { written: *written },
            Event::EngineFinished(run) => EventView::EngineFinished(run.deep_view()),
            Event::Resumed => EventView::Resumed,
            Event::RemoveFinished { removed } => EventView::RemoveFinished { removed: *removed },
        }
    }
}

impl<'a> DeepView for Action<'a> {
    type V = ActionView;

    open spec fn deep_view(&self) -> ActionView {
        match self {
            Action::AwaitRequest => ActionView::AwaitRequest,
            Action::ProbeEngine { program, argument } => ActionView::ProbeEngine {
                program: program@,
                argument: argument@,
            },
            Action::WriteTempFile { file_name, contents } => ActionView::WriteTempFile {
                file_name: file_name@,
                contents: contents@,
            },
            Action::RunEngine { program, argument, file_name } => ActionView::RunEngine {
                program: program@,
                argument: argument@,
                file_name: file_name@,
            },
            Action::ExtractDiagnostics => ActionView::ExtractDiagnostics,
            Action::RemoveTempFile { file_name } => ActionView::RemoveTempFile {
                file_name: file_name@,
            },
            Action::Finish => ActionView::Finish,
        }
    }
}

/// An outcome of the launcher, as an outcome of the request.
pub open spec fn lifted(outcome: Result<AnalysisResultView, LaunchError>) -> Result<
    AnalysisResultView,
    BridgeError,
> {
    match outcome {
        Ok(result) => Ok(result),
        Err(error) => Err(BridgeError::Launch(error)),
    }
}

/// The state that follows `state` when `event` is reported. An event that
/// the state does not wait for changes nothing.
pub open spec fn next_state(state: StateView, event: EventView) -> StateView {
    match state {
        StateView::Idle => match event {
            EventView::Submitted { config, request, token } => StateView::VerifyingEngine {
                config,
                file_identifier: request.file_identifier,
                code: request.code,
                token,
            },
            EventView::Rejected => StateView::Failed(BridgeError::RequestMalformed),
            _ => state,
        },
        StateView::VerifyingEngine { config, file_identifier, code, token } => match event {
            EventView::ProbeFinished(probe) => if !reachable(probe) {
                StateView::Failed(BridgeError::Launch(LaunchError::ExecutableUnreachable))
            } else {
                match temp_name_for(file_identifier, token) {
                    Some(file_name) => StateView::WritingTempFile { config, file_name, code },
                    None => StateView::Failed(BridgeError::Launch(LaunchError::InvalidFilePath)),
                }
            },
            _ => state,
        },
        StateView::WritingTempFile { config, file_name, code } => match event {
            EventView::WriteFinished { written } => if written {
                StateView::RunningEngine { config, file_name }
            } else {
                StateView::Failed(BridgeError::Launch(LaunchError::IoError))
            },
            _ => state,
        },
        StateView::RunningEngine { config, file_name } => match event {
            EventView::EngineFinished(run) => match run {
                RunView::Exited { success: false, stderr } => StateView::ExtractingDiagnostics {
                    config,
                    file_name,
                    output: stderr,
                },
                _ => StateView::CleaningUp { file_name, outcome: lifted(analysis_of(run)) },
            },
            _ => state,
        },
        StateView::ExtractingDiagnostics { config, file_name, output } => match event {
            EventView::Resumed => StateView::CleaningUp {
                file_name,
                outcome: lifted(analysis_of(RunView::Exited { success: false, stderr: output })),
            },
            _ => state,
        },
        StateView::CleaningUp { file_name, outcome } => match event {
            EventView::RemoveFinished { removed } => match outcome {
                Ok(response) => StateView::Done(response),
                Err(error) => StateView::Failed(error),
            },
            _ => state,
        },
        StateView::Done(_) => state,
        StateView::Failed(_) => state,
    }
}

/// What a state asks its caller to do.
pub open spec fn pending_action(state: StateView) -> ActionView {
    match state {
        StateView::Idle => ActionView::AwaitRequest,
        StateView::VerifyingEngine { config, .. } => ActionView::ProbeEngine {
            program: config.executable_path,
            argument: probe_argument(),
        },
        StateView::WritingTempFile { file_name, code, .. } => ActionView::WriteTempFile {
            file_name,
            contents: code,
        },
        StateView::RunningEngine { config, file_name } => ActionView::RunEngine {
            program: config.executable_path,
            argument: check_argument(),
            file_name,
        },
        StateView::ExtractingDiagnostics { .. } => ActionView::ExtractDiagnostics,
        StateView::CleaningUp { file_name, .. } => ActionView::RemoveTempFile { file_name },
        StateView::Done(_) => ActionView::Finish,
        StateView::Failed(_) => ActionView::Finish,
    }
}

/// The request is over.
pub open spec fn is_terminal(state: StateView) -> bool {
    state is Done || state is Failed
}

/// The outcome of a request that is over.
pub open spec fn outcome_of(state: StateView) -> Option<Result<AnalysisResultView, BridgeError>> {
    match state {
        StateView::Done(response) => Some(Ok(response)),
        StateView::Failed(error) => Some(Err(error)),
        _ => None,
    }
}

impl AnalysisResponse {
    /// Assembles the response from what the launcher found.
    pub fn from_result(result: AnalysisResult) -> (response: AnalysisResponse)
        ensures
            response.deep_view() == result.deep_view(),
    {
        AnalysisResponse {
            diagnostics: result.diagnostics,
            suggestions: result.suggestions,
            explanation: result.explanation,
        }
    }
}

/// Turns an outcome of the launcher into an outcome of the request.
fn lift(outcome: Result<AnalysisResult, LaunchError>) -> (lifted_outcome: Result<
    AnalysisResponse,
    BridgeError,
>)
    ensures
        response_view(lifted_outcome) == lifted(crate::launcher::outcome_view(outcome)),
{
    match outcome {
        Ok(result) => Ok(AnalysisResponse::from_result(result)),
        Err(error) => Err(BridgeError::from(error)),
    }
}

impl RequestState {
    /// The state of a request that was not submitted yet.
    pub fn new() -> (state: RequestState)
        ensures
            state.deep_view() == StateView::Idle,
    {
        RequestState::Idle
    }

    /// What the caller is to do in this state.
    pub fn action(&self) -> (action: Action<'_>)
        ensures
            action.deep_view() == pending_action(self.deep_view()),
    {
        match self {
            RequestState::Idle => Action::AwaitRequest,
            RequestState::VerifyingEngine { config, .. } => Action::ProbeEngine {
                program: config.executable_path.as_str(),
                argument: "--version",
            },
            RequestState::WritingTempFile { file_name, code, .. } => Action::WriteTempFile {
                file_name: file_name.as_str(),
                contents: code.as_str(),
            },
            RequestState::RunningEngine { analyzer, file_name } => Action::RunEngine {
                program: analyzer.program(),
                argument: "--check",
                file_name: file_name.as_str(),
            },
            RequestState::ExtractingDiagnostics { .. } => Action::ExtractDiagnostics,
            RequestState::CleaningUp { file_name, .. } => Action::RemoveTempFile {
                file_name: file_name.as_str(),
            },
            RequestState::Done(_) => Action::Finish,
            RequestState::Failed(_) => Action::Finish,
        }
    }

    /// Tests whether the request is over.
    pub fn is_finished(&self) -> (finished: bool)
        ensures
            finished == is_terminal(self.deep_view()),
    {
        match self {
            RequestState::Done(_) => true,
            RequestState::Failed(_) => true,
            _ => false,
        }
    }

    /// Takes the outcome of a request that is over; `None` while it is not.
    pub fn into_outcome(self) -> (outcome: Option<Result<AnalysisResponse, BridgeError>>)
        ensures
            match outcome {
                Some(result) => outcome_of(self.deep_view()) == Some(response_view(result)),
                None => outcome_of(self.deep_view()) is None,
            },
    {
        match self {
            RequestState::Done(response) => Some(Ok(response)),
            RequestState::Failed(error) => Some(Err(error)),
            _ => None,
        }
    }
}

/// Advances a request by one event: the outcome of what the request's state
/// asked for. A state passes over every event that it does not wait for, and
/// a request that is over stays as it is.
pub fn step(state: RequestState, event: Event) -> (next: RequestState)
    ensures
        next.deep_view() == next_state(state.deep_view(), event.deep_view()),
{
    match state {
        RequestState::Idle => match event {
            Event::Submitted { config, request, token } => RequestState::VerifyingEngine {
                config,
                file_identifier: request.file_identifier,
                code: request.code,
                token,
            },
            Event::Rejected => RequestState::Failed(BridgeError::RequestMalformed),
            _ => RequestState::Idle,
        },
        RequestState::VerifyingEngine { config, file_identifier, code, token } => match event {
            Event::ProbeFinished(probe) => match initialize(config, probe) {
                Ok(analyzer) => {
                    let name = match &file_identifier {
                        Some(path) => temp_file_name(Some(path.as_str()), token),
                        None => temp_file_name(None, token),
                    };
                    match name {
                        Some(file_name) => RequestState::WritingTempFile {
                            analyzer,
                            file_name,
                            code,
                        },
                        None => RequestState::Failed(
                            BridgeError::Launch(LaunchError::InvalidFilePath),
                        ),
                    }
                },
                Err(error) => RequestState::Failed(BridgeError::Launch(error)),
            },
            _ => RequestState::VerifyingEngine { config, file_identifier, code, token },
        },
        RequestState::WritingTempFile { analyzer, file_name, code } => match event {
            Event::WriteFinished { written } => if written {
                RequestState::RunningEngine { analyzer, file_name }
            } else {
                RequestState::Failed(BridgeError::Launch(LaunchError::IoError))
            },
            _ => RequestState::WritingTempFile { analyzer, file_name, code },
        },
        RequestState::RunningEngine { analyzer, file_name } => match event {
            Event::EngineFinished(run) => match run {
                RunOutcome::Exited { success: false, stderr } => {
                    RequestState::ExtractingDiagnostics { analyzer, file_name, output: stderr }
                },
                other => {
                    let outcome = lift(analyzer.analyze_code(other));
                    RequestState::CleaningUp { file_name, outcome }
                },
            },
            _ => RequestState::RunningEngine { analyzer, file_name },
        },
        RequestState::ExtractingDiagnostics { analyzer, file_name, output } => match event {
            Event::Resumed => {
                let run = RunOutcome::Exited { success: false, stderr: output };
                let outcome = lift(analyzer.analyze_code(run));
                RequestState::CleaningUp { file_name, outcome }
            },
            _ => RequestState::ExtractingDiagnostics { analyzer, file_name, output },
        },
        RequestState::CleaningUp { file_name, outcome } => match event {
            Event::RemoveFinished { removed } => match outcome {
                Ok(response) => RequestState::Done(response),
                Err(error) => RequestState::Failed(error),
            },
            _ => RequestState::CleaningUp { file_name, outcome },
        },
        RequestState::Done(response) => RequestState::Done(response),
        RequestState::Failed(error) => RequestState::Failed(error),
    }
}

/// Submits a request: reads the configuration in force and starts the
/// request's machine, which then asks for the engine to be probed. `token`
/// must differ from the token of every other request in flight.
pub fn analyze_code(store: &ConfigStore, request: AnalysisRequest, token: u64) -> (state:
    RequestState)
    ensures
        state.deep_view() == next_state(
            StateView::Idle,
            EventView::Submitted {
                config: store.deep_view().effective(),
                request: request.deep_view(),
                token,
            },
        ),
{
    let config = get_config(store);
    step(RequestState::new(), Event::Submitted { config, request, token })
}

/// The state that a request is in after `events` were reported in order.
pub open spec fn run(state: StateView, events: Seq<EventView>) -> StateView
    decreases events.len(),
{
    if events.len() == 0 {
        state
    } else {
        run(next_state(state, events[0]), events.drop_first())
    }
}

/// The states that a request enters as `events` are reported in order: one
/// for each event.
pub open spec fn visited(state: StateView, events: Seq<EventView>) -> Seq<StateView>
    decreases events.len(),
{
    if events.len() == 0 {
        Seq::empty()
    } else {
        seq![next_state(state, events[0])] + visited(
            next_state(state, events[0]),
            events.drop_first(),
        )
    }
}

/// The temporary file that exists in `state` and is yet to be removed.
pub open spec fn temp_file_of(state: StateView) -> Option<Seq<char>> {
    match state {
        StateView::RunningEngine { file_name, .. } => Some(file_name),
        StateView::ExtractingDiagnostics { file_name, .. } => Some(file_name),
        _ => None,
    }
}

/// `state` asks for the temporary file `file_name` to be removed.
pub open spec fn removes(state: StateView, file_name: Seq<char>) -> bool {
    pending_action(state) == (ActionView::RemoveTempFile { file_name })
}

/// `state` asks for a temporary file to be written.
pub open spec fn writes(state: StateView) -> bool {
    pending_action(state) is WriteTempFile
}

/// Reporting one event and then others is reporting them all in order.
pub proof fn lemma_run_first(state: StateView, event: EventView, rest: Seq<EventView>)
    ensures
        run(state, seq![event] + rest) == run(next_state(state, event), rest),
{
    let all = seq![event] + rest;
    assert(all[0] == event);
    assert(all.drop_first() == rest);
}

/// A request that is over stays as it is, whatever is reported.
pub proof fn lemma_terminal_absorbs(state: StateView, events: Seq<EventView>)
    requires
        is_terminal(state),
    ensures
        run(state, events) == state,
        forall|i: int| 0 <= i < visited(state, events).len() ==> visited(state, events)[i] == state,
    decreases events.len(),
{
    if events.len() > 0 {
        lemma_terminal_absorbs(state, events.drop_first());
        let rest = visited(state, events.drop_first());
        assert forall|i: int| 0 <= i < visited(state, events).len() implies visited(
            state,
            events,
        )[i] == state by {
            if i > 0 {
                assert(visited(state, events)[i] == rest[i - 1]);
            }
        }
    }
}

/// While the temporary file exists, the request either still holds it or
/// asks for its removal: no event lets go of it.
pub proof fn lemma_step_keeps_or_removes(state: StateView, event: EventView)
    requires
        temp_file_of(state) is Some,
    ensures
        temp_file_of(next_state(state, event)) == temp_file_of(state) || removes(
            next_state(state, event),
            temp_file_of(state)->0,
        ),
{
}

/// Once the temporary file was written, a request cannot end without having
/// asked for its removal, whether the engine ran, failed to start, or
/// reported findings.
pub proof fn lemma_cleanup_guaranteed(state: StateView, events: Seq<EventView>)
    requires
        temp_file_of(state) is Some,
        is_terminal(run(state, events)),
    ensures
        exists|i: int|
            0 <= i < visited(state, events).len() && removes(
                #[trigger] visited(state, events)[i],
                temp_file_of(state)->0,
            ),
    decreases events.len(),
{
    let name = temp_file_of(state)->0;
    let next = next_state(state, events[0]);
    let rest = events.drop_first();
    lemma_step_keeps_or_removes(state, events[0]);
    if removes(next, name) {
        assert(visited(state, events)[0] == next);
    } else {
        lemma_cleanup_guaranteed(next, rest);
        let j = choose|j: int|
            0 <= j < visited(next, rest).len() && removes(#[trigger] visited(next, rest)[j], name);
        assert(visited(state, events)[j + 1] == visited(next, rest)[j]);
    }
}

/// A temporary file that a request asked to have written is the one that it
/// asks to have removed: a request that waits for the write either learns
/// that the write failed, and fails with `IoError`, or cannot end without
/// having asked for the removal of that very file.
pub proof fn lemma_written_file_is_removed(state: StateView, events: Seq<EventView>)
    requires
        state is WritingTempFile,
        is_terminal(run(state, events)),
    ensures
        run(state, events) == StateView::Failed(BridgeError::Launch(LaunchError::IoError))
            || exists|i: int|
            0 <= i < visited(state, events).len() && removes(
                #[trigger] visited(state, events)[i],
                state->WritingTempFile_file_name,
            ),
    decreases events.len(),
{
    let name = state->WritingTempFile_file_name;
    let next = next_state(state, events[0]);
    let rest = events.drop_first();
    if next is RunningEngine {
        lemma_cleanup_guaranteed(next, rest);
        let j = choose|j: int|
            0 <= j < visited(next, rest).len() && removes(#[trigger] visited(next, rest)[j], name);
        assert(visited(state, events)[j + 1] == visited(next, rest)[j]);
    } else if next is Failed {
        lemma_terminal_absorbs(next, rest);
    } else {
        lemma_written_file_is_removed(next, rest);
        if run(state, events) != StateView::Failed(BridgeError::Launch(LaunchError::IoError)) {
            let j = choose|j: int|
                0 <= j < visited(next, rest).len() && removes(
                    #[trigger] visited(next, rest)[j],
                    name,
                );
            assert(visited(state, events)[j + 1] == visited(next, rest)[j]);
        }
    }
}

/// A request asks for the temporary file to be written only right after the
/// engine answered the probe.
pub proof fn lemma_write_needs_reachable_engine(state: StateView, event: EventView)
    requires
        !writes(state),
        writes(next_state(state, event)),
    ensures
        state is VerifyingEngine,
        event matches EventView::ProbeFinished(probe) && reachable(probe),
{
}

/// Where the engine does not answer the probe, the request fails with
/// `ExecutableUnreachable` at once and for good, and never asks for a
/// temporary file to be written.
pub proof fn lemma_unreachable_engine_fails(
    state: StateView,
    probe: ProbeOutcome,
    events: Seq<EventView>,
)
    requires
        state is VerifyingEngine,
        !reachable(probe),
    ensures
        run(state, seq![EventView::ProbeFinished(probe)] + events) == StateView::Failed(
            BridgeError::Launch(LaunchError::ExecutableUnreachable),
        ),
        forall|i: int|
            0 <= i < visited(state, seq![EventView::ProbeFinished(probe)] + events).len()
                ==> !writes(
                #[trigger] visited(state, seq![EventView::ProbeFinished(probe)] + events)[i],
            ),
{
    let failed = StateView::Failed(BridgeError::Launch(LaunchError::ExecutableUnreachable));
    let all = seq![EventView::ProbeFinished(probe)] + events;
    assert(all[0] == EventView::ProbeFinished(probe));
    assert(all.drop_first() == events);
    assert(next_state(state, all[0]) == failed);
    lemma_terminal_absorbs(failed, events);
    assert forall|i: int| 0 <= i < visited(state, all).len() implies !writes(
        #[trigger] visited(state, all)[i],
    ) by {
        if i > 0 {
            assert(visited(state, all)[i] == visited(failed, events)[i - 1]);
        }
    }
}

/// A run of the engine that exits with status zero is answered with no
/// diagnostics, no suggestions and no explanation, whatever the engine
/// printed and whether or not the temporary file could be removed.
pub proof fn lemma_clean_run_is_empty(
    config: ConfigView,
    file_name: Seq<char>,
    stderr: Seq<char>,
    removed: bool,
)
    ensures
        run(
            StateView::RunningEngine { config, file_name },
            seq![
                EventView::EngineFinished(RunView::Exited { success: true, stderr }),
                EventView::RemoveFinished { removed },
            ],
        ) == StateView::Done(AnalysisResultView::empty()),
{
    let exited = EventView::EngineFinished(RunView::Exited { success: true, stderr });
    let gone = EventView::RemoveFinished { removed };
    let start = StateView::RunningEngine { config, file_name };
    let cleaning = next_state(start, exited);
    assert(seq![exited, gone] == seq![exited] + seq![gone]);
    assert(seq![gone] == seq![gone] + Seq::<EventView>::empty());
    lemma_run_first(start, exited, seq![gone]);
    lemma_run_first(cleaning, gone, Seq::<EventView>::empty());
}

/// What a request is answered with, given how each step outside the machine
/// went: the probe, the writing of the temporary file, and the run of the
/// engine. The steps are taken in this order, and the first that fails
/// decides.
pub open spec fn answer(
    request: RequestView,
    token: u64,
    probe: ProbeOutcome,
    written: bool,
    engine: RunView,
) -> Result<AnalysisResultView, BridgeError> {
    if !reachable(probe) {
        Err(BridgeError::Launch(LaunchError::ExecutableUnreachable))
    } else if temp_name_for(request.file_identifier, token) is None {
        Err(BridgeError::Launch(LaunchError::InvalidFilePath))
    } else if !written {
        Err(BridgeError::Launch(LaunchError::IoError))
    } else {
        lifted(analysis_of(engine))
    }
}

/// A request that is submitted and then told how each step went ends with
/// [`answer`]. Events that come after the request has failed change nothing,
/// and neither does the outcome of removing the temporary file.
pub proof fn lemma_request_is_answered(
    config: ConfigView,
    request: RequestView,
    token: u64,
    probe: ProbeOutcome,
    written: bool,
    engine: RunView,
    removed: bool,
)
    ensures
        outcome_of(
            run(
                StateView::Idle,
                seq![
                    EventView::Submitted { config, request, token },
                    EventView::ProbeFinished(probe),
                    EventView::WriteFinished { written },
                    EventView::EngineFinished(engine),
                    EventView::Resumed,
                    EventView::RemoveFinished { removed },
                ],
            ),
        ) == Some(answer(request, token, probe, written, engine)),
{
    let e0 = EventView::Submitted { config, request, token };
    let e1 = EventView::ProbeFinished(probe);
    let e2 = EventView::WriteFinished { written };
    let e3 = EventView::EngineFinished(engine);
    let e4 = EventView::Resumed;
    let e5 = EventView::RemoveFinished { removed };
    let s1 = next_state(StateView::Idle, e0);
    let s2 = next_state(s1, e1);
    let s3 = next_state(s2, e2);
    let s4 = next_state(s3, e3);
    let s5 = next_state(s4, e4);
    let s6 = next_state(s5, e5);
    assert(seq![e0, e1, e2, e3, e4, e5] == seq![e0] + seq![e1, e2, e3, e4, e5]);
    assert(seq![e1, e2, e3, e4, e5] == seq![e1] + seq![e2, e3, e4, e5]);
    assert(seq![e2, e3, e4, e5] == seq![e2] + seq![e3, e4, e5]);
    assert(seq![e3, e4, e5] == seq![e3] + seq![e4, e5]);
    assert(seq![e4, e5] == seq![e4] + seq![e5]);
    assert(seq![e5] == seq![e5] + Seq::<EventView>::empty());
    lemma_run_first(StateView::Idle, e0, seq![e1, e2, e3, e4, e5]);
    lemma_run_first(s1, e1, seq![e2, e3, e4, e5]);
    lemma_run_first(s2, e2, seq![e3, e4, e5]);
    lemma_run_first(s3, e3, seq![e4, e5]);
    lemma_run_first(s4, e4, seq![e5]);
    lemma_run_first(s5, e5, Seq::<EventView>::empty());
    assert(run(StateView::Idle, seq![e0, e1, e2, e3, e4, e5]) == s6);
}

} // verus!
