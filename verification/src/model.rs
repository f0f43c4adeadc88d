//! The data that travels between a caller and the bridge: positions, ranges,
//! diagnostics, suggestions and the result of one analysis.

use vstd::prelude::*;

verus! {

/// How serious a diagnostic is.
#[derive(Debug, Clone, Copy, PartialEq, Eq, Structural)]
pub enum DiagnosticSeverity {
    Error,
    Warning,
    Information,
    Hint,
}

/// A place in a document. Lines and characters are counted from zero.
#[derive(Debug, Clone, Copy, PartialEq, Eq, Structural)]
pub struct Position {
    pub line: u32,
    pub character: u32,
}

/// A stretch of a document between two positions.
#[derive(Debug, Clone, Copy, PartialEq, Eq, Structural)]
pub struct Range {
    pub start: Position,
    pub end: Position,
}

/// One finding about the submitted code.
#[derive(Debug, Clone, PartialEq, Eq)]
pub struct Diagnostic {
    pub message: String,
    pub severity: DiagnosticSeverity,
    pub range: Option<Range>,
    pub code: Option<String>,
    pub source: Option<String>,
}

/// A proposed edit that may remedy a diagnostic.
#[derive(Debug, Clone, PartialEq, Eq)]
pub struct Suggestion {
    pub title: String,
    pub description: Option<String>,
    pub fix_text: String,
    pub range: Option<Range>,
}

/// What one analysis found: diagnostics in the order in which the engine
/// reported them, the suggestions derived from them, and a note on who did the
/// analysis.
#[derive(Debug, Clone, PartialEq, Eq)]
pub struct AnalysisResult {
    pub diagnostics: Vec<Diagnostic>,
    pub suggestions: Vec<Suggestion>,
    pub explanation: Option<String>,
}

/// The mathematical content of a [`Diagnostic`].
pub struct DiagnosticView {
    pub message: Seq<char>,
    pub severity: DiagnosticSeverity,
    pub range: Option<Range>,
    pub code: Option<Seq<char>>,
    pub source: Option<Seq<char>>,
}

/// The mathematical content of a [`Suggestion`].
pub struct SuggestionView {
    pub title: Seq<char>,
    pub description: Option<Seq<char>>,
    pub fix_text: Seq<char>,
    pub range: Option<Range>,
}

/// The mathematical content of an [`AnalysisResult`].
pub struct AnalysisResultView {
    pub diagnostics: Seq<DiagnosticView>,
    pub suggestions: Seq<SuggestionView>,
    pub explanation: Option<Seq<char>>,
}

impl DeepView for Diagnostic {
    type V = DiagnosticView;

    open spec fn deep_view(&self) -> DiagnosticView {
        DiagnosticView {
            message: self.message@,
            severity: self.severity,
            range: self.range,
            code: self.code.deep_view(),
            source: self.source.deep_view(),
        }
    }
}

impl DeepView for Suggestion {
    type V = SuggestionView;

    open spec fn deep_view(&self) -> SuggestionView {
        SuggestionView {
            title: self.title@,
            description: self.description.deep_view(),
            fix_text: self.fix_text@,
            range: self.range,
        }
    }
}

impl DeepView for AnalysisResult {
    type V = AnalysisResultView;

    open spec fn deep_view(&self) -> AnalysisResultView {
        AnalysisResultView {
            diagnostics: self.diagnostics.deep_view(),
            suggestions: self.suggestions.deep_view(),
            explanation: self.explanation.deep_view(),
        }
    }
}

impl Position {
    /// `self` does not come after `other` in the document.
    pub open spec fn at_or_before(self, other: Position) -> bool {
        self.line < other.line || (self.line == other.line && self.character <= other.character)
    }

    /// Tests whether `self` does not come after `other` in the document.
    pub fn is_at_or_before(&self, other: &Position) -> (b: bool)
        ensures
            b == self.at_or_before(*other),
    {
        self.line < other.line || (self.line == other.line && self.character <= other.character)
    }
}

impl Range {
    /// The end of the range is not before its start.
    pub open spec fn ordered(self) -> bool {
        self.start.at_or_before(self.end)
    }

    /// Tests whether the end of the range is not before its start.
    pub fn is_ordered(&self) -> (b: bool)
        ensures
            b == self.ordered(),
    {
        self.start.is_at_or_before(&self.end)
    }
}

/// A range, where there is one, has its end at or after its start.
pub open spec fn range_ordered(range: Option<Range>) -> bool {
    range matches Some(r) ==> r.ordered()
}

impl AnalysisResultView {
    /// The result with nothing in it: what an engine run that exits with
    /// status zero stands for.
    pub open spec fn empty() -> AnalysisResultView {
        AnalysisResultView {
            diagnostics: Seq::empty(),
            suggestions: Seq::empty(),
            explanation: None,
        }
    }

    /// Every range that the result carries is ordered.
    pub open spec fn ranges_ordered(self) -> bool {
        &&& forall|i: int|
            0 <= i < self.diagnostics.len() ==> range_ordered(
                (#[trigger] self.diagnostics[i]).range,
            )
        &&& forall|i: int|
            0 <= i < self.suggestions.len() ==> range_ordered(
                (#[trigger] self.suggestions[i]).range,
            )
    }
}

impl AnalysisResult {
    /// The result with no diagnostics, no suggestions and no explanation.
    pub fn empty() -> (r: AnalysisResult)
        ensures
            r.deep_view() == AnalysisResultView::empty(),
    {
        let r = AnalysisResult {
            diagnostics: Vec::new(),
            suggestions: Vec::new(),
            explanation: None,
        };
        proof {
            assert(r.diagnostics.deep_view() =~= Seq::<DiagnosticView>::empty());
            assert(r.suggestions.deep_view() =~= Seq::<SuggestionView>::empty());
        }
        r
    }
}

} // verus!
