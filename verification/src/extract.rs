//! Turning the engine's free-text output into diagnostics and suggestions.
//!
//! The engine prints one finding per line. A line that holds the marker of an
//! error or of a warning becomes a diagnostic whose message is the whole line;
//! every other line is passed over. Where a line holds both markers, the
//! diagnostic is an error, so that severity is never under-reported. Each
//! error gets exactly one placeholder suggestion; warnings get none.

use vstd::prelude::*;
use vstd::string::StringExecFns;
use crate::model::{Diagnostic, DiagnosticSeverity, DiagnosticView, Suggestion, SuggestionView};
use crate::text::{
    chars_of, contains, contains_seq, lines_of, slice_of, span_texts, split_lines, spans_within,
    string_of,
};

verus! {

/// The text that marks a line as an error.
pub open spec fn error_marker() -> Seq<char> {
    "error:"@
}

/// The text that marks a line as a warning.
pub open spec fn warning_marker() -> Seq<char> {
    "warning:"@
}

/// The name under which the engine is recorded as the source of a diagnostic.
pub open spec fn engine_name() -> Seq<char> {
    "rust-analyzer"@
}

/// The title of every generated suggestion.
pub open spec fn suggestion_title() -> Seq<char> {
    "Fix error"@
}

/// What a suggestion's description starts with, before the diagnostic's
/// message.
pub open spec fn description_prefix() -> Seq<char> {
    "Suggestion to fix: "@
}

/// The text that stands in for a fix: it names no edit.
pub open spec fn fix_placeholder() -> Seq<char> {
    "// TODO: Implement fix"@
}

/// The severity that a line announces, if it announces one.
pub open spec fn severity_of_line(line: Seq<char>) -> Option<DiagnosticSeverity> {
    if contains_seq(line, error_marker()) {
        Some(DiagnosticSeverity::Error)
    } else if contains_seq(line, warning_marker()) {
        Some(DiagnosticSeverity::Warning)
    } else {
        None
    }
}

/// The diagnostic that a line gives rise to, if any.
pub open spec fn diagnostic_of_line(line: Seq<char>) -> Option<DiagnosticView> {
    match severity_of_line(line) {
        Some(severity) => Some(
            DiagnosticView {
                message: line,
                severity,
                range: None,
                code: None,
                source: Some(engine_name()),
            },
        ),
        None => None,
    }
}

/// The suggestion that a diagnostic gives rise to, if any.
pub open spec fn suggestion_for(d: DiagnosticView) -> Option<SuggestionView> {
    if d.severity == DiagnosticSeverity::Error {
        Some(
            SuggestionView {
                title: suggestion_title(),
                description: Some(description_prefix() + d.message),
                fix_text: fix_placeholder(),
                range: None,
            },
        )
    } else {
        None
    }
}

/// The diagnostics of a sequence of lines, in the order of the lines.
pub open spec fn diagnostics_of_lines(lines: Seq<Seq<char>>) -> Seq<DiagnosticView> {
    lines.filter_map(|line: Seq<char>| diagnostic_of_line(line))
}

/// The suggestions for a sequence of diagnostics, in the order of the
/// diagnostics.
pub open spec fn suggestions_for(diagnostics: Seq<DiagnosticView>) -> Seq<SuggestionView> {
    diagnostics.filter_map(|d: DiagnosticView| suggestion_for(d))
}

/// The diagnostics that the engine's output holds.
pub open spec fn diagnostics_in(output: Seq<char>) -> Seq<DiagnosticView> {
    diagnostics_of_lines(lines_of(output))
}

/// Taking one more line into account adds its diagnostic, if it has one, at
/// the end.
pub proof fn lemma_diagnostics_push(lines: Seq<Seq<char>>, line: Seq<char>)
    ensures
        diagnostics_of_lines(lines.push(line)) == match diagnostic_of_line(line) {
            Some(d) => diagnostics_of_lines(lines).push(d),
            None => diagnostics_of_lines(lines),
        },
{
    assert(lines.push(line).drop_last() == lines);
    assert(lines.push(line).last() == line);
}

/// Taking one more diagnostic into account adds its suggestion, if it has
/// one, at the end.
pub proof fn lemma_suggestions_push(diagnostics: Seq<DiagnosticView>, d: DiagnosticView)
    ensures
        suggestions_for(diagnostics.push(d)) == match suggestion_for(d) {
            Some(s) => suggestions_for(diagnostics).push(s),
            None => suggestions_for(diagnostics),
        },
{
    assert(diagnostics.push(d).drop_last() == diagnostics);
    assert(diagnostics.push(d).last() == d);
}

/// Every diagnostic comes from a line that announces a severity, and says no
/// more than that line does: its message is the line, its severity the one
/// that the line announces, and it has neither a range nor a code.
pub proof fn lemma_diagnostics_come_from_lines(lines: Seq<Seq<char>>)
    ensures
        diagnostics_of_lines(lines).len() <= lines.len(),
        forall|i: int|
            0 <= i < diagnostics_of_lines(lines).len() ==> exists|j: int|
                0 <= j < lines.len() && diagnostic_of_line(lines[j]) == Some(
                    #[trigger] diagnostics_of_lines(lines)[i],
                ),
    decreases lines.len(),
{
    if lines.len() > 0 {
        let front = lines.drop_last();
        let found = diagnostics_of_lines(lines);
        assert(lines == front.push(lines.last()));
        lemma_diagnostics_push(front, lines.last());
        lemma_diagnostics_come_from_lines(front);
        assert forall|i: int| 0 <= i < found.len() implies exists|j: int|
            0 <= j < lines.len() && diagnostic_of_line(lines[j]) == Some(#[trigger] found[i]) by {
            if i < diagnostics_of_lines(front).len() {
                let j = choose|j: int|
                    0 <= j < front.len() && diagnostic_of_line(front[j]) == Some(
                        diagnostics_of_lines(front)[i],
                    );
                assert(lines[j] == front[j]);
            } else {
                assert(diagnostic_of_line(lines[lines.len() - 1]) == Some(found[i]));
            }
        }
    }
}

/// What the engine's output gives rise to is well formed: each diagnostic is
/// an error or a warning attributed to the engine, and no range is made up.
pub proof fn lemma_diagnostics_well_formed(lines: Seq<Seq<char>>, i: int)
    requires
        0 <= i < diagnostics_of_lines(lines).len(),
    ensures
        ({
            let d = diagnostics_of_lines(lines)[i];
            &&& d.severity == DiagnosticSeverity::Error || d.severity
                == DiagnosticSeverity::Warning
            &&& severity_of_line(d.message) == Some(d.severity)
            &&& d.range is None
            &&& d.code is None
            &&& d.source == Some(engine_name())
        }),
{
    lemma_diagnostics_come_from_lines(lines);
}

/// The number of error diagnostics among `diagnostics`.
pub open spec fn error_count(diagnostics: Seq<DiagnosticView>) -> nat
    decreases diagnostics.len(),
{
    if diagnostics.len() == 0 {
        0
    } else if diagnostics.last().severity == DiagnosticSeverity::Error {
        error_count(diagnostics.drop_last()) + 1
    } else {
        error_count(diagnostics.drop_last())
    }
}

/// There is exactly one suggestion for each error, and none for anything
/// else.
pub proof fn lemma_one_suggestion_per_error(diagnostics: Seq<DiagnosticView>)
    ensures
        suggestions_for(diagnostics).len() == error_count(diagnostics),
    decreases diagnostics.len(),
{
    if diagnostics.len() > 0 {
        let front = diagnostics.drop_last();
        assert(diagnostics == front.push(diagnostics.last()));
        lemma_suggestions_push(front, diagnostics.last());
        lemma_one_suggestion_per_error(front);
    }
}

/// No suggestion carries a range: none can be told from the engine's text.
pub proof fn lemma_suggestions_have_no_range(diagnostics: Seq<DiagnosticView>)
    ensures
        forall|i: int|
            0 <= i < suggestions_for(diagnostics).len() ==> (#[trigger] suggestions_for(
                diagnostics,
            )[i]).range is None,
    decreases diagnostics.len(),
{
    if diagnostics.len() > 0 {
        let front = diagnostics.drop_last();
        assert(diagnostics == front.push(diagnostics.last()));
        lemma_suggestions_push(front, diagnostics.last());
        lemma_suggestions_have_no_range(front);
    }
}

/// Decides the severity that a line announces, given the two markers as
/// characters.
fn severity_of(line: &[char], error: &[char], warning: &[char]) -> (severity: Option<
    DiagnosticSeverity,
>)
    requires
        error@ == error_marker(),
        warning@ == warning_marker(),
    ensures
        severity == severity_of_line(line@),
{
    if contains(line, error) {
        Some(DiagnosticSeverity::Error)
    } else if contains(line, warning) {
        Some(DiagnosticSeverity::Warning)
    } else {
        None
    }
}

/// Decides the severity that a line announces. An error marker wins over a
/// warning marker on the same line.
pub fn classify(line: &[char]) -> (severity: Option<DiagnosticSeverity>)
    ensures
        severity == severity_of_line(line@),
{
    let error = chars_of("error:");
    let warning = chars_of("warning:");
    severity_of(line, error.as_slice(), warning.as_slice())
}

/// Builds the placeholder suggestion for an error diagnostic, and nothing for
/// a diagnostic of another severity.
pub fn suggest(d: &Diagnostic) -> (s: Option<Suggestion>)
    ensures
        s.deep_view() == suggestion_for(d.deep_view()),
{
    match d.severity {
        DiagnosticSeverity::Error => {
            let mut description = String::from_str("Suggestion to fix: ");
            description.append(d.message.as_str());
            Some(
                Suggestion {
                    title: String::from_str("Fix error"),
                    description: Some(description),
                    fix_text: String::from_str("// TODO: Implement fix"),
                    range: None,
                },
            )
        },
        _ => None,
    }
}

/// Extracts the diagnostics from the engine's output, and the suggestions
/// that go with them.
pub fn extract(output: &str) -> (found: (Vec<Diagnostic>, Vec<Suggestion>))
    ensures
        found.0.deep_view() == diagnostics_in(output@),
        found.1.deep_view() == suggestions_for(diagnostics_in(output@)),
{
    let chars = chars_of(output);
    let spans = split_lines(chars.as_slice());
    let error = chars_of("error:");
    let warning = chars_of("warning:");
    let ghost lines = lines_of(output@);
    let mut diagnostics: Vec<Diagnostic> = Vec::new();
    let mut i: usize = 0;
    proof {
        assert(lines.take(0) == Seq::<Seq<char>>::empty());
        assert(diagnostics.deep_view() == Seq::<DiagnosticView>::empty());
    }
    while i < spans.len()
        invariant
            i <= spans.len(),
            chars@ == output@,
            error@ == error_marker(),
            warning@ == warning_marker(),
            lines == lines_of(output@),
            spans_within(spans@, chars@.len()),
            span_texts(chars@, spans@) == lines,
            diagnostics.deep_view() == diagnostics_of_lines(lines.take(i as int)),
        decreases spans.len() - i,
    {
        let span = spans[i];
        let line = slice_of(chars.as_slice(), span);
        let ghost before = diagnostics.deep_view();
        proof {
            assert(line@ == lines[i as int]);
            assert(lines.take(i + 1) == lines.take(i as int).push(line@));
            lemma_diagnostics_push(lines.take(i as int), line@);
        }
        match severity_of(line, error.as_slice(), warning.as_slice()) {
            Some(severity) => {
                let d = Diagnostic {
                    message: string_of(line),
                    severity,
                    range: None,
                    code: None,
                    source: Some(String::from_str("rust-analyzer")),
                };
                diagnostics.push(d);
                proof {
                    assert(diagnostics.deep_view() == before.push(d.deep_view()));
                }
            },
            None => {},
        }
        i += 1;
    }
    proof {
        assert(lines.take(spans.len() as int) == lines);
    }
    let mut suggestions: Vec<Suggestion> = Vec::new();
    let mut k: usize = 0;
    let ghost all = diagnostics.deep_view();
    proof {
        assert(all.take(0) == Seq::<DiagnosticView>::empty());
        assert(suggestions.deep_view() == Seq::<SuggestionView>::empty());
    }
    while k < diagnostics.len()
        invariant
            k <= diagnostics.len(),
            all == diagnostics.deep_view(),
            suggestions.deep_view() == suggestions_for(all.take(k as int)),
        decreases diagnostics.len() - k,
    {
        let ghost before = suggestions.deep_view();
        proof {
            assert(all.take(k + 1) == all.take(k as int).push(diagnostics[k as int].deep_view()));
            lemma_suggestions_push(all.take(k as int), diagnostics[k as int].deep_view());
        }
        match suggest(&diagnostics[k]) {
            Some(s) => {
                suggestions.push(s);
                proof {
                    assert(suggestions.deep_view() == before.push(s.deep_view()));
                }
            },
            None => {},
        }
        k += 1;
    }
    proof {
        assert(all.take(diagnostics.len() as int) == all);
    }
    (diagnostics, suggestions)
}

} // verus!
