use rust_analyzer_bridge::model::{AnalysisResult, Position, Range};

fn at(line: u32, character: u32) -> Position {
    Position { line, character }
}

#[test]
fn position_order_goes_by_line_then_character() {
    assert!(at(0, 0).is_at_or_before(&at(0, 0)));
    assert!(at(0, 5).is_at_or_before(&at(1, 0)));
    assert!(at(2, 3).is_at_or_before(&at(2, 4)));
    assert!(!at(2, 4).is_at_or_before(&at(2, 3)));
    assert!(!at(3, 0).is_at_or_before(&at(2, 9)));
}

#[test]
fn range_is_ordered_when_end_is_not_before_start() {
    assert!(Range { start: at(1, 1), end: at(1, 1) }.is_ordered());
    assert!(Range { start: at(1, 1), end: at(4, 0) }.is_ordered());
    assert!(!Range { start: at(1, 2), end: at(1, 1) }.is_ordered());
    assert!(!Range { start: at(5, 0), end: at(4, 9) }.is_ordered());
}

#[test]
fn empty_result_holds_nothing() {
    let result = AnalysisResult::empty();
    assert!(result.diagnostics.is_empty());
    assert!(result.suggestions.is_empty());
    assert_eq!(result.explanation, None);
}
