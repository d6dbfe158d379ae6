//! Tests for the comparison engine and the diff renderer.

use parse_checker::compare::compare;
use parse_checker::diff::{diff_texts, render_diff, DiffSegment};
use parse_checker::outcome::{CompareError, Outcome, ProducerError};

fn previous_of(segments: &[DiffSegment]) -> String {
    let mut text = String::new();
    for seg in segments {
        match seg {
            DiffSegment::Equal(t) | DiffSegment::Deleted(t) => text.push_str(t),
            DiffSegment::Inserted(_) => {}
        }
    }
    text
}

fn current_of(segments: &[DiffSegment]) -> String {
    let mut text = String::new();
    for seg in segments {
        match seg {
            DiffSegment::Equal(t) | DiffSegment::Inserted(t) => text.push_str(t),
            DiffSegment::Deleted(_) => {}
        }
    }
    text
}

#[test]
fn identical_text_is_equivalent() {
    let outcome = compare(Ok("proc P = a.P;".to_string()), Ok("proc P = a.P;".to_string()));
    assert_eq!(outcome, Outcome::Equivalent);
}

#[test]
fn empty_text_is_equivalent() {
    assert_eq!(compare(Ok(String::new()), Ok(String::new())), Outcome::Equivalent);
}

#[test]
fn diverged_space_scenario() {
    // Current AST text "proc(a,b)" against previous AST text "proc(a, b)":
    // the extra space is a deleted segment between equal segments.
    let outcome = compare(Ok("proc(a,b)".to_string()), Ok("proc(a, b)".to_string()));
    let segments = match outcome {
        Outcome::Diverged(segments) => segments,
        other => panic!("expected Diverged, got {:?}", other),
    };
    assert_eq!(previous_of(&segments), "proc(a, b)");
    assert_eq!(current_of(&segments), "proc(a,b)");
    let deleted_at = segments
        .iter()
        .position(|s| *s == DiffSegment::Deleted(" ".to_string()))
        .expect("a deleted segment for the extra space");
    assert!(segments[..deleted_at].iter().any(|s| matches!(s, DiffSegment::Equal(_))));
    assert!(segments[deleted_at + 1..].iter().any(|s| matches!(s, DiffSegment::Equal(_))));
}

#[test]
fn diverged_reconstructs_both_texts() {
    let previous = "sort S;\nmap f: S -> S;\n";
    let current = "sort S;\nmap g: S # S -> S;\n";
    let outcome = compare(Ok(current.to_string()), Ok(previous.to_string()));
    match outcome {
        Outcome::Diverged(segments) => {
            assert_eq!(previous_of(&segments), previous);
            assert_eq!(current_of(&segments), current);
            assert!(segments.iter().any(|s| matches!(s, DiffSegment::Deleted(_))));
            assert!(segments.iter().any(|s| matches!(s, DiffSegment::Inserted(_))));
        }
        other => panic!("expected Diverged, got {:?}", other),
    }
}

#[test]
fn comparison_is_deterministic() {
    let run = || compare(Ok("f(x, y)".to_string()), Ok("f(x,y)".to_string()));
    assert_eq!(run(), run());
    let fail = || {
        compare(
            Err(ProducerError::Rejected("unexpected token".to_string())),
            Ok("f(x)".to_string()),
        )
    };
    assert_eq!(fail(), fail());
}

#[test]
fn current_producer_failure_short_circuits() {
    let outcome = compare(
        Err(ProducerError::Rejected("line 1: parse error".to_string())),
        Ok("anything".to_string()),
    );
    assert_eq!(
        outcome,
        Outcome::Failed(CompareError::Producer(ProducerError::Rejected(
            "line 1: parse error".to_string()
        )))
    );
}

#[test]
fn previous_producer_failure_short_circuits() {
    let outcome = compare(
        Ok("anything".to_string()),
        Err(ProducerError::ProcessFailed("exit status 1".to_string())),
    );
    assert_eq!(
        outcome,
        Outcome::Failed(CompareError::Producer(ProducerError::ProcessFailed(
            "exit status 1".to_string()
        )))
    );
}

#[test]
fn tool_not_found_is_never_a_verdict() {
    let run = |input: &str| {
        compare(
            Ok(input.to_string()),
            Err(ProducerError::ToolNotFound("mcrl2-2024".to_string())),
        )
    };
    for input in ["", "proc P = tau.P;", "(nested (text))"] {
        let outcome = run(input);
        assert!(!matches!(outcome, Outcome::Diverged(_)));
        assert!(!matches!(outcome, Outcome::Equivalent));
        assert_eq!(
            outcome,
            Outcome::Failed(CompareError::Producer(ProducerError::ToolNotFound(
                "mcrl2-2024".to_string()
            )))
        );
    }
}

#[test]
fn diff_of_equal_texts_is_all_equal_segments() {
    let segments = diff_texts("same text", "same text");
    assert!(segments.iter().all(|s| matches!(s, DiffSegment::Equal(_))));
    assert_eq!(previous_of(&segments), "same text");
    assert_eq!(current_of(&segments), "same text");
}

#[test]
fn diff_of_disjoint_texts_keeps_nothing() {
    let segments = diff_texts("a", "b");
    assert!(!segments.iter().any(|s| matches!(s, DiffSegment::Equal(_))));
    assert_eq!(previous_of(&segments), "a");
    assert_eq!(current_of(&segments), "b");
}

#[test]
fn rendering_marks_deletions_and_insertions() {
    let segments = diff_texts("a b", "a c");
    assert_eq!(render_diff(&segments), "a -b+c");
}

#[test]
fn rendering_concatenates_in_order() {
    let segments = vec![
        DiffSegment::Equal("x(".to_string()),
        DiffSegment::Deleted("old".to_string()),
        DiffSegment::Inserted("new".to_string()),
        DiffSegment::Equal(")".to_string()),
    ];
    assert_eq!(render_diff(&segments), "x(-old+new)");
}
