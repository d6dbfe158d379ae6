//! Tests for the tree pretty-printer.

use parse_checker::pretty::print_indented;

fn strip_layout(s: &str) -> String {
    s.chars().filter(|c| *c != ' ' && *c != '\n' && *c != '\r').collect()
}

#[test]
fn nested_indentation_scenario() {
    let rendered = print_indented("(A (B) (C (D)))");
    assert_eq!(
        rendered,
        "(\n  A (\n    B\n  ) (\n    C (\n      D\n    )\n  )\n)\n"
    );
    // "D" sits at depth 3: six spaces of indentation lead its line.
    let d_line = rendered.lines().find(|l| l.contains('D')).unwrap();
    assert_eq!(d_line, "      D");
    // Each ')' outdents exactly one level before being emitted: the lines it
    // opens carry two spaces per remaining level.
    let close_indents: Vec<usize> = rendered
        .lines()
        .filter(|l| l.trim_start().starts_with(')'))
        .map(|l| l.len() - l.trim_start().len())
        .collect();
    assert_eq!(close_indents, vec![2, 4, 2, 0]);
}

#[test]
fn depth_never_underflows() {
    // Excess ')' are rendered at depth zero, each on a fresh unindented line.
    assert_eq!(print_indented("))"), "\n)\n)\n");
    assert_eq!(print_indented("a)b"), "a\n)b\n");
    assert_eq!(print_indented(")(x)"), "\n)(\n  x\n)\n");
}

#[test]
fn existing_line_breaks_are_suppressed() {
    assert_eq!(print_indented("a\nb\rc"), "abc\n");
    assert_eq!(print_indented("(a\r\nb)"), "(\n  ab\n)\n");
}

#[test]
fn empty_input_yields_single_line_break() {
    assert_eq!(print_indented(""), "\n");
}

#[test]
fn plain_text_is_copied_verbatim() {
    assert_eq!(print_indented("sort Nat;"), "sort Nat;\n");
}

#[test]
fn idempotent_on_structure() {
    let flat = "(A (B) (C (D)))";
    let once = print_indented(flat);
    // Pretty-printing rearranges layout only.
    assert_eq!(strip_layout(&once), strip_layout(flat));
    // Pretty-printing the output with its indentation stripped nests exactly
    // as pretty-printing the original flat text does.
    assert_eq!(print_indented(&strip_layout(&once)), print_indented(&strip_layout(flat)));
}

#[test]
fn idempotent_on_structure_with_unbalanced_input() {
    let flat = "x))(y";
    let once = print_indented(flat);
    assert_eq!(strip_layout(&once), strip_layout(flat));
    assert_eq!(print_indented(&strip_layout(&once)), print_indented(&strip_layout(flat)));
}
