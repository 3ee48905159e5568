use tengu::diff::{build_diff, diff_lines, DiffMark};

fn rows(text: &str) -> Vec<Vec<char>> {
    text.lines().map(|l| l.chars().collect()).collect()
}

#[test]
fn changed_line_is_shown_as_old_and_new() {
    let diff = build_diff("f.txt", "a\nb\nc\n", "a\nB\nc\n");
    assert_eq!(diff, "--- f.txt\n+++ f.txt\n@@\n a\n-b\n+B\n c\n");
}

#[test]
fn new_file_is_all_added() {
    let diff = build_diff("new.txt", "", "one\ntwo");
    assert_eq!(diff, "--- new.txt\n+++ new.txt\n@@\n+one\n+two\n");
}

#[test]
fn emptied_file_is_all_removed() {
    let diff = build_diff("old.txt", "one\ntwo\n", "");
    assert_eq!(diff, "--- old.txt\n+++ old.txt\n@@\n-one\n-two\n");
}

#[test]
fn unchanged_content_has_no_added_or_removed_line() {
    let content = "fn main() {\n    println!(\"hi\");\n}\n";
    let diff = build_diff("src/main.rs", content, content);
    assert_eq!(diff, "--- src/main.rs\n+++ src/main.rs\n@@\n fn main() {\n     println!(\"hi\");\n }\n");
    for line in diff.lines().skip(3) {
        assert!(line.starts_with(' '), "{:?}", line);
    }
    let entries = diff_lines(&rows(content), &rows(content));
    assert_eq!(entries.len(), 3);
    assert!(entries.iter().all(|e| e.mark == DiffMark::Same));
}

#[test]
fn empty_lines_are_not_shown() {
    let diff = build_diff("f", "a\n\nb\n", "a\n\nc\n");
    assert_eq!(diff, "--- f\n+++ f\n@@\n a\n-b\n+c\n");
    let diff = build_diff("f", "a\n\n", "a\nx\n");
    assert_eq!(diff, "--- f\n+++ f\n@@\n a\n+x\n");
    let diff = build_diff("f", "a\nx\n", "a\n\n");
    assert_eq!(diff, "--- f\n+++ f\n@@\n a\n-x\n");
}

#[test]
fn lines_are_aligned_by_number() {
    let diff = build_diff("f", "a\nb\n", "x\na\nb\n");
    assert_eq!(diff, "--- f\n+++ f\n@@\n-a\n+x\n-b\n+a\n+b\n");
}

#[test]
fn both_empty_gives_the_head_only() {
    assert_eq!(build_diff("f", "", ""), "--- f\n+++ f\n@@\n");
}

#[test]
fn carriage_returns_before_line_feeds_do_not_count() {
    let diff = build_diff("f", "a\r\nb\r\n", "a\nb\n");
    assert_eq!(diff, "--- f\n+++ f\n@@\n a\n b\n");
}

#[test]
fn diff_lines_mark_each_side() {
    let entries = diff_lines(&rows("same\nold"), &rows("same\nnew\nmore"));
    let got: Vec<(DiffMark, String)> =
        entries.iter().map(|e| (e.mark, e.text.iter().collect())).collect();
    assert_eq!(
        got,
        vec![
            (DiffMark::Same, "same".to_string()),
            (DiffMark::Removed, "old".to_string()),
            (DiffMark::Added, "new".to_string()),
            (DiffMark::Added, "more".to_string()),
        ]
    );
}
