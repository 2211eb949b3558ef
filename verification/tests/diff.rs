use grok_code::tui::diff::{parse_unified_diff, DiffHunk, DiffLineType, DiffView};

const SAMPLE: &str = "diff --git a/src/lib.rs b/src/lib.rs\nindex 111..222 100644\n--- a/src/lib.rs\n+++ b/src/lib.rs\n@@ -10,3 +10,4 @@ fn main() {\n context\n-removed\n+added one\n+added two\n\\ No newline\ndiff --git a/b.txt b/b.txt\n--- a/b.txt\n+++ b/b.txt\n@@ -1 +1 @@\n-old\r\n+new\n";

#[test]
fn diff_is_split_into_hunks_per_file() {
    let hunks = parse_unified_diff(SAMPLE);
    assert_eq!(hunks.len(), 2);
    assert_eq!(hunks[0].file_path, "src/lib.rs");
    assert_eq!(hunks[1].file_path, "b.txt");
}

#[test]
fn hunk_header_sets_ranges_and_numbers() {
    let hunks = parse_unified_diff(SAMPLE);
    let h = &hunks[0];
    assert_eq!((h.old_start, h.old_count, h.new_start, h.new_count), (10, 3, 10, 4));
    assert_eq!(h.lines.len(), 6);
    assert!(h.lines[0].line_type == DiffLineType::Header);
    assert_eq!(h.lines[0].content, "@@ -10,3 +10,4 @@ fn main() {");
    assert_eq!((h.lines[0].old_line_num, h.lines[0].new_line_num), (None, None));

    assert!(h.lines[1].line_type == DiffLineType::Context);
    assert_eq!(h.lines[1].content, "context");
    assert_eq!((h.lines[1].old_line_num, h.lines[1].new_line_num), (Some(10), Some(10)));

    assert!(h.lines[2].line_type == DiffLineType::Removed);
    assert_eq!(h.lines[2].content, "removed");
    assert_eq!((h.lines[2].old_line_num, h.lines[2].new_line_num), (Some(11), None));

    assert!(h.lines[3].line_type == DiffLineType::Added);
    assert_eq!(h.lines[3].content, "added one");
    assert_eq!((h.lines[3].old_line_num, h.lines[3].new_line_num), (None, Some(11)));
    assert_eq!((h.lines[4].old_line_num, h.lines[4].new_line_num), (None, Some(12)));

    // a line without a marker is context and keeps its text
    assert!(h.lines[5].line_type == DiffLineType::Context);
    assert_eq!(h.lines[5].content, "\\ No newline");
    assert_eq!((h.lines[5].old_line_num, h.lines[5].new_line_num), (Some(12), Some(13)));
}

#[test]
fn range_without_count_has_count_one() {
    let hunks = parse_unified_diff(SAMPLE);
    let h = &hunks[1];
    assert_eq!((h.old_start, h.old_count, h.new_start, h.new_count), (1, 1, 1, 1));
    // a carriage return before the line feed is no part of the line
    assert_eq!(h.lines[1].content, "old");
    assert_eq!(h.lines[2].content, "new");
}

#[test]
fn unreadable_ranges_default_to_one() {
    let hunks = parse_unified_diff("+++ b/f\n@@ -x,y +3,z @@\n");
    assert_eq!(hunks.len(), 1);
    let h = &hunks[0];
    assert_eq!((h.old_start, h.old_count, h.new_start, h.new_count), (1, 1, 3, 1));
    let short = parse_unified_diff("+++ b/f\n@@ -5,6\n a\n");
    // fewer than three words: the ranges stay as they were
    assert_eq!((short[0].old_start, short[0].old_count), (0, 0));
    assert_eq!(short[0].lines[1].old_line_num, Some(0));
}

#[test]
fn text_outside_a_hunk_is_passed_over() {
    assert_eq!(parse_unified_diff("").len(), 0);
    assert_eq!(parse_unified_diff("just text\n+more\n@@ -1 +1 @@\n").len(), 0);
    // a second file header without `diff --git` does not open a new hunk
    let hunks = parse_unified_diff("+++ b/one\n+++ b/two\n+x\n");
    assert_eq!(hunks.len(), 1);
    assert_eq!(hunks[0].file_path, "one");
    assert_eq!(hunks[0].lines.len(), 1);
}

#[test]
fn line_numbers_stop_at_the_greatest() {
    let text = format!("+++ b/f\n@@ -{} +1 @@\n-a\n-b\n", usize::MAX);
    let hunks = parse_unified_diff(&text);
    assert_eq!(hunks[0].lines[1].old_line_num, Some(usize::MAX));
    assert_eq!(hunks[0].lines[2].old_line_num, Some(usize::MAX));
    let over = format!("+++ b/f\n@@ -{}0 +1 @@\n-a\n", usize::MAX);
    assert_eq!(parse_unified_diff(&over)[0].old_start, 1);
}

#[test]
fn view_scrolls_within_bounds() {
    let hunks: Vec<DiffHunk> = parse_unified_diff(SAMPLE);
    let mut view = DiffView::new(hunks);
    assert_eq!(view.scroll_offset(), 0);
    assert_eq!(view.shown_hunks().len(), 2);
    view.scroll_down(5);
    assert_eq!(view.scroll_offset(), 5);
    view.scroll_up(2);
    assert_eq!(view.scroll_offset(), 3);
    view.scroll_up(10);
    assert_eq!(view.scroll_offset(), 0);
    view.scroll_down(usize::MAX);
    view.scroll_down(1);
    assert_eq!(view.scroll_offset(), usize::MAX);
}
