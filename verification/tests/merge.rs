use grok_code::tools::merge::{
    auto_resolve_conflict, first_version, resolve_by_content, MergeConflict, MergePlan,
};
use grok_code::tools::ResolveMergeConflict;

fn conflict(ours: &str, theirs: &str) -> MergeConflict {
    MergeConflict {
        full_match: String::new(),
        ours_branch: "main".to_string(),
        ours_content: ours.to_string(),
        theirs_branch: "feature".to_string(),
        theirs_content: theirs.to_string(),
    }
}

#[test]
fn test_auto_resolve_empty_conflict() {
    let conflict = MergeConflict {
        full_match: String::new(),
        ours_branch: "main".to_string(),
        ours_content: "".to_string(),
        theirs_branch: "feature".to_string(),
        theirs_content: "Some content".to_string(),
    };

    let (resolved, reason) = auto_resolve_conflict(&conflict);
    assert_eq!(resolved, "Some content");
    assert!(reason.contains("non-empty"));
}

#[test]
fn test_auto_resolve_identical_conflict() {
    let conflict = MergeConflict {
        full_match: String::new(),
        ours_branch: "main".to_string(),
        ours_content: "Same content".to_string(),
        theirs_branch: "feature".to_string(),
        theirs_content: "Same content".to_string(),
    };

    let (resolved, reason) = auto_resolve_conflict(&conflict);
    assert_eq!(resolved, "Same content");
    assert!(reason.contains("identical"));
}

#[test]
fn test_auto_resolve_import_conflict() {
    let conflict = MergeConflict {
        full_match: String::new(),
        ours_branch: "main".to_string(),
        ours_content: "import foo\nimport bar".to_string(),
        theirs_branch: "feature".to_string(),
        theirs_content: "import bar\nimport baz".to_string(),
    };

    let (resolved, reason) = auto_resolve_conflict(&conflict);
    assert!(resolved.contains("import bar"));
    assert!(resolved.contains("import baz"));
    assert!(resolved.contains("import foo"));
    assert!(reason.contains("Merged import"));
}

#[test]
fn test_auto_resolve_version_conflict() {
    let conflict = MergeConflict {
        full_match: String::new(),
        ours_branch: "main".to_string(),
        ours_content: "version = \"1.2.3\"".to_string(),
        theirs_branch: "feature".to_string(),
        theirs_content: "version = \"1.3.0\"".to_string(),
    };

    let (resolved, reason) = auto_resolve_conflict(&conflict);
    assert_eq!(resolved, "version = \"1.3.0\"");
    assert!(reason.contains("higher version"));
}

#[test]
fn test_merge_strategies() {
    let tool = ResolveMergeConflict;

    let test_content = "Some code before\n<<<<<<< HEAD\nOur version\n=======\nTheir version\n>>>>>>> feature\nSome code after";

    let conflicts = tool.conflicts(test_content);
    assert_eq!(conflicts.len(), 1);
    match tool.plan_for(test_content, &conflicts, "/tmp/test_merge.txt", "ours", false) {
        MergePlan::Write { content: resolved, conflicts: count } => {
            assert_eq!(count, 1);
            assert!(resolved.contains("Our version"));
            assert!(!resolved.contains("Their version"));
            assert!(!resolved.contains("<<<<<<<"));
            assert_eq!(resolved, "Some code before\nOur version\nSome code after");
        }
        MergePlan::Answer(text) => panic!("the conflict is resolved, not answered: {text}"),
    }
    assert!(tool
        .success(1, "ours", "/tmp/test_merge.txt.20240101_000000.bak")
        .contains("Successfully resolved"));
}

#[test]
fn imports_are_merged_sorted_and_once() {
    let (resolved, reason) = auto_resolve_conflict(&conflict(
        "import foo\nimport bar",
        "import bar\nimport baz",
    ));
    assert_eq!(resolved, "import bar\nimport baz\nimport foo");
    assert_eq!(reason, "Merged import statements");
    let (resolved, _) = auto_resolve_conflict(&conflict("use b;\nuse a;\n", "use a;\nuse c;"));
    assert_eq!(resolved, "use a;\nuse b;\nuse c;");
}

#[test]
fn every_rule_of_auto_resolution() {
    let text = |c: &MergeConflict| auto_resolve_conflict(c);
    assert_eq!(text(&conflict(" \n", "x")), ("x".to_string(), "Chose non-empty version (theirs)".to_string()));
    assert_eq!(text(&conflict("x", "")), ("x".to_string(), "Chose non-empty version (ours)".to_string()));
    assert_eq!(text(&conflict("", "")), (String::new(), "Both versions identical".to_string()));
    assert_eq!(
        text(&conflict("v 2.0.0", "v 1.9.9")),
        ("v 2.0.0".to_string(), "Chose higher version number (ours)".to_string())
    );
    assert_eq!(
        text(&conflict("v 1.2.3", "w 1.2.3")),
        ("w 1.2.3".to_string(), "Chose higher version number (theirs)".to_string())
    );
    assert_eq!(
        text(&conflict("// a\n// b\n// c\nx", "// a\ny")),
        ("// a\n// b\n// c\nx".to_string(), "Chose version with more comments (ours)".to_string())
    );
    assert_eq!(
        text(&conflict("y", "  # one\n\t// two\nz")),
        ("  # one\n\t// two\nz".to_string(), "Chose version with more comments (theirs)".to_string())
    );
    assert_eq!(
        text(&conflict("a long implementation", "short")),
        ("a long implementation".to_string(), "Chose more complete implementation (ours)".to_string())
    );
    assert_eq!(
        text(&conflict("ab", "abcde")),
        ("abcde".to_string(), "Chose more complete implementation (theirs)".to_string())
    );
    assert_eq!(
        text(&conflict("left", "right")),
        (
            "// AUTO-MERGED: Kept both versions\n// === Original (main): ===\nleft\n// === Alternative (feature): ===\nright".to_string(),
            "Kept both versions with markers".to_string()
        )
    );
}

#[test]
fn versions_are_read_and_given_versions_decide() {
    assert_eq!(first_version("version = \"1.22.3\""), Some((1, 22, 3)));
    assert_eq!(first_version("a 1.2 b 3.4.5 c 6.7.8"), Some((3, 4, 5)));
    assert_eq!(first_version("no version"), None);
    // a number that does not fit counts as zero
    assert_eq!(first_version("99999999999.1.2"), Some((0, 1, 2)));
    let c = conflict("left", "right");
    assert_eq!(resolve_by_content(&c, Some((1, 0, 0)), Some((0, 9, 9))).0, "left");
    assert_eq!(resolve_by_content(&c, Some((1, 0, 0)), Some((1, 0, 0))).0, "right");
    assert_eq!(resolve_by_content(&c, Some((1, 0, 0)), None).1, "Kept both versions with markers");
}

const TWO: &str = "a\n<<<<<<< HEAD\none\n=======\nuno\n>>>>>>> topic\nb\n<<<<<<< HEAD\nv1.0.0\n=======\nv1.0.1\n>>>>>>> topic\nc";

#[test]
fn conflicts_are_found_in_order() {
    let tool = ResolveMergeConflict;
    let conflicts = tool.conflicts(TWO);
    assert_eq!(conflicts.len(), 2);
    assert_eq!(conflicts[0].full_match, "<<<<<<< HEAD\none\n=======\nuno\n>>>>>>> topic");
    assert_eq!(conflicts[0].ours_branch, "HEAD");
    assert_eq!(conflicts[0].ours_content, "one");
    assert_eq!(conflicts[0].theirs_content, "uno");
    assert_eq!(conflicts[0].theirs_branch, "topic");
    assert_eq!(conflicts[1].ours_content, "v1.0.0");
    assert!(tool.conflicts("nothing here").is_empty());
}

#[test]
fn strategies_replace_the_conflicts() {
    let tool = ResolveMergeConflict;
    let conflicts = tool.conflicts(TWO);
    let resolved = |strategy: &str| match tool.plan_for(TWO, &conflicts, "f", strategy, false) {
        MergePlan::Write { content, conflicts: 2 } => content,
        other => panic!("unexpected plan {other:?}"),
    };
    assert_eq!(resolved("ours"), "a\none\nb\nv1.0.0\nc");
    assert_eq!(resolved("theirs"), "a\nuno\nb\nv1.0.1\nc");
    assert_eq!(resolved("both"), "a\none\nuno\nb\nv1.0.0\nv1.0.1\nc");
    assert_eq!(
        resolved("auto"),
        "a\n// AUTO-MERGED: Kept both versions\n// === Original (HEAD): ===\none\n// === Alternative (topic): ===\nuno\nb\nv1.0.1\nc"
    );
    match tool.plan_for(TWO, &conflicts, "f", "interactive", false) {
        MergePlan::Answer(text) => assert_eq!(
            text,
            "Unknown strategy 'interactive'. Use 'ours', 'theirs', 'both', or 'auto'."
        ),
        other => panic!("unexpected plan {other:?}"),
    }
    match tool.plan_for("clean", &Vec::new(), "f", "ours", false) {
        MergePlan::Answer(text) => assert_eq!(text, "No merge conflicts found in the file."),
        other => panic!("unexpected plan {other:?}"),
    }
}

#[test]
fn dry_run_previews_each_conflict() {
    let tool = ResolveMergeConflict;
    let conflicts = tool.conflicts(TWO);
    let preview = |strategy: &str| match tool.plan_for(TWO, &conflicts, "src/f.rs", strategy, true) {
        MergePlan::Answer(text) => text,
        other => panic!("unexpected plan {other:?}"),
    };
    assert_eq!(
        preview("auto"),
        "Dry-run: Found 2 conflict(s) in src/f.rs\nWould resolve using 'auto' strategy:\n\nConflict #1: HEAD vs topic\n  → Auto-resolution: Kept both versions with markers\nConflict #2: HEAD vs topic\n  → Auto-resolution: Chose higher version number (theirs)\n"
    );
    assert!(preview("ours").contains("Conflict #2: HEAD vs topic\n  → Would keep our version\n"));
    assert!(preview("theirs").contains("  → Would keep their version\n"));
    assert!(preview("both").contains("  → Would keep both versions\n"));
    assert!(preview("interactive").contains("  → Would require manual resolution\n"));
    assert_eq!(tool.strategy(None), "auto");
    assert_eq!(tool.strategy(Some("ours")), "ours");
    assert_eq!(
        tool.question("src/f.rs", "auto"),
        "resolve merge conflicts in src/f.rs using 'auto' strategy"
    );
    assert_eq!(
        tool.success(2, "both", "f.bak"),
        "Successfully resolved 2 conflict(s) using 'both' strategy. Original backed up to f.bak"
    );
}
