use grok_code::api::{FunctionCall, ToolCall};
use grok_code::dispatch::{
    invocations, is_sequential_tool, merge_results, plan_batch, Completion, UnitOutcome,
};
use grok_code::display::{display_result, tool_action, tool_icon};

fn call(id: &str, name: &str, arguments: &str) -> ToolCall {
    ToolCall {
        id: id.to_string(),
        kind: "function".to_string(),
        function: FunctionCall { name: name.to_string(), arguments: arguments.to_string() },
    }
}

#[test]
fn tools_that_change_the_repository_run_alone() {
    assert!(is_sequential_tool("create_commit"));
    assert!(is_sequential_tool("submit_pr"));
    assert!(is_sequential_tool("resolve_merge_conflict"));
    assert!(!is_sequential_tool("read_file"));
    assert!(!is_sequential_tool("run_shell_command"));
    assert!(!is_sequential_tool("Create_Commit"));
    assert!(!is_sequential_tool(""));
}

#[test]
fn batch_is_numbered_and_split_in_order() {
    let batch = invocations(&[
        call("a", "submit_pr", "{\"title\":\"t\"}"),
        call("b", "read_file", "{}"),
        call("c", "create_commit", "{}"),
        call("d", "list_files", "{}"),
    ]);
    assert_eq!(batch.len(), 4);
    assert_eq!(batch[0].index, 0);
    assert_eq!(batch[0].arguments, "{\"title\":\"t\"}");
    assert_eq!(batch[3].id, "d");
    let plan = plan_batch(&batch);
    let parallel: Vec<(usize, &str)> =
        plan.parallel.iter().map(|i| (i.index, i.name.as_str())).collect();
    let sequential: Vec<(usize, &str)> =
        plan.sequential.iter().map(|i| (i.index, i.name.as_str())).collect();
    assert_eq!(parallel, vec![(1, "read_file"), (3, "list_files")]);
    assert_eq!(sequential, vec![(0, "submit_pr"), (2, "create_commit")]);
    let none = plan_batch(&[]);
    assert!(none.parallel.is_empty() && none.sequential.is_empty());
}

#[test]
fn results_come_back_in_the_order_of_the_calls() {
    let batch = invocations(&[
        call("a", "read_file", "{}"),
        call("b", "create_commit", "{}"),
        call("c", "list_files", "{}"),
    ]);
    let finished = |index: usize, text: &str| Completion {
        index,
        outcome: UnitOutcome::Finished(text.to_string()),
    };
    let expected = vec![(0, "a", "read_file", "A"), (1, "b", "create_commit", "B"), (2, "c", "list_files", "C")];
    for order in [[0, 1, 2], [0, 2, 1], [1, 0, 2], [1, 2, 0], [2, 0, 1], [2, 1, 0]] {
        let texts = ["A", "B", "C"];
        let completions: Vec<Completion> =
            order.iter().map(|&i| finished(i, texts[i])).collect();
        let merged = merge_results(&batch, &completions);
        let got: Vec<(usize, &str, &str, &str)> = merged
            .iter()
            .map(|o| (o.index, o.id.as_str(), o.name.as_str(), o.result.as_str()))
            .collect();
        assert_eq!(got, expected);
    }
}

#[test]
fn unit_failure_becomes_a_result() {
    let batch = invocations(&[call("a", "read_file", "{}"), call("b", "list_files", "{}")]);
    let merged = merge_results(
        &batch,
        &[Completion { index: 1, outcome: UnitOutcome::Failed("JoinError: panic".to_string()) }],
    );
    assert_eq!(merged.len(), 2);
    assert_eq!(merged[0].result, "Error executing tool: no result");
    assert_eq!(merged[1].result, "Error executing tool: JoinError: panic");
    assert_eq!(merged[1].id, "b");
    // the first completion of a call counts
    let twice = merge_results(
        &batch,
        &[
            Completion { index: 0, outcome: UnitOutcome::Finished("first".to_string()) },
            Completion { index: 0, outcome: UnitOutcome::Finished("second".to_string()) },
        ],
    );
    assert_eq!(twice[0].result, "first");
}

#[test]
fn tools_are_shown_with_icon_and_phrase() {
    assert_eq!(tool_icon("read_file"), "📖");
    assert_eq!(tool_icon("write_file"), "✏️");
    assert_eq!(tool_icon("edit_file"), "📝");
    assert_eq!(tool_icon("list_files"), "📁");
    assert_eq!(tool_icon("run_shell_command"), "🖥️");
    assert_eq!(tool_icon("search_codebase"), "🔍");
    assert_eq!(tool_icon("run_lint"), "🔧");
    assert_eq!(tool_icon("debug_code"), "🐛");
    assert_eq!(tool_icon("create_commit"), "⚙️");
    assert_eq!(tool_action("read_file"), "Reading file");
    assert_eq!(tool_action("write_file"), "Writing file");
    assert_eq!(tool_action("edit_file"), "Editing file");
    assert_eq!(tool_action("list_files"), "Listing files");
    assert_eq!(tool_action("run_shell_command"), "Running command");
    assert_eq!(tool_action("search_codebase"), "Searching codebase");
    assert_eq!(tool_action("run_lint"), "Running linter");
    assert_eq!(tool_action("debug_code"), "Debugging code");
    assert_eq!(tool_action("my_plugin"), "my_plugin");
}

#[test]
fn results_are_summarized_for_display() {
    assert_eq!(
        display_result("list_files", "a.rs\nb.rs"),
        "✓ Found 2 files:\n  - a.rs\n  - b.rs"
    );
    assert_eq!(display_result("list_files", ""), "✓ Found 0 files:\n");
    let many: Vec<String> = (1..=12).map(|i| format!("f{i}")).collect();
    let shown = display_result("list_files", &many.join("\n"));
    assert!(shown.starts_with("✓ Found 12 files (showing first 10):\n  - f1\n  - f2\n"));
    assert!(shown.ends_with("  - f10\n  ... and 2 more"));

    assert_eq!(display_result("read_file", "one\ntwo"), "✓ one\ntwo");
    assert_eq!(display_result("read_file", "1\n2\n3\n4\n5\n"), "✓ 1\n2\n3\n4\n5\n");
    assert_eq!(
        display_result("search_codebase", "1\n2\n3\n4\n5\n6"),
        "✓ Success (6 lines of output)"
    );

    assert_eq!(display_result("run_shell_command", "all good"), "✓ Command completed successfully");
    assert_eq!(display_result("run_shell_command", "2 errors"), "✓ Done");
    assert_eq!(display_result("run_lint", "Error: x"), "✓ Done");
    assert_eq!(display_result("run_lint", "ERROR"), "✓ Command completed successfully");

    assert_eq!(display_result("web_search", "short"), "✓ short");
    assert_eq!(display_result("web_search", &"x".repeat(200)), format!("✓ {}", "x".repeat(200)));
    assert_eq!(
        display_result("web_search", &"x".repeat(201)),
        "✓ Done (output: 201 chars)"
    );
    // the size is counted in bytes
    assert_eq!(display_result("other", &"é".repeat(101)), "✓ Done (output: 202 chars)");
}
