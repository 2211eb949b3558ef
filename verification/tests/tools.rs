use grok_code::plugins::{PluginConfig, PluginTool, PluginType};
use grok_code::tools::utils::PathProbe;
use grok_code::tools::{
    BuiltinTool, CreateCommit, ReadFile, RunShellCommand, ToolContext, ToolRef, ToolRegistry,
    WebSearch, WriteFile,
};
use std::collections::HashMap;

fn plugin(name: &str) -> PluginTool {
    PluginTool::new(PluginConfig {
        name: name.to_string(),
        description: "A plugin".to_string(),
        plugin_type: PluginType::Binary,
        command: "run".to_string(),
        parameters: "{}".to_string(),
        working_dir: None,
        env: HashMap::new(),
    })
}

#[test]
fn test_tool_registry_creation() {
    let registry = ToolRegistry::new(Vec::new());
    let tools = registry.get_tools();

    // Check that all expected tools are registered
    let tool_names: Vec<String> = tools.iter().map(|t| t.function.name.to_string()).collect();

    assert!(tool_names.contains(&"read_file".to_string()));
    assert!(tool_names.contains(&"write_file".to_string()));
    assert!(tool_names.contains(&"edit_file".to_string()));
    assert!(tool_names.contains(&"list_files".to_string()));
    assert!(tool_names.contains(&"run_shell_command".to_string()));
    assert!(tool_names.contains(&"search_codebase".to_string()));
    assert!(tool_names.contains(&"debug_code".to_string()));
    assert!(tool_names.contains(&"run_lint".to_string()));
    assert!(tool_names.contains(&"create_commit".to_string()));
    assert!(tool_names.contains(&"submit_pr".to_string()));
    assert!(tool_names.contains(&"resolve_merge_conflict".to_string()));
    assert!(tool_names.contains(&"analyze_log".to_string()));
    assert!(tool_names.contains(&"web_search".to_string()));
    assert!(tool_names.contains(&"create_jira_ticket".to_string()));
}

#[test]
fn test_resolve_path() {
    let context = ToolContext {
        project_root: "/home/test/project".to_string(),
        dry_run: false,
        no_confirm: false,
    };

    // Test relative path
    assert_eq!(context.resolve_path("src/main.rs"), "/home/test/project/src/main.rs");

    // Test absolute path
    assert_eq!(context.resolve_path("/usr/local/bin/tool"), "/usr/local/bin/tool");

    // Test current directory
    assert_eq!(context.resolve_path("."), "/home/test/project/.");
}

#[test]
fn registry_offers_builtin_tools_then_plugins() {
    let registry = ToolRegistry::new(vec![plugin("custom"), plugin("read_file")]);
    let tools = registry.get_tools();
    assert_eq!(tools.len(), 18);
    assert_eq!(tools[0].function.name, "read_file");
    assert_eq!(tools[0].kind, "function");
    assert_eq!(tools[0].function.description, ReadFile.description());
    assert_eq!(tools[0].function.parameters, ReadFile.parameters());
    assert_eq!(tools[15].function.name, "clean_backups");
    assert_eq!(tools[16].function.name, "custom");
    assert_eq!(tools[16].function.parameters, "{}");
    // the first tool of a name is found
    assert_eq!(registry.find_tool("read_file"), Some(ToolRef::Builtin(BuiltinTool::ReadFile)));
    assert_eq!(registry.find_tool("custom"), Some(ToolRef::Plugin(0)));
    assert_eq!(registry.find_tool("nothing"), None);
    assert_eq!(registry.plugin(0).unwrap().name(), "custom");
    assert!(registry.plugin(2).is_none());
}

#[test]
fn call_is_resolved_after_its_arguments_are_checked() {
    let registry = ToolRegistry::new(Vec::new());
    assert_eq!(
        registry.execute_tool("create_commit", r#"{"message": "m"}"#),
        Ok(ToolRef::Builtin(BuiltinTool::CreateCommit))
    );
    assert_eq!(registry.execute_tool("fly", "{}"), Err("Unknown tool.".to_string()));
    let refused = registry.execute_tool("read_file", "{not json").unwrap_err();
    assert!(refused.starts_with("Invalid arguments: "));
    assert!(refused.len() > "Invalid arguments: ".len());
    // the arguments are checked before the name
    assert!(registry.execute_tool("fly", "{not json").unwrap_err().starts_with("Invalid"));
    assert_eq!(
        registry.resolve_call("read_file", Some("bad".to_string())),
        Err("Invalid arguments: bad".to_string())
    );
}

#[test]
fn builtin_tools_describe_themselves() {
    assert_eq!(CreateCommit.name(), "create_commit");
    assert_eq!(CreateCommit.description(), "Create a git commit with staged changes.");
    assert_eq!(WebSearch.name(), "web_search");
    assert_eq!(BuiltinTool::RunLint.name(), "run_lint");
    for tool in grok_code::tools::builtin::all_builtin_tools() {
        let schema: serde_json::Value = serde_json::from_str(tool.parameters()).unwrap();
        assert_eq!(schema["type"], "object");
        assert!(schema["properties"].is_object());
    }
}

#[test]
fn context_confirms_without_asking() {
    let ctx = |dry_run, no_confirm| ToolContext {
        project_root: "/p".to_string(),
        dry_run,
        no_confirm,
    };
    assert!(!ctx(false, false).confirms_without_asking());
    assert!(ctx(true, false).confirms_without_asking());
    assert!(ctx(false, true).confirms_without_asking());
}

#[test]
fn test_tool_error_handling() {
    let registry = ToolRegistry::new(Vec::new());

    // Test read non-existent file
    let result = ReadFile.failure(
        "/tmp/project/nonexistent.txt",
        &grok_code::tools::IoFailure {
            kind: grok_code::tools::IoKind::NotFound,
            detail: "No such file or directory (os error 2)".to_string(),
        },
    );
    assert!(result.contains("Error") || result.contains("not found"));

    // Test invalid JSON args
    let result = registry.execute_tool("read_file", "{invalid json}").unwrap_err();
    assert!(result.contains("Invalid arguments"));

    // Test non-existent tool
    let result = registry.execute_tool("fake_tool", "{}").unwrap_err();
    assert!(result.contains("Unknown tool"));
}

#[test]
fn agent_tools_test_dry_run_mode() {
    // Test write_file in dry-run mode
    let path = WriteFile
        .check(Some("dryrun_test.txt"), Some("Should not be written"), "/tmp/project", PathProbe::Missing)
        .unwrap();
    let result = WriteFile.result(&path, "Should not be written", None, true);
    assert!(result.contains("Dry-run:"));

    // Test shell command in dry-run mode
    let command = RunShellCommand.check(Some("touch should_not_exist.txt")).unwrap();
    let result = RunShellCommand.answer_without_running(&command, true, true).unwrap();
    assert!(result.contains("Dry-run:") || result.contains("Would run"));
}

#[test]
fn answers_to_a_confirmation() {
    let ctx = ToolContext { project_root: "/p".to_string(), dry_run: false, no_confirm: false };
    assert!(ctx.accepts("y\n"));
    assert!(ctx.accepts("  Y  "));
    assert!(!ctx.accepts("yes"));
    assert!(!ctx.accepts("n"));
    assert!(!ctx.accepts(""));
    assert_eq!(ctx.confirmation_prompt("write to a.txt"), "❓ Confirm write to a.txt? (y/n): ");
}
