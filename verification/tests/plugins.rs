use grok_code::plugins::{
    config_format, default_plugin_directories, ConfigFormat, PluginConfig, PluginLoader,
    PluginPlan, PluginTool, PluginType,
};
use std::collections::HashMap;

fn config(name: &str, command: &str, parameters: &str) -> PluginConfig {
    PluginConfig {
        name: name.to_string(),
        description: "Test plugin".to_string(),
        plugin_type: PluginType::Script,
        command: command.to_string(),
        parameters: parameters.to_string(),
        working_dir: None,
        env: HashMap::new(),
    }
}

#[test]
fn test_plugin_tool_creation() {
    let config = PluginConfig {
        name: "test".to_string(),
        description: "Test plugin".to_string(),
        plugin_type: PluginType::Script,
        command: "echo test".to_string(),
        parameters: r#"{"type": "object", "properties": {}}"#.to_string(),
        working_dir: None,
        env: HashMap::new(),
    };

    let tool = PluginTool::new(config);
    assert_eq!(tool.name(), "test");
    assert_eq!(tool.description(), "Test plugin");
}

#[test]
fn plugin_parameters_fall_back_to_empty_schema() {
    let good = PluginTool::new(config("a", "echo", r#"{"type":"object"}"#));
    assert_eq!(good.parameters(), r#"{"type":"object"}"#);
    let bad = PluginTool::new(config("a", "echo", "not json"));
    assert_eq!(bad.parameters(), r#"{"type": "object", "properties": {}}"#);
}

#[test]
fn plugin_plan_follows_confirmation_and_dry_run() {
    let tool = PluginTool::new(config("fmt", "python  scripts/formatter.py --check", "{}"));
    match tool.plan("/project", false, false) {
        PluginPlan::Answer(t) => assert_eq!(t, "Plugin 'fmt' execution not confirmed."),
        _ => panic!("a call that was not confirmed must not run"),
    }
    match tool.plan("/project", true, true) {
        PluginPlan::Answer(t) => assert_eq!(
            t,
            "Dry-run: Would execute plugin 'fmt' with command: python  scripts/formatter.py --check"
        ),
        _ => panic!("a dry run must not run"),
    }
    match tool.plan("/project", true, false) {
        PluginPlan::Run { program, args, working_dir } => {
            assert_eq!(program, "python");
            assert_eq!(args, vec!["scripts/formatter.py".to_string(), "--check".to_string()]);
            assert_eq!(working_dir, "/project");
        }
        _ => panic!("a confirmed call runs"),
    }
    let empty = PluginTool::new(config("none", "   ", "{}"));
    match empty.plan("/project", true, false) {
        PluginPlan::Answer(t) => assert_eq!(t, "Error: Plugin command is empty"),
        _ => panic!("an empty command cannot run"),
    }
}

#[test]
fn plugin_output_is_rendered() {
    let tool = PluginTool::new(config("fmt", "x", "{}"));
    assert_eq!(tool.render_output(true, "done\n", "warn"), "done\n");
    assert_eq!(
        tool.render_output(false, "out", "err"),
        "Plugin 'fmt' failed:\nstdout: out\nstderr: err"
    );
    assert_eq!(tool.start_failure("no such file"), "Error executing plugin 'fmt': no such file");
    assert_eq!(tool.wait_failure("killed"), "Error waiting for plugin 'fmt': killed");
}

#[test]
fn plugin_loader_collects_in_order() {
    let mut loader = PluginLoader::new();
    assert_eq!(loader.len(), 0);
    assert_eq!(loader.add(vec![config("one", "a", "{}"), config("two", "b", "{}")]), 2);
    assert_eq!(loader.add(vec![config("three", "c", "{}")]), 1);
    assert_eq!(loader.len(), 3);
    let tools = loader.create_tools();
    let names: Vec<&str> = tools.iter().map(|t| t.name()).collect();
    assert_eq!(names, vec!["one", "two", "three"]);
}

#[test]
fn plugin_config_format_by_extension() {
    assert_eq!(config_format("toml").unwrap(), ConfigFormat::Toml);
    assert_eq!(config_format("json").unwrap(), ConfigFormat::Json);
    let e = config_format("yaml").unwrap_err();
    assert_eq!(e.message(), "Configuration error: Plugin config must be .toml or .json");
}

#[test]
fn plugin_directories_in_search_order() {
    assert_eq!(
        default_plugin_directories(Some("/home/u/.config")),
        vec![
            "plugins".to_string(),
            ".grok-code/plugins".to_string(),
            "/home/u/.config/grok-code/plugins".to_string()
        ]
    );
    assert_eq!(
        default_plugin_directories(None),
        vec!["plugins".to_string(), ".grok-code/plugins".to_string(), String::new()]
    );
}
