use grok_code::tools::log::{LevelShares, LogAnalysis};
use grok_code::tools::{AnalyzeLog, DebugCode, RunLint};

fn share(count: usize, total: usize) -> String {
    format!("{:.1}", (count as f64 / total as f64) * 100.0)
}

fn shares(a: &LogAnalysis) -> LevelShares {
    LevelShares {
        errors: share(a.error_count, a.total_lines),
        warnings: share(a.warn_count, a.total_lines),
        infos: share(a.info_count, a.total_lines),
        debugs: share(a.debug_count, a.total_lines),
    }
}

fn execute(log_content: &str, max_lines: Option<u64>) -> String {
    let tool = AnalyzeLog;
    let analysis = tool.analyze(log_content, tool.max_lines(max_lines));
    analysis.report(&shares(&analysis))
}

#[test]
fn test_analyze_log_basic() {
    let log_content = r#"
[2024-01-01 10:00:00] INFO: Application started
[2024-01-01 10:00:01] DEBUG: Loading configuration
[2024-01-01 10:00:02] WARN: Config file not found, using defaults
[2024-01-01 10:00:03] ERROR: Database connection failed
[2024-01-01 10:00:04] ERROR: Database connection failed
[2024-01-01 10:00:05] INFO: Retrying connection
[2024-01-01 10:00:06] INFO: Connection established
"#;

    let result = execute(log_content, None);

    // Check that the report contains expected elements
    assert!(result.contains("Log Analysis Report"));
    assert!(result.contains("Summary (analyzed"));
    assert!(result.contains("Errors: 2"));
    assert!(result.contains("Warnings: 1"));
    assert!(result.contains("Info: 3"));
    assert!(result.contains("Debug: 1"));
    // Check for error messages section
    assert!(result.contains("Top Error Messages:"));
    assert!(result.contains("ERROR: Database connection failed (2x)"));
}

#[test]
fn test_analyze_log_with_stack_trace() {
    let log_content = r#"
[2024-01-01 10:00:00] ERROR: Null pointer exception
stack trace:
  at MyClass.method1(MyClass.java:42)
  at MyClass.method2(MyClass.java:87)
  at Main.main(Main.java:15)

[2024-01-01 10:00:01] INFO: Attempting recovery
"#;

    let result = execute(log_content, None);

    assert!(result.contains("Found 1 stack trace(s)"));
    assert!(result.contains("at MyClass.method1"));
    assert!(result.contains("Null pointer access"));
}

#[test]
fn test_analyze_log_error_patterns() {
    let log_content = r#"
[2024-01-01 10:00:00] ERROR: Connection refused to server
[2024-01-01 10:00:01] ERROR: Out of memory: Java heap space
[2024-01-01 10:00:02] ERROR: Permission denied: /var/log/app.log
[2024-01-01 10:00:03] ERROR: Timeout waiting for response
[2024-01-01 10:00:04] PANIC: Segmentation fault
"#;

    let result = execute(log_content, None);

    // Check detected patterns
    assert!(result.contains("Detected Issues:"));
    assert!(result.contains("Network connection issue"));
    assert!(result.contains("Memory exhaustion"));
    assert!(result.contains("Permission/access issue"));
    assert!(result.contains("Operation timeout"));
    assert!(result.contains("Panic/crash detected"));

    // Check recommendations
    assert!(result.contains("Recommendations:"));
    assert!(result.contains("Memory issues detected"));
    assert!(result.contains("Network issues detected"));
    assert!(result.contains("Permission issues detected"));
}

#[test]
fn test_analyze_log_high_error_rate() {
    // Create log with > 10% error rate
    let mut log_content = String::new();
    for i in 0..100 {
        if i < 15 {
            log_content.push_str(&format!("[2024-01-01 10:00:{i:02}] ERROR: Error {i}\n"));
        } else {
            log_content.push_str(&format!("[2024-01-01 10:00:{i:02}] INFO: Normal operation\n"));
        }
    }

    let result = execute(&log_content, None);

    assert!(result.contains("High error rate detected"));
}

#[test]
fn test_analyze_log_max_lines() {
    // Create a large log
    let mut log_content = String::new();
    for i in 0..50 {
        log_content.push_str(&format!("[2024-01-01 10:00:{i:02}] INFO: Line {i}\n"));
    }

    let result = execute(&log_content, Some(10));

    // Should only analyze 10 lines
    assert!(result.contains("analyzed 10 lines"));
}

#[test]
fn whole_report_of_a_small_log() {
    let log = "INFO start\nWARN: disk\nError: boom now \nERROR: boom\nError: boom now\ntrace x\nplain";
    let analysis = AnalyzeLog.analyze(log, 1000);
    assert_eq!(analysis.total_lines, 7);
    assert_eq!(
        (analysis.error_count, analysis.warn_count, analysis.info_count, analysis.debug_count),
        (3, 1, 1, 1)
    );
    let report = analysis.report(&shares(&analysis));
    assert_eq!(
        report,
        "🔍 Log Analysis Report\n======================\n\n📊 Summary (analyzed 7 lines):\n   • Errors: 3 (42.9%)\n   • Warnings: 1 (14.3%)\n   • Info: 1 (14.3%)\n   • Debug: 1 (14.3%)\n\n❌ Top Error Messages:\n   • Error: boom now (2x)\n   • ERROR: boom (1x)\n\n💡 Recommendations:\n   • High error rate detected - investigate root cause\n"
    );
}

#[test]
fn levels_take_the_first_that_fits() {
    let a = AnalyzeLog.analyze("warning: error ahead\ninformation\nerr: x\nthe err \nTRACE\nterror", 1000);
    assert_eq!((a.error_count, a.warn_count, a.info_count, a.debug_count), (4, 0, 1, 1));
    let b = AnalyzeLog.analyze("Warn\nWARNING\ninfo debug\ndebug", 2);
    assert_eq!((b.total_lines, b.error_count, b.warn_count, b.info_count, b.debug_count), (2, 0, 2, 0, 0));
    let none = AnalyzeLog.analyze("", 10);
    assert_eq!(none.total_lines, 0);
    let zero = AnalyzeLog.analyze("error", 0);
    assert_eq!((zero.total_lines, zero.error_count), (0, 0));
}

#[test]
fn messages_are_tallied_and_the_top_five_shown() {
    let mut log = String::new();
    for (message, times) in [("a", 1), ("b", 3), ("c", 2), ("d", 3), ("e", 1), ("f", 2), ("g", 5)] {
        for _ in 0..times {
            log.push_str(&format!("x ERROR: {message}\n"));
        }
    }
    let analysis = AnalyzeLog.analyze(&log, 1000);
    let tallies: Vec<(&str, usize)> =
        analysis.error_messages.iter().map(|t| (t.message.as_str(), t.count)).collect();
    assert_eq!(
        tallies,
        vec![
            ("ERROR: a", 1),
            ("ERROR: b", 3),
            ("ERROR: c", 2),
            ("ERROR: d", 3),
            ("ERROR: e", 1),
            ("ERROR: f", 2),
            ("ERROR: g", 5)
        ]
    );
    let report = analysis.report(&shares(&analysis));
    assert!(report.contains(
        "❌ Top Error Messages:\n   • ERROR: g (5x)\n   • ERROR: b (3x)\n   • ERROR: d (3x)\n   • ERROR: c (2x)\n   • ERROR: f (2x)\n\n"
    ));
    // `ERROR:` is looked for before `Error:`
    let both = AnalyzeLog.analyze("Error: first ERROR: second", 10);
    assert_eq!(both.error_messages[0].message, "ERROR: second");
    // an error line without either marker has no message
    assert!(AnalyzeLog.analyze("an error occurred", 10).error_messages.is_empty());
}

#[test]
fn stack_traces_end_at_blank_lines() {
    let log = "boom\n  at a\n  at b\n\nagain backtrace:\n at c\nnot a trace line\n  at d\n   \n  at e";
    let analysis = AnalyzeLog.analyze(log, 1000);
    assert_eq!(
        analysis.stack_traces,
        vec![
            "  at a\n  at b\n".to_string(),
            "again backtrace:\n at c\n  at d\n".to_string(),
            "  at e\n".to_string()
        ]
    );
    let mut long = String::from("stack trace:\n");
    for i in 0..7 {
        long.push_str(&format!("  at f{i}\n"));
    }
    let report = execute(&long, None);
    assert!(report.contains(
        "📋 Found 1 stack trace(s)\n   First stack trace:\n   stack trace:\n     at f0\n     at f1\n     at f2\n     at f3\n   ...\n\n"
    ));
    let mut many = String::new();
    for _ in 0..6 {
        many.push_str("  at x\n\n");
    }
    assert!(execute(&many, None)
        .contains("Multiple crashes detected - application stability is compromised"));
}

#[test]
fn issues_are_listed_once_in_the_order_of_finding() {
    let analysis = AnalyzeLog.analyze("TIMEOUT and panic\nPanic again\nFile Not Found", 10);
    assert_eq!(
        analysis.detected_patterns,
        vec![
            "Panic/crash detected".to_string(),
            "Operation timeout".to_string(),
            "Missing file/resource".to_string()
        ]
    );
    let report = analysis.report(&shares(&analysis));
    assert!(report.contains(
        "⚠️  Detected Issues:\n   • Panic/crash detected\n   • Operation timeout\n   • Missing file/resource\n\n"
    ));
    let warnings = execute("warn\nwarn\nwarn\nerror", None);
    assert!(warnings.contains("Many warnings present"));
    assert!(!execute("warn\nwarn\nerror", None).contains("Many warnings present"));
}

#[test]
fn debug_tool_names_a_search_for_each_keyword() {
    assert_eq!(
        DebugCode.execute(Some("cannot find type Foo in this scope")),
        "Debug analysis for error: cannot find type Foo in this scope\nSearch for 'cannot' in codebase\nSearch for 'find' in codebase\nSearch for 'type' in codebase\nSearch for 'this' in codebase\nSearch for 'scope' in codebase\n\nUse this to suggest fixes."
    );
    assert_eq!(
        DebugCode.execute(None),
        "Debug analysis for error: \n\nUse this to suggest fixes."
    );
    // the length of a keyword is counted in bytes
    assert!(DebugCode.execute(Some("éé")).contains("Search for 'éé'"));
    assert!(!DebugCode.execute(Some("abc")).contains("Search for"));
}

#[test]
fn lint_command_follows_the_fix_flag() {
    assert_eq!(RunLint.command(None), "cargo clippy");
    assert_eq!(RunLint.command(Some(false)), "cargo clippy");
    assert_eq!(RunLint.command(Some(true)), "cargo clippy --fix");
}
