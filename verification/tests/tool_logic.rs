use grok_code::backup::BackupInfo;
use grok_code::tools::backup_ops::CleanScope;
use grok_code::tools::external::JiraEnvironment;
use grok_code::tools::file_ops::check_path;
use grok_code::tools::git_ops::{CommitStep, GitHubEnvironment};
use grok_code::tools::search::SourceFile;
use grok_code::tools::utils::PathProbe;
use grok_code::tools::{
    CleanBackups, CreateCommit, CreateJiraTicket, EditFile, IoFailure, IoKind, ListBackups,
    ListFiles, ReadFile, RunShellCommand, SearchCodebase, SubmitPR, WebSearch, WriteFile,
};

fn failure(kind: IoKind, detail: &str) -> IoFailure {
    IoFailure { kind, detail: detail.to_string() }
}

#[test]
fn test_shell_command_sanitization() {
    let tool = RunShellCommand;

    // Test dangerous commands are blocked
    let dangerous_commands =
        vec!["rm -rf /", "rm -rf /*", ":(){ :|:& };:", "dd if=/dev/zero of=/dev/sda", "> /etc/passwd"];

    for cmd in dangerous_commands {
        let result = tool.check(Some(cmd)).unwrap_err();
        assert!(result.contains("Error:"), "Command '{}' should be blocked", cmd);
        assert!(!result.contains("Command executed"), "Command '{}' should not execute", cmd);
    }

    // Test safe commands work
    let safe_commands = vec!["echo 'hello world'", "ls", "pwd"];

    for cmd in safe_commands {
        assert_eq!(tool.check(Some(cmd)), Ok(cmd.to_string()));
    }
}

#[test]
fn test_null_byte_prevention() {
    let result = ReadFile.check(Some("test\0file.txt"), "/tmp/project", PathProbe::Missing).unwrap_err();
    assert!(result.contains("Error:"));
    assert!(result.contains("null bytes"));
}

#[test]
fn test_path_traversal_prevention() {
    let malicious_paths =
        vec!["../../../etc/passwd", "../../../../../../etc/shadow", "../..", "test/../../../etc/hosts"];

    for path in malicious_paths {
        for probe in [PathProbe::Outside, PathProbe::Missing] {
            let result = ReadFile.check(Some(path), "/tmp/project", probe).unwrap_err();
            assert!(result.contains("Error:"), "Path '{}' should be blocked", path);
        }
    }
    assert_eq!(
        ReadFile.check(Some("test.txt"), "/tmp/project", PathProbe::Missing),
        Ok("/tmp/project/test.txt".to_string())
    );
}

#[test]
fn shell_tool_steps() {
    let tool = RunShellCommand;
    assert_eq!(tool.check(None), Err("Error: 'command' parameter is required".to_string()));
    assert_eq!(tool.check(Some("  ")), Err("Error: Command cannot be empty".to_string()));
    assert_eq!(tool.question("ls -la"), "run command 'ls -la'");
    assert_eq!(tool.answer_without_running("ls", false, true), Some("Command not confirmed.".to_string()));
    assert_eq!(
        tool.answer_without_running("ls", true, true),
        Some("Dry-run: Would execute command: ls".to_string())
    );
    assert_eq!(tool.answer_without_running("ls", true, false), None);
}

#[test]
fn shell_output_is_rendered() {
    let tool = RunShellCommand;
    assert_eq!(tool.render_output(true, Some(0), "", ""), "Command executed successfully (no output)");
    assert_eq!(tool.render_output(true, Some(0), "hello\n", ""), "Output:\nhello");
    assert_eq!(tool.render_output(true, Some(0), "", "warn\n"), "Error output:\nwarn");
    assert_eq!(
        tool.render_output(false, Some(2), "out\n", "err\n\n"),
        "Command failed with exit code: 2\nOutput:\nout\n\nError output:\nerr"
    );
    assert_eq!(tool.render_output(false, None, "", ""), "Command failed with exit code: -1");
    assert_eq!(
        tool.render_output(false, Some(i32::MIN), "", ""),
        "Command failed with exit code: -2147483648"
    );
    assert_eq!(
        tool.render_failure(&failure(IoKind::NotFound, "x")),
        "Error: 'sh' command not found. Shell might not be available."
    );
    assert_eq!(
        tool.render_failure(&failure(IoKind::PermissionDenied, "x")),
        "Error: Permission denied executing shell command"
    );
    assert_eq!(tool.render_failure(&failure(IoKind::Other, "broken pipe")), "Error running command: broken pipe");
}

#[test]
fn web_search_encodes_the_query() {
    assert_eq!(
        WebSearch.execute(Some("rust verus & z3?")),
        "Would search for: rust verus & z3? at https://api.duckduckgo.com/?q=rust%20verus%20%26%20z3%3F&format=json"
    );
    assert_eq!(
        WebSearch.execute(Some("a-b_c.d~é")),
        "Would search for: a-b_c.d~é at https://api.duckduckgo.com/?q=a-b_c.d~%C3%A9&format=json"
    );
    assert_eq!(
        WebSearch.execute(None),
        "Would search for:  at https://api.duckduckgo.com/?q=&format=json"
    );
}

#[test]
fn jira_ticket_needs_its_environment() {
    let env = |key: Option<&str>, url: Option<&str>, project: Option<&str>| JiraEnvironment {
        api_key: key.map(|s| s.to_string()),
        url: url.map(|s| s.to_string()),
        project: project.map(|s| s.to_string()),
    };
    let tool = CreateJiraTicket;
    assert_eq!(tool.execute(Some("s"), &env(None, None, None), true, false), "JIRA_API_KEY required.");
    assert_eq!(
        tool.execute(Some("s"), &env(Some("k"), None, None), true, false),
        "JIRA_URL required (e.g., https://your.atlassian.net)"
    );
    assert_eq!(
        tool.execute(Some("s"), &env(Some("k"), Some("u"), None), true, false),
        "JIRA_PROJECT required."
    );
    let full = env(Some("k"), Some("https://x.atlassian.net"), Some("P"));
    assert!(tool.is_configured(&full));
    assert!(!tool.is_configured(&env(Some("k"), None, Some("P"))));
    assert_eq!(tool.execute(Some("s"), &full, false, false), "Jira ticket creation not confirmed.");
    assert_eq!(tool.execute(Some("s"), &full, true, true), "Dry-run: Would create Jira ticket.");
    assert_eq!(
        tool.execute(Some("Fix login"), &full, true, false),
        "Would create Jira ticket at https://x.atlassian.net/rest/api/3/issue with summary: Fix login"
    );
    assert!(tool.execute(None, &full, true, false).ends_with("with summary: "));
}

#[test]
fn commit_tool_steps() {
    let tool = CreateCommit;
    assert_eq!(tool.check(None), Err("Error: 'message' parameter is required".to_string()));
    assert_eq!(tool.check(Some(" ")), Err("Error: Commit message cannot be empty".to_string()));
    assert_eq!(tool.check(Some(" Fix ")), Ok("Fix".to_string()));
    assert_eq!(tool.answer_without_commit(false, true, false), Some("No git repo found.".to_string()));
    assert_eq!(tool.answer_without_commit(true, false, false), Some("Commit not confirmed.".to_string()));
    assert_eq!(
        tool.answer_without_commit(true, true, true),
        Some("Dry-run: Would create commit.".to_string())
    );
    assert_eq!(tool.answer_without_commit(true, true, false), None);
    assert_eq!(tool.success(), "Commit successful.");
    assert_eq!(tool.no_parent(), "No parent commit.");
    assert_eq!(tool.failure(CommitStep::OpenIndex, "e"), "Error: e");
    assert_eq!(tool.failure(CommitStep::Stage, "e"), "Error staging: e");
    assert_eq!(tool.failure(CommitStep::WriteIndex, "e"), "Error writing index: e");
    assert_eq!(tool.failure(CommitStep::WriteTree, "e"), "Error writing tree: e");
    assert_eq!(tool.failure(CommitStep::FindTree, "e"), "Error finding tree: e");
    assert_eq!(tool.failure(CommitStep::ReadHead, "e"), "Error: e");
    assert_eq!(tool.failure(CommitStep::Sign, "e"), "Error creating git signature: e");
    assert_eq!(tool.failure(CommitStep::Commit, "e"), "Error committing: e");
}

#[test]
fn pull_request_is_checked_and_described() {
    let tool = SubmitPR;
    assert_eq!(tool.check(None, None, None, Some("h")).unwrap_err(), "Error: 'title' parameter is required");
    assert_eq!(tool.check(Some(" "), None, None, Some("h")).unwrap_err(), "Error: PR title cannot be empty");
    assert_eq!(tool.check(Some("t"), None, None, None).unwrap_err(), "Error: 'head' parameter is required");
    assert_eq!(tool.check(Some("t"), None, None, Some("")).unwrap_err(), "Error: 'head' branch cannot be empty");
    let request = tool.check(Some(" Title "), Some(" body\n"), None, Some(" feature ")).unwrap();
    assert_eq!(
        (request.title.as_str(), request.body.as_str(), request.base.as_str(), request.head.as_str()),
        ("Title", "body", "main", "feature")
    );
    let defaults = tool.check(Some("t"), None, Some(" dev "), Some("h")).unwrap();
    assert_eq!((defaults.body.as_str(), defaults.base.as_str()), ("", "dev"));

    let env = |token: Option<&str>, repo: Option<&str>| GitHubEnvironment {
        token: token.map(|s| s.to_string()),
        repo: repo.map(|s| s.to_string()),
    };
    assert_eq!(tool.execute(&request, &env(None, Some("o/r")), true, false), "GITHUB_TOKEN env var required.");
    assert_eq!(
        tool.execute(&request, &env(Some("t"), None), true, false),
        "GITHUB_REPO env var required (e.g., owner/repo)."
    );
    let full = env(Some("t"), Some("owner/repo"));
    assert!(tool.is_configured(&full));
    assert_eq!(tool.execute(&request, &full, false, false), "PR submission not confirmed.");
    assert_eq!(tool.execute(&request, &full, true, true), "Dry-run: Would submit PR.");
    assert_eq!(
        tool.execute(&request, &full, true, false),
        "Would submit PR to https://api.github.com/repos/owner/repo/pulls with title: Title"
    );
}

#[test]
fn file_tools_check_their_arguments() {
    assert_eq!(check_path(None, "/p", PathProbe::Missing), Err("Error: 'path' parameter is required".to_string()));
    assert_eq!(
        check_path(Some("a/../../b"), "/p", PathProbe::Outside),
        Err("Error: Path traversal detected: path goes outside project root".to_string())
    );
    let write = WriteFile;
    assert_eq!(
        write.check(None, None, "/p", PathProbe::Missing),
        Err("Error: 'path' parameter is required".to_string())
    );
    assert_eq!(
        write.check(Some("a"), None, "/p", PathProbe::Missing),
        Err("Error: 'content' parameter is required".to_string())
    );
    assert_eq!(write.check(Some("a"), Some("c"), "/p", PathProbe::Missing), Ok("/p/a".to_string()));
    assert_eq!(write.question("/p/a"), "write to /p/a");
    assert_eq!(write.refused(), "Write operation not confirmed.");
    assert_eq!(write.result("/p/a", "text", None, true), "Dry-run: Would write to /p/a:\ntext");
    assert_eq!(
        write.result("/p/a", "text", Some("/p/a.1.bak"), true),
        "Dry-run: Would write to /p/a (backed up to /p/a.1.bak):\ntext"
    );
    assert_eq!(write.result("/p/a", "text", None, false), "File written successfully.");
    assert_eq!(
        write.result("/p/a", "text", Some("/p/a.1.bak"), false),
        "File written successfully (backed up to /p/a.1.bak)."
    );
    assert_eq!(
        write.failure("/p/a", &failure(IoKind::PermissionDenied, "denied")),
        "Error: Permission denied writing to file: /p/a"
    );
    assert_eq!(write.failure("/p/a", &failure(IoKind::NotFound, "no dir")), "Error writing file: no dir");
    assert_eq!(
        ReadFile.failure("/p/a", &failure(IoKind::NotFound, "x")),
        "Error: File not found: /p/a"
    );
    assert_eq!(
        ReadFile.failure("/p/a", &failure(IoKind::PermissionDenied, "x")),
        "Error: Permission denied reading file: /p/a"
    );
    assert_eq!(ReadFile.failure("/p/a", &failure(IoKind::Other, "bad utf8")), "Error reading file: bad utf8");
}

#[test]
fn edit_is_checked() {
    let tool = EditFile;
    let check = |p: Option<&str>, s: Option<u64>, e: Option<u64>, c: Option<&str>| {
        tool.check(p, s, e, c, "/p", PathProbe::Missing).map(|r| (r.path, r.start_line, r.end_line, r.new_content))
    };
    assert_eq!(check(None, None, None, None).unwrap_err(), "Error: 'path' parameter is required");
    assert_eq!(
        check(Some("a"), None, None, None).unwrap_err(),
        "Error: 'start_line' parameter is required and must be a number"
    );
    assert_eq!(
        check(Some("a"), Some(1), None, None).unwrap_err(),
        "Error: 'end_line' parameter is required and must be a number"
    );
    assert_eq!(check(Some("a"), Some(1), Some(1), None).unwrap_err(), "Error: 'new_content' parameter is required");
    let invalid = "Error: Invalid line numbers. Lines are 1-indexed and end_line must be >= start_line.";
    assert_eq!(check(Some("a"), Some(0), Some(1), Some("x")).unwrap_err(), invalid);
    assert_eq!(check(Some("a"), Some(3), Some(2), Some("x")).unwrap_err(), invalid);
    assert_eq!(
        check(Some("a\0"), Some(1), Some(2), Some("x")).unwrap_err(),
        "Error: Path contains null bytes"
    );
    assert_eq!(
        check(Some("a"), Some(1), Some(2), Some("x")).unwrap(),
        ("/p/a".to_string(), 1, 2, "x".to_string())
    );
    let request = tool.check(Some("a"), Some(2), Some(3), Some("new"), "/p", PathProbe::Missing).unwrap();
    assert_eq!(
        tool.dry_run(&request, "/p/a.bak"),
        "Dry-run: Would edit /p/a lines 2-3 with:\nnew (backed up to /p/a.bak)"
    );
    assert_eq!(tool.question("/p/a"), "edit /p/a");
    assert_eq!(tool.refused(), "Edit operation not confirmed.");
    assert_eq!(tool.success("/p/a.bak"), "File edited successfully (backed up to /p/a.bak).");
}

#[test]
fn test_edit_file_integration() {
    let tool = EditFile;
    let original = "Line 1\nLine 2\nLine 3\nLine 4\n";
    assert_eq!(
        tool.apply(original, 2, 3, "New Line 2\nNew Line 3\n"),
        Ok("Line 1\nNew Line 2\nNew Line 3\nLine 4\n".to_string())
    );
}

#[test]
fn lines_are_replaced() {
    let tool = EditFile;
    let text = "one\ntwo\r\nthree\nfour";
    assert_eq!(tool.apply(text, 1, 1, "ONE\n"), Ok("ONE\ntwo\r\nthree\nfour".to_string()));
    assert_eq!(tool.apply(text, 2, 2, "TWO\n"), Ok("one\nTWO\nthree\nfour".to_string()));
    assert_eq!(tool.apply(text, 2, 3, ""), Ok("one\nfour".to_string()));
    assert_eq!(tool.apply(text, 4, 4, "FOUR"), Ok("one\ntwo\r\nthree\nFOUR".to_string()));
    // an end behind the last line reaches to the end of the text
    assert_eq!(tool.apply(text, 3, 99, "rest"), Ok("one\ntwo\r\nrest".to_string()));
    assert_eq!(
        tool.apply(text, 5, 5, "x"),
        Err("Error: start_line 5 exceeds total lines in file (4)".to_string())
    );
    // a text that ends in a line break has an empty last line
    assert_eq!(tool.apply("a\n", 2, 2, "b"), Ok("a\nb".to_string()));
    assert_eq!(tool.apply("", 1, 1, "b"), Ok("b".to_string()));
    assert_eq!(tool.apply("é\u{2028}ü\n", 2, 2, "x\n"), Ok("é\u{2028}x\n".to_string()));
    assert_eq!(
        tool.apply("a", 0, 1, "b"),
        Err("Error: Invalid line numbers. Lines are 1-indexed and end_line must be >= start_line.".to_string())
    );
}

#[test]
fn directory_listing_is_sorted() {
    let tool = ListFiles;
    let names: Vec<String> = ["b.rs", "a.rs", "Cargo.toml", "a", "é", ""].iter().map(|s| s.to_string()).collect();
    let mut expected = names.clone();
    expected.sort();
    assert_eq!(tool.listing(&names), expected.join("\n"));
    assert_eq!(tool.listing(&names), "\nCargo.toml\na\na.rs\nb.rs\né");
    assert_eq!(tool.listing(&Vec::new()), "");
    assert_eq!(tool.path(None), ".");
    assert_eq!(tool.path(Some("src")), "src");
    assert_eq!(tool.failure("/p/x", &failure(IoKind::NotFound, "e")), "Error: Directory not found: /p/x");
    assert_eq!(
        tool.failure("/p/x", &failure(IoKind::PermissionDenied, "e")),
        "Error: Permission denied reading directory: /p/x"
    );
    assert_eq!(tool.failure("/p/x", &failure(IoKind::Other, "not a directory")), "Error listing directory: not a directory");
}

#[test]
fn test_search_codebase_integration() {
    let tool = SearchCodebase;
    let files = vec![
        SourceFile { path: "/p/file1.rs".to_string(), content: "fn main() { println!(\"Hello\"); }".to_string() },
        SourceFile { path: "/p/file2.rs".to_string(), content: "fn test() { println!(\"World\"); }".to_string() },
        SourceFile { path: "/p/file3.txt".to_string(), content: "This is a text file".to_string() },
    ];

    // Test literal search
    let result = tool.execute(Some("println"), Some(false), &files);
    assert!(result.contains("file1.rs"));
    assert!(result.contains("file2.rs"));
    assert!(!result.contains("file3.txt"));

    // Test regex search
    let result = tool.execute(Some(r"fn \w+\(\)"), Some(true), &files);
    assert!(result.contains("file1.rs"));
    assert!(result.contains("file2.rs"));
}

#[test]
fn search_reports_files_in_order() {
    let tool = SearchCodebase;
    let files = vec![
        SourceFile { path: "b".to_string(), content: "needle".to_string() },
        SourceFile { path: "a".to_string(), content: "hay".to_string() },
        SourceFile { path: "c".to_string(), content: "a needle here".to_string() },
    ];
    assert_eq!(tool.execute(Some("needle"), None, &files), "Found 'needle' in b\nFound 'needle' in c\n");
    assert_eq!(tool.execute(Some("^a"), Some(true), &files), "Match in c\n");
    assert_eq!(tool.execute(Some("^a"), Some(false), &files), "No matches found.");
    assert_eq!(tool.execute(None, None, &files), "Error: 'query' parameter is required");
    assert_eq!(tool.execute(Some(""), None, &files), "Error: Query cannot be empty");
    let refused = tool.execute(Some("(open"), Some(true), &files);
    assert!(refused.starts_with("Error: Invalid regex pattern: "));
    assert_eq!(tool.execute(Some("(open"), Some(false), &files), "No matches found.");
    assert!(tool.check(Some("x+"), Some(true)).is_none());
}

#[test]
fn backups_are_listed_newest_first() {
    let info = |path: &str, created: i64, size: u64| BackupInfo {
        path: path.to_string(),
        created,
        created_text: format!("t{created}"),
        size,
    };
    let tool = ListBackups;
    assert_eq!(tool.listing("/p/a", Vec::new()), "No backups found for /p/a");
    assert_eq!(
        tool.listing("/p/a", vec![info("old", 10, 1), info("new", 30, 22), info("mid", 20, 3), info("twin", 30, 4)]),
        "Backups for /p/a:\n  new - 22 bytes - t30\n  twin - 4 bytes - t30\n  mid - 3 bytes - t20\n  old - 1 bytes - t10\n"
    );
    assert_eq!(tool.failure("denied"), "Error listing backups: denied");
}

#[test]
fn cleaning_of_backups_is_described() {
    let tool = CleanBackups;
    assert!(tool.scope(Some(true)) == CleanScope::Project);
    assert!(tool.scope(Some(false)) == CleanScope::File);
    assert!(tool.scope(None) == CleanScope::File);
    assert_eq!(tool.missing_path(), "Error: Either 'path' parameter or 'all' flag is required");
    assert_eq!(tool.question(CleanScope::Project, ""), "clean all old backups in the project");
    assert_eq!(tool.question(CleanScope::File, "/p/a"), "clean old backups for /p/a");
    assert_eq!(
        tool.answer_without_cleaning(CleanScope::File, "/p/a", false, false),
        Some("Cleanup not confirmed.".to_string())
    );
    assert_eq!(
        tool.answer_without_cleaning(CleanScope::Project, "", true, true),
        Some("Dry-run: Would clean all old backups in the project".to_string())
    );
    assert_eq!(
        tool.answer_without_cleaning(CleanScope::File, "/p/a", true, true),
        Some("Dry-run: Would clean old backups for /p/a".to_string())
    );
    assert_eq!(tool.answer_without_cleaning(CleanScope::File, "/p/a", true, false), None);
    assert_eq!(tool.result(CleanScope::Project, "", 3), "Cleaned up 3 old backup(s) from the project");
    assert_eq!(tool.result(CleanScope::Project, "", 0), "Cleaned up 0 old backup(s) from the project");
    assert_eq!(tool.result(CleanScope::File, "/p/a", 0), "No old backups to clean for /p/a");
    assert_eq!(tool.result(CleanScope::File, "/p/a", 2), "Cleaned up 2 old backup(s) for /p/a");
    assert_eq!(tool.failure("io"), "Error cleaning backups: io");
}
