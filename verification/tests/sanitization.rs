use grok_code::tools::utils::{
    join_path, needs_probe, sanitize_commit_message, sanitize_git_branch_name, sanitize_path,
    sanitize_regex_pattern, sanitize_shell_command, PathProbe,
};

#[test]
fn test_sanitize_path() {
    let root = "/project";

    // Valid paths
    assert!(sanitize_path("src/main.rs", root, PathProbe::Missing).is_ok());
    assert!(sanitize_path("./test.txt", root, PathProbe::Missing).is_ok());
    assert!(sanitize_path("subdir/file.txt", root, PathProbe::Missing).is_ok());

    // Invalid paths
    assert!(sanitize_path("../../../etc/passwd", root, PathProbe::Missing).is_err());
    assert!(sanitize_path("/etc/passwd", root, PathProbe::Missing).is_ok());
    assert!(sanitize_path("test\0file", root, PathProbe::Missing).is_err());
}

#[test]
fn test_sanitize_shell_command() {
    // Valid commands
    assert!(sanitize_shell_command("ls -la").is_ok());
    assert!(sanitize_shell_command("cargo test").is_ok());
    assert!(sanitize_shell_command("echo 'hello world'").is_ok());

    // Invalid commands
    assert!(sanitize_shell_command("rm -rf /").is_err());
    assert!(sanitize_shell_command(":(){ :|:& };:").is_err());
    assert!(sanitize_shell_command("dd if=/dev/zero of=/dev/sda").is_err());
    assert!(sanitize_shell_command("").is_err());

    // Commands with chaining
    assert!(sanitize_shell_command("echo test && rm -rf /").is_err());
    assert!(sanitize_shell_command("ls | grep test").is_ok());
}

#[test]
fn test_sanitize_git_branch_name() {
    // Valid names
    assert!(sanitize_git_branch_name("feature/new-feature").is_ok());
    assert!(sanitize_git_branch_name("bugfix-123").is_ok());
    assert!(sanitize_git_branch_name("main").is_ok());

    // Invalid names
    assert!(sanitize_git_branch_name("-feature").is_err());
    assert!(sanitize_git_branch_name("feature branch").is_err());
    assert!(sanitize_git_branch_name("feature/").is_err());
    assert!(sanitize_git_branch_name("feature.lock").is_err());
    assert!(sanitize_git_branch_name("..").is_err());
    assert!(sanitize_git_branch_name("").is_err());
}

#[test]
fn test_sanitize_commit_message() {
    // Valid messages
    assert!(sanitize_commit_message("Fix bug in parser").is_ok());
    assert!(sanitize_commit_message("Add new feature\n\nDetailed description").is_ok());

    // Invalid messages
    assert!(sanitize_commit_message("").is_err());
    assert!(sanitize_commit_message("test\0message").is_err());
    assert!(sanitize_commit_message(&"x".repeat(1001)).is_err());
}

#[test]
fn path_is_joined_below_root() {
    assert_eq!(
        sanitize_path("  src/main.rs ", "/project", PathProbe::Missing),
        Ok("/project/src/main.rs".to_string())
    );
    assert_eq!(
        sanitize_path("/etc/passwd", "/project", PathProbe::Missing),
        Ok("/etc/passwd".to_string())
    );
    assert_eq!(join_path("/project/", "a"), "/project/a");
    assert_eq!(join_path("", "a"), "a");
    assert_eq!(join_path("/project", ""), "/project/");
}

#[test]
fn path_errors_name_their_cause() {
    assert_eq!(
        sanitize_path("a\0b", "/p", PathProbe::Inside),
        Err("Path contains null bytes".to_string())
    );
    assert_eq!(
        sanitize_path("a/../b", "/p", PathProbe::Outside),
        Err("Path traversal detected: path goes outside project root".to_string())
    );
    assert_eq!(
        sanitize_path("a/../b", "/p", PathProbe::RootUnresolved),
        Err("Cannot validate path: unable to resolve project root".to_string())
    );
    assert_eq!(
        sanitize_path("a/../b", "/p", PathProbe::Missing),
        Err("Path contains directory traversal patterns".to_string())
    );
    assert_eq!(sanitize_path("a/../b", "/p", PathProbe::Inside), Ok("/p/a/../b".to_string()));
    // two dots inside a name are no traversal where the path does not exist yet
    assert_eq!(sanitize_path("a..b", "/p", PathProbe::Missing), Ok("/p/a..b".to_string()));
    assert_eq!(
        sanitize_path("..hidden", "/p", PathProbe::Missing),
        Err("Path contains directory traversal patterns".to_string())
    );
}

#[test]
fn probe_is_needed_only_for_dots() {
    assert!(needs_probe("a/../b"));
    assert!(!needs_probe("a/b"));
    assert!(!needs_probe("a\0/../b"));
}

#[test]
fn shell_command_errors_name_the_first_pattern() {
    assert_eq!(sanitize_shell_command("  ls -la  "), Ok("ls -la".to_string()));
    assert_eq!(sanitize_shell_command("   "), Err("Command cannot be empty".to_string()));
    assert_eq!(
        sanitize_shell_command("sudo rm -rf /*"),
        Err("Dangerous command pattern detected: rm -rf / - Deleting root filesystem".to_string())
    );
    assert_eq!(
        sanitize_shell_command("mkfs.ext4 /dev/sda1"),
        Err("Dangerous command pattern detected: mkfs. - Formatting filesystem".to_string())
    );
    assert_eq!(
        sanitize_shell_command("echo x > /etc/shadow"),
        Err(
            "Dangerous command pattern detected: > /etc/shadow - Overwriting shadow password file"
                .to_string()
        )
    );
}

#[test]
fn branch_name_errors_name_their_cause() {
    assert_eq!(sanitize_git_branch_name(" main "), Ok("main".to_string()));
    assert_eq!(sanitize_git_branch_name(""), Err("Branch name cannot be empty".to_string()));
    assert_eq!(
        sanitize_git_branch_name("-x"),
        Err("Branch name cannot start with '-'".to_string())
    );
    assert_eq!(
        sanitize_git_branch_name("a b"),
        Err("Branch name cannot contain ' '".to_string())
    );
    assert_eq!(
        sanitize_git_branch_name("a@{b"),
        Err("Branch name cannot contain '@{'".to_string())
    );
    assert_eq!(
        sanitize_git_branch_name(".."),
        Err("Branch name cannot contain '..'".to_string())
    );
    assert_eq!(
        sanitize_git_branch_name("a\\b"),
        Err("Branch name cannot contain '\\'".to_string())
    );
    assert_eq!(
        sanitize_git_branch_name("feature/"),
        Err("Branch name cannot end with '/'".to_string())
    );
    assert_eq!(
        sanitize_git_branch_name("x.lock"),
        Err("Branch name cannot end with '.lock'".to_string())
    );
    assert_eq!(
        sanitize_git_branch_name("."),
        Err("Branch name cannot be '.' or '..'".to_string())
    );
}

#[test]
fn commit_message_errors_name_their_cause() {
    assert_eq!(sanitize_commit_message("  Fix  "), Ok("Fix".to_string()));
    assert_eq!(sanitize_commit_message(" \n"), Err("Commit message cannot be empty".to_string()));
    assert_eq!(
        sanitize_commit_message("a\0b"),
        Err("Commit message contains null bytes".to_string())
    );
    assert!(sanitize_commit_message(&"x".repeat(1000)).is_ok());
    assert_eq!(
        sanitize_commit_message(&"x".repeat(1001)),
        Err("Commit message too long (max 1000 characters)".to_string())
    );
    // the limit counts bytes
    assert!(sanitize_commit_message(&"é".repeat(500)).is_ok());
    assert!(sanitize_commit_message(&"é".repeat(501)).is_err());
}

#[test]
fn regex_pattern_is_accepted_where_it_compiles() {
    assert_eq!(sanitize_regex_pattern("a+b"), Ok("a+b".to_string()));
    let refused = sanitize_regex_pattern("(unclosed");
    assert!(refused.is_err());
    assert!(refused.unwrap_err().starts_with("Invalid regex pattern: "));
}
