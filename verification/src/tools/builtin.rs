//! The tools that come with the assistant: what each is called, what it
//! says of itself, and the JSON schema of its arguments.

use vstd::prelude::*;

verus! {
/// Reads a file.
#[derive(Clone, Copy, Debug)]
pub struct ReadFile;

impl ReadFile {
    /// The name by which the model calls the tool.
    pub fn name(&self) -> (name: &'static str)
        ensures
            name@ == "read_file"@,
    {
        "read_file"
    }

    /// What the tool says of itself.
    pub fn description(&self) -> (text: &'static str)
        ensures
            text@ == "Read the contents of a file at the given path."@,
    {
        "Read the contents of a file at the given path."
    }

    /// The JSON schema of the tool's arguments, as text.
    pub fn parameters(&self) -> (schema: &'static str)
        ensures
            schema@ == "{\"type\": \"object\", \"properties\": {\"path\": {\"type\": \"string\", \"description\": \"The path to the file.\"}}, \"required\": [\"path\"]}"@,
    {
        "{\"type\": \"object\", \"properties\": {\"path\": {\"type\": \"string\", \"description\": \"The path to the file.\"}}, \"required\": [\"path\"]}"
    }
}
/// Writes a file.
#[derive(Clone, Copy, Debug)]
pub struct WriteFile;

impl WriteFile {
    /// The name by which the model calls the tool.
    pub fn name(&self) -> (name: &'static str)
        ensures
            name@ == "write_file"@,
    {
        "write_file"
    }

    /// What the tool says of itself.
    pub fn description(&self) -> (text: &'static str)
        ensures
            text@ == "Write content to a file at the given path. Overwrites if exists. Creates timestamped backup with retention policy."@,
    {
        "Write content to a file at the given path. Overwrites if exists. Creates timestamped backup with retention policy."
    }

    /// The JSON schema of the tool's arguments, as text.
    pub fn parameters(&self) -> (schema: &'static str)
        ensures
            schema@ == "{\"type\": \"object\", \"properties\": {\"path\": {\"type\": \"string\", \"description\": \"The path to the file.\"}, \"content\": {\"type\": \"string\", \"description\": \"The content to write.\"}}, \"required\": [\"path\", \"content\"]}"@,
    {
        "{\"type\": \"object\", \"properties\": {\"path\": {\"type\": \"string\", \"description\": \"The path to the file.\"}, \"content\": {\"type\": \"string\", \"description\": \"The content to write.\"}}, \"required\": [\"path\", \"content\"]}"
    }
}
/// Replaces lines of a file.
#[derive(Clone, Copy, Debug)]
pub struct EditFile;

impl EditFile {
    /// The name by which the model calls the tool.
    pub fn name(&self) -> (name: &'static str)
        ensures
            name@ == "edit_file"@,
    {
        "edit_file"
    }

    /// What the tool says of itself.
    pub fn description(&self) -> (text: &'static str)
        ensures
            text@ == "Edit specific lines in a file. Creates timestamped backup with retention policy."@,
    {
        "Edit specific lines in a file. Creates timestamped backup with retention policy."
    }

    /// The JSON schema of the tool's arguments, as text.
    pub fn parameters(&self) -> (schema: &'static str)
        ensures
            schema@ == "{\"type\": \"object\", \"properties\": {\"path\": {\"type\": \"string\", \"description\": \"The path to the file.\"}, \"start_line\": {\"type\": \"number\", \"description\": \"Starting line number (1-indexed).\"}, \"end_line\": {\"type\": \"number\", \"description\": \"Ending line number (inclusive).\"}, \"new_content\": {\"type\": \"string\", \"description\": \"The new content for the specified lines.\"}}, \"required\": [\"path\", \"start_line\", \"end_line\", \"new_content\"]}"@,
    {
        "{\"type\": \"object\", \"properties\": {\"path\": {\"type\": \"string\", \"description\": \"The path to the file.\"}, \"start_line\": {\"type\": \"number\", \"description\": \"Starting line number (1-indexed).\"}, \"end_line\": {\"type\": \"number\", \"description\": \"Ending line number (inclusive).\"}, \"new_content\": {\"type\": \"string\", \"description\": \"The new content for the specified lines.\"}}, \"required\": [\"path\", \"start_line\", \"end_line\", \"new_content\"]}"
    }
}
/// Lists a directory.
#[derive(Clone, Copy, Debug)]
pub struct ListFiles;

impl ListFiles {
    /// The name by which the model calls the tool.
    pub fn name(&self) -> (name: &'static str)
        ensures
            name@ == "list_files"@,
    {
        "list_files"
    }

    /// What the tool says of itself.
    pub fn description(&self) -> (text: &'static str)
        ensures
            text@ == "List contents of a directory."@,
    {
        "List contents of a directory."
    }

    /// The JSON schema of the tool's arguments, as text.
    pub fn parameters(&self) -> (schema: &'static str)
        ensures
            schema@ == "{\"type\": \"object\", \"properties\": {\"path\": {\"type\": \"string\", \"description\": \"The directory path (defaults to '.').\"}}, \"required\": []}"@,
    {
        "{\"type\": \"object\", \"properties\": {\"path\": {\"type\": \"string\", \"description\": \"The directory path (defaults to '.').\"}}, \"required\": []}"
    }
}
/// Runs a shell command.
#[derive(Clone, Copy, Debug)]
pub struct RunShellCommand;

impl RunShellCommand {
    /// The name by which the model calls the tool.
    pub fn name(&self) -> (name: &'static str)
        ensures
            name@ == "run_shell_command"@,
    {
        "run_shell_command"
    }

    /// What the tool says of itself.
    pub fn description(&self) -> (text: &'static str)
        ensures
            text@ == "Run a shell command and return output. Use for testing like 'cargo test'. Confirm for sensitive commands."@,
    {
        "Run a shell command and return output. Use for testing like 'cargo test'. Confirm for sensitive commands."
    }

    /// The JSON schema of the tool's arguments, as text.
    pub fn parameters(&self) -> (schema: &'static str)
        ensures
            schema@ == "{\"type\": \"object\", \"properties\": {\"command\": {\"type\": \"string\", \"description\": \"The shell command to run.\"}}, \"required\": [\"command\"]}"@,
    {
        "{\"type\": \"object\", \"properties\": {\"command\": {\"type\": \"string\", \"description\": \"The shell command to run.\"}}, \"required\": [\"command\"]}"
    }
}
/// Searches the files of the project.
#[derive(Clone, Copy, Debug)]
pub struct SearchCodebase;

impl SearchCodebase {
    /// The name by which the model calls the tool.
    pub fn name(&self) -> (name: &'static str)
        ensures
            name@ == "search_codebase"@,
    {
        "search_codebase"
    }

    /// What the tool says of itself.
    pub fn description(&self) -> (text: &'static str)
        ensures
            text@ == "Search for text in the codebase files, optionally using regex."@,
    {
        "Search for text in the codebase files, optionally using regex."
    }

    /// The JSON schema of the tool's arguments, as text.
    pub fn parameters(&self) -> (schema: &'static str)
        ensures
            schema@ == "{\"type\": \"object\", \"properties\": {\"query\": {\"type\": \"string\", \"description\": \"The search query or regex pattern.\"}, \"is_regex\": {\"type\": \"boolean\", \"description\": \"Whether to treat query as regex.\", \"default\": false}}, \"required\": [\"query\"]}"@,
    {
        "{\"type\": \"object\", \"properties\": {\"query\": {\"type\": \"string\", \"description\": \"The search query or regex pattern.\"}, \"is_regex\": {\"type\": \"boolean\", \"description\": \"Whether to treat query as regex.\", \"default\": false}}, \"required\": [\"query\"]}"
    }
}
/// Looks into an error message.
#[derive(Clone, Copy, Debug)]
pub struct DebugCode;

impl DebugCode {
    /// The name by which the model calls the tool.
    pub fn name(&self) -> (name: &'static str)
        ensures
            name@ == "debug_code"@,
    {
        "debug_code"
    }

    /// What the tool says of itself.
    pub fn description(&self) -> (text: &'static str)
        ensures
            text@ == "Analyze error messages and suggest fixes. Searches codebase for keywords."@,
    {
        "Analyze error messages and suggest fixes. Searches codebase for keywords."
    }

    /// The JSON schema of the tool's arguments, as text.
    pub fn parameters(&self) -> (schema: &'static str)
        ensures
            schema@ == "{\"type\": \"object\", \"properties\": {\"error_message\": {\"type\": \"string\", \"description\": \"The error message to analyze.\"}}, \"required\": [\"error_message\"]}"@,
    {
        "{\"type\": \"object\", \"properties\": {\"error_message\": {\"type\": \"string\", \"description\": \"The error message to analyze.\"}}, \"required\": [\"error_message\"]}"
    }
}
/// Analyzes a log.
#[derive(Clone, Copy, Debug)]
pub struct AnalyzeLog;

impl AnalyzeLog {
    /// The name by which the model calls the tool.
    pub fn name(&self) -> (name: &'static str)
        ensures
            name@ == "analyze_log"@,
    {
        "analyze_log"
    }

    /// What the tool says of itself.
    pub fn description(&self) -> (text: &'static str)
        ensures
            text@ == "Analyze log files for patterns, errors, and potential issues."@,
    {
        "Analyze log files for patterns, errors, and potential issues."
    }

    /// The JSON schema of the tool's arguments, as text.
    pub fn parameters(&self) -> (schema: &'static str)
        ensures
            schema@ == "{\"type\": \"object\", \"properties\": {\"log_content\": {\"type\": \"string\", \"description\": \"The log content to analyze.\"}, \"max_lines\": {\"type\": \"number\", \"description\": \"Maximum lines to analyze (default: 1000).\", \"default\": 1000}}, \"required\": [\"log_content\"]}"@,
    {
        "{\"type\": \"object\", \"properties\": {\"log_content\": {\"type\": \"string\", \"description\": \"The log content to analyze.\"}, \"max_lines\": {\"type\": \"number\", \"description\": \"Maximum lines to analyze (default: 1000).\", \"default\": 1000}}, \"required\": [\"log_content\"]}"
    }
}
/// Runs the linter.
#[derive(Clone, Copy, Debug)]
pub struct RunLint;

impl RunLint {
    /// The name by which the model calls the tool.
    pub fn name(&self) -> (name: &'static str)
        ensures
            name@ == "run_lint"@,
    {
        "run_lint"
    }

    /// What the tool says of itself.
    pub fn description(&self) -> (text: &'static str)
        ensures
            text@ == "Run cargo clippy to check for code issues. Pass fix=true to attempt automatic fixes."@,
    {
        "Run cargo clippy to check for code issues. Pass fix=true to attempt automatic fixes."
    }

    /// The JSON schema of the tool's arguments, as text.
    pub fn parameters(&self) -> (schema: &'static str)
        ensures
            schema@ == "{\"type\": \"object\", \"properties\": {\"fix\": {\"type\": \"boolean\", \"description\": \"Whether to attempt automatic fixes.\", \"default\": false}}, \"required\": []}"@,
    {
        "{\"type\": \"object\", \"properties\": {\"fix\": {\"type\": \"boolean\", \"description\": \"Whether to attempt automatic fixes.\", \"default\": false}}, \"required\": []}"
    }
}
/// Resolves merge conflicts in a file.
#[derive(Clone, Copy, Debug)]
pub struct ResolveMergeConflict;

impl ResolveMergeConflict {
    /// The name by which the model calls the tool.
    pub fn name(&self) -> (name: &'static str)
        ensures
            name@ == "resolve_merge_conflict"@,
    {
        "resolve_merge_conflict"
    }

    /// What the tool says of itself.
    pub fn description(&self) -> (text: &'static str)
        ensures
            text@ == "Intelligently resolve git merge conflicts with various strategies."@,
    {
        "Intelligently resolve git merge conflicts with various strategies."
    }

    /// The JSON schema of the tool's arguments, as text.
    pub fn parameters(&self) -> (schema: &'static str)
        ensures
            schema@ == "{\"type\": \"object\", \"properties\": {\"path\": {\"type\": \"string\", \"description\": \"Path to the file with merge conflicts.\"}, \"strategy\": {\"type\": \"string\", \"description\": \"Resolution strategy: 'ours', 'theirs', 'both', 'interactive', or 'auto' (default)\", \"default\": \"auto\"}}, \"required\": [\"path\"]}"@,
    {
        "{\"type\": \"object\", \"properties\": {\"path\": {\"type\": \"string\", \"description\": \"Path to the file with merge conflicts.\"}, \"strategy\": {\"type\": \"string\", \"description\": \"Resolution strategy: 'ours', 'theirs', 'both', 'interactive', or 'auto' (default)\", \"default\": \"auto\"}}, \"required\": [\"path\"]}"
    }
}
/// Commits the changes of the project.
#[derive(Clone, Copy, Debug)]
pub struct CreateCommit;

impl CreateCommit {
    /// The name by which the model calls the tool.
    pub fn name(&self) -> (name: &'static str)
        ensures
            name@ == "create_commit"@,
    {
        "create_commit"
    }

    /// What the tool says of itself.
    pub fn description(&self) -> (text: &'static str)
        ensures
            text@ == "Create a git commit with staged changes."@,
    {
        "Create a git commit with staged changes."
    }

    /// The JSON schema of the tool's arguments, as text.
    pub fn parameters(&self) -> (schema: &'static str)
        ensures
            schema@ == "{\"type\": \"object\", \"properties\": {\"message\": {\"type\": \"string\", \"description\": \"The commit message.\"}}, \"required\": [\"message\"]}"@,
    {
        "{\"type\": \"object\", \"properties\": {\"message\": {\"type\": \"string\", \"description\": \"The commit message.\"}}, \"required\": [\"message\"]}"
    }
}
/// Submits a pull request.
#[derive(Clone, Copy, Debug)]
pub struct SubmitPR;

impl SubmitPR {
    /// The name by which the model calls the tool.
    pub fn name(&self) -> (name: &'static str)
        ensures
            name@ == "submit_pr"@,
    {
        "submit_pr"
    }

    /// What the tool says of itself.
    pub fn description(&self) -> (text: &'static str)
        ensures
            text@ == "Submit a pull request to GitHub. Requires GITHUB_TOKEN, GITHUB_REPO (owner/repo) env vars."@,
    {
        "Submit a pull request to GitHub. Requires GITHUB_TOKEN, GITHUB_REPO (owner/repo) env vars."
    }

    /// The JSON schema of the tool's arguments, as text.
    pub fn parameters(&self) -> (schema: &'static str)
        ensures
            schema@ == "{\"type\": \"object\", \"properties\": {\"title\": {\"type\": \"string\", \"description\": \"PR title.\"}, \"body\": {\"type\": \"string\", \"description\": \"PR body.\"}, \"base\": {\"type\": \"string\", \"description\": \"Base branch.\", \"default\": \"main\"}, \"head\": {\"type\": \"string\", \"description\": \"Head branch.\"}}, \"required\": [\"title\", \"head\"]}"@,
    {
        "{\"type\": \"object\", \"properties\": {\"title\": {\"type\": \"string\", \"description\": \"PR title.\"}, \"body\": {\"type\": \"string\", \"description\": \"PR body.\"}, \"base\": {\"type\": \"string\", \"description\": \"Base branch.\", \"default\": \"main\"}, \"head\": {\"type\": \"string\", \"description\": \"Head branch.\"}}, \"required\": [\"title\", \"head\"]}"
    }
}
/// Searches the web.
#[derive(Clone, Copy, Debug)]
pub struct WebSearch;

impl WebSearch {
    /// The name by which the model calls the tool.
    pub fn name(&self) -> (name: &'static str)
        ensures
            name@ == "web_search"@,
    {
        "web_search"
    }

    /// What the tool says of itself.
    pub fn description(&self) -> (text: &'static str)
        ensures
            text@ == "Perform a web search using DuckDuckGo API and return results."@,
    {
        "Perform a web search using DuckDuckGo API and return results."
    }

    /// The JSON schema of the tool's arguments, as text.
    pub fn parameters(&self) -> (schema: &'static str)
        ensures
            schema@ == "{\"type\": \"object\", \"properties\": {\"query\": {\"type\": \"string\", \"description\": \"The search query.\"}}, \"required\": [\"query\"]}"@,
    {
        "{\"type\": \"object\", \"properties\": {\"query\": {\"type\": \"string\", \"description\": \"The search query.\"}}, \"required\": [\"query\"]}"
    }
}
/// Creates a Jira ticket.
#[derive(Clone, Copy, Debug)]
pub struct CreateJiraTicket;

impl CreateJiraTicket {
    /// The name by which the model calls the tool.
    pub fn name(&self) -> (name: &'static str)
        ensures
            name@ == "create_jira_ticket"@,
    {
        "create_jira_ticket"
    }

    /// What the tool says of itself.
    pub fn description(&self) -> (text: &'static str)
        ensures
            text@ == "Create a Jira ticket. Requires JIRA_API_KEY, JIRA_URL, JIRA_PROJECT env vars."@,
    {
        "Create a Jira ticket. Requires JIRA_API_KEY, JIRA_URL, JIRA_PROJECT env vars."
    }

    /// The JSON schema of the tool's arguments, as text.
    pub fn parameters(&self) -> (schema: &'static str)
        ensures
            schema@ == "{\"type\": \"object\", \"properties\": {\"summary\": {\"type\": \"string\", \"description\": \"Ticket summary.\"}, \"description\": {\"type\": \"string\", \"description\": \"Ticket description.\"}}, \"required\": [\"summary\"]}"@,
    {
        "{\"type\": \"object\", \"properties\": {\"summary\": {\"type\": \"string\", \"description\": \"Ticket summary.\"}, \"description\": {\"type\": \"string\", \"description\": \"Ticket description.\"}}, \"required\": [\"summary\"]}"
    }
}
/// Lists the backups of a file.
#[derive(Clone, Copy, Debug)]
pub struct ListBackups;

impl ListBackups {
    /// The name by which the model calls the tool.
    pub fn name(&self) -> (name: &'static str)
        ensures
            name@ == "list_backups"@,
    {
        "list_backups"
    }

    /// What the tool says of itself.
    pub fn description(&self) -> (text: &'static str)
        ensures
            text@ == "List all backups for a given file"@,
    {
        "List all backups for a given file"
    }

    /// The JSON schema of the tool's arguments, as text.
    pub fn parameters(&self) -> (schema: &'static str)
        ensures
            schema@ == "{\"type\": \"object\", \"properties\": {\"path\": {\"type\": \"string\", \"description\": \"Path to the original file\"}}, \"required\": [\"path\"]}"@,
    {
        "{\"type\": \"object\", \"properties\": {\"path\": {\"type\": \"string\", \"description\": \"Path to the original file\"}}, \"required\": [\"path\"]}"
    }
}
/// Removes old backups.
#[derive(Clone, Copy, Debug)]
pub struct CleanBackups;

impl CleanBackups {
    /// The name by which the model calls the tool.
    pub fn name(&self) -> (name: &'static str)
        ensures
            name@ == "clean_backups"@,
    {
        "clean_backups"
    }

    /// What the tool says of itself.
    pub fn description(&self) -> (text: &'static str)
        ensures
            text@ == "Clean up old backups based on retention policy"@,
    {
        "Clean up old backups based on retention policy"
    }

    /// The JSON schema of the tool's arguments, as text.
    pub fn parameters(&self) -> (schema: &'static str)
        ensures
            schema@ == "{\"type\": \"object\", \"properties\": {\"path\": {\"type\": \"string\", \"description\": \"Path to the original file (clean its backups)\"}, \"all\": {\"type\": \"boolean\", \"description\": \"Clean all old backups in the project\", \"default\": false}}}"@,
    {
        "{\"type\": \"object\", \"properties\": {\"path\": {\"type\": \"string\", \"description\": \"Path to the original file (clean its backups)\"}, \"all\": {\"type\": \"boolean\", \"description\": \"Clean all old backups in the project\", \"default\": false}}}"
    }
}
/// One of the tools that come with the assistant.
#[derive(Clone, Copy, Debug, PartialEq, Eq, Structural)]
pub enum BuiltinTool {
    ReadFile,
    WriteFile,
    EditFile,
    ListFiles,
    RunShellCommand,
    SearchCodebase,
    DebugCode,
    AnalyzeLog,
    RunLint,
    ResolveMergeConflict,
    CreateCommit,
    SubmitPR,
    WebSearch,
    CreateJiraTicket,
    ListBackups,
    CleanBackups,
}

impl BuiltinTool {
    /// The name by which the model calls the tool.
    pub open spec fn spec_name(&self) -> Seq<char> {
        match self {
            BuiltinTool::ReadFile => "read_file"@,
            BuiltinTool::WriteFile => "write_file"@,
            BuiltinTool::EditFile => "edit_file"@,
            BuiltinTool::ListFiles => "list_files"@,
            BuiltinTool::RunShellCommand => "run_shell_command"@,
            BuiltinTool::SearchCodebase => "search_codebase"@,
            BuiltinTool::DebugCode => "debug_code"@,
            BuiltinTool::AnalyzeLog => "analyze_log"@,
            BuiltinTool::RunLint => "run_lint"@,
            BuiltinTool::ResolveMergeConflict => "resolve_merge_conflict"@,
            BuiltinTool::CreateCommit => "create_commit"@,
            BuiltinTool::SubmitPR => "submit_pr"@,
            BuiltinTool::WebSearch => "web_search"@,
            BuiltinTool::CreateJiraTicket => "create_jira_ticket"@,
            BuiltinTool::ListBackups => "list_backups"@,
            BuiltinTool::CleanBackups => "clean_backups"@,
        }
    }

    /// What the tool says of itself.
    pub open spec fn spec_description(&self) -> Seq<char> {
        match self {
            BuiltinTool::ReadFile => "Read the contents of a file at the given path."@,
            BuiltinTool::WriteFile => "Write content to a file at the given path. Overwrites if exists. Creates timestamped backup with retention policy."@,
            BuiltinTool::EditFile => "Edit specific lines in a file. Creates timestamped backup with retention policy."@,
            BuiltinTool::ListFiles => "List contents of a directory."@,
            BuiltinTool::RunShellCommand => "Run a shell command and return output. Use for testing like 'cargo test'. Confirm for sensitive commands."@,
            BuiltinTool::SearchCodebase => "Search for text in the codebase files, optionally using regex."@,
            BuiltinTool::DebugCode => "Analyze error messages and suggest fixes. Searches codebase for keywords."@,
            BuiltinTool::AnalyzeLog => "Analyze log files for patterns, errors, and potential issues."@,
            BuiltinTool::RunLint => "Run cargo clippy to check for code issues. Pass fix=true to attempt automatic fixes."@,
            BuiltinTool::ResolveMergeConflict => "Intelligently resolve git merge conflicts with various strategies."@,
            BuiltinTool::CreateCommit => "Create a git commit with staged changes."@,
            BuiltinTool::SubmitPR => "Submit a pull request to GitHub. Requires GITHUB_TOKEN, GITHUB_REPO (owner/repo) env vars."@,
            BuiltinTool::WebSearch => "Perform a web search using DuckDuckGo API and return results."@,
            BuiltinTool::CreateJiraTicket => "Create a Jira ticket. Requires JIRA_API_KEY, JIRA_URL, JIRA_PROJECT env vars."@,
            BuiltinTool::ListBackups => "List all backups for a given file"@,
            BuiltinTool::CleanBackups => "Clean up old backups based on retention policy"@,
        }
    }

    /// The JSON schema of the tool's arguments.
    pub open spec fn spec_parameters(&self) -> Seq<char> {
        match self {
            BuiltinTool::ReadFile => "{\"type\": \"object\", \"properties\": {\"path\": {\"type\": \"string\", \"description\": \"The path to the file.\"}}, \"required\": [\"path\"]}"@,
            BuiltinTool::WriteFile => "{\"type\": \"object\", \"properties\": {\"path\": {\"type\": \"string\", \"description\": \"The path to the file.\"}, \"content\": {\"type\": \"string\", \"description\": \"The content to write.\"}}, \"required\": [\"path\", \"content\"]}"@,
            BuiltinTool::EditFile => "{\"type\": \"object\", \"properties\": {\"path\": {\"type\": \"string\", \"description\": \"The path to the file.\"}, \"start_line\": {\"type\": \"number\", \"description\": \"Starting line number (1-indexed).\"}, \"end_line\": {\"type\": \"number\", \"description\": \"Ending line number (inclusive).\"}, \"new_content\": {\"type\": \"string\", \"description\": \"The new content for the specified lines.\"}}, \"required\": [\"path\", \"start_line\", \"end_line\", \"new_content\"]}"@,
            BuiltinTool::ListFiles => "{\"type\": \"object\", \"properties\": {\"path\": {\"type\": \"string\", \"description\": \"The directory path (defaults to '.').\"}}, \"required\": []}"@,
            BuiltinTool::RunShellCommand => "{\"type\": \"object\", \"properties\": {\"command\": {\"type\": \"string\", \"description\": \"The shell command to run.\"}}, \"required\": [\"command\"]}"@,
            BuiltinTool::SearchCodebase => "{\"type\": \"object\", \"properties\": {\"query\": {\"type\": \"string\", \"description\": \"The search query or regex pattern.\"}, \"is_regex\": {\"type\": \"boolean\", \"description\": \"Whether to treat query as regex.\", \"default\": false}}, \"required\": [\"query\"]}"@,
            BuiltinTool::DebugCode => "{\"type\": \"object\", \"properties\": {\"error_message\": {\"type\": \"string\", \"description\": \"The error message to analyze.\"}}, \"required\": [\"error_message\"]}"@,
            BuiltinTool::AnalyzeLog => "{\"type\": \"object\", \"properties\": {\"log_content\": {\"type\": \"string\", \"description\": \"The log content to analyze.\"}, \"max_lines\": {\"type\": \"number\", \"description\": \"Maximum lines to analyze (default: 1000).\", \"default\": 1000}}, \"required\": [\"log_content\"]}"@,
            BuiltinTool::RunLint => "{\"type\": \"object\", \"properties\": {\"fix\": {\"type\": \"boolean\", \"description\": \"Whether to attempt automatic fixes.\", \"default\": false}}, \"required\": []}"@,
            BuiltinTool::ResolveMergeConflict => "{\"type\": \"object\", \"properties\": {\"path\": {\"type\": \"string\", \"description\": \"Path to the file with merge conflicts.\"}, \"strategy\": {\"type\": \"string\", \"description\": \"Resolution strategy: 'ours', 'theirs', 'both', 'interactive', or 'auto' (default)\", \"default\": \"auto\"}}, \"required\": [\"path\"]}"@,
            BuiltinTool::CreateCommit => "{\"type\": \"object\", \"properties\": {\"message\": {\"type\": \"string\", \"description\": \"The commit message.\"}}, \"required\": [\"message\"]}"@,
            BuiltinTool::SubmitPR => "{\"type\": \"object\", \"properties\": {\"title\": {\"type\": \"string\", \"description\": \"PR title.\"}, \"body\": {\"type\": \"string\", \"description\": \"PR body.\"}, \"base\": {\"type\": \"string\", \"description\": \"Base branch.\", \"default\": \"main\"}, \"head\": {\"type\": \"string\", \"description\": \"Head branch.\"}}, \"required\": [\"title\", \"head\"]}"@,
            BuiltinTool::WebSearch => "{\"type\": \"object\", \"properties\": {\"query\": {\"type\": \"string\", \"description\": \"The search query.\"}}, \"required\": [\"query\"]}"@,
            BuiltinTool::CreateJiraTicket => "{\"type\": \"object\", \"properties\": {\"summary\": {\"type\": \"string\", \"description\": \"Ticket summary.\"}, \"description\": {\"type\": \"string\", \"description\": \"Ticket description.\"}}, \"required\": [\"summary\"]}"@,
            BuiltinTool::ListBackups => "{\"type\": \"object\", \"properties\": {\"path\": {\"type\": \"string\", \"description\": \"Path to the original file\"}}, \"required\": [\"path\"]}"@,
            BuiltinTool::CleanBackups => "{\"type\": \"object\", \"properties\": {\"path\": {\"type\": \"string\", \"description\": \"Path to the original file (clean its backups)\"}, \"all\": {\"type\": \"boolean\", \"description\": \"Clean all old backups in the project\", \"default\": false}}}"@,
        }
    }

    /// The name by which the model calls the tool.
    pub fn name(&self) -> (name: &'static str)
        ensures
            name@ == self.spec_name(),
    {
        match self {
            BuiltinTool::ReadFile => ReadFile.name(),
            BuiltinTool::WriteFile => WriteFile.name(),
            BuiltinTool::EditFile => EditFile.name(),
            BuiltinTool::ListFiles => ListFiles.name(),
            BuiltinTool::RunShellCommand => RunShellCommand.name(),
            BuiltinTool::SearchCodebase => SearchCodebase.name(),
            BuiltinTool::DebugCode => DebugCode.name(),
            BuiltinTool::AnalyzeLog => AnalyzeLog.name(),
            BuiltinTool::RunLint => RunLint.name(),
            BuiltinTool::ResolveMergeConflict => ResolveMergeConflict.name(),
            BuiltinTool::CreateCommit => CreateCommit.name(),
            BuiltinTool::SubmitPR => SubmitPR.name(),
            BuiltinTool::WebSearch => WebSearch.name(),
            BuiltinTool::CreateJiraTicket => CreateJiraTicket.name(),
            BuiltinTool::ListBackups => ListBackups.name(),
            BuiltinTool::CleanBackups => CleanBackups.name(),
        }
    }

    /// What the tool says of itself.
    pub fn description(&self) -> (text: &'static str)
        ensures
            text@ == self.spec_description(),
    {
        match self {
            BuiltinTool::ReadFile => ReadFile.description(),
            BuiltinTool::WriteFile => WriteFile.description(),
            BuiltinTool::EditFile => EditFile.description(),
            BuiltinTool::ListFiles => ListFiles.description(),
            BuiltinTool::RunShellCommand => RunShellCommand.description(),
            BuiltinTool::SearchCodebase => SearchCodebase.description(),
            BuiltinTool::DebugCode => DebugCode.description(),
            BuiltinTool::AnalyzeLog => AnalyzeLog.description(),
            BuiltinTool::RunLint => RunLint.description(),
            BuiltinTool::ResolveMergeConflict => ResolveMergeConflict.description(),
            BuiltinTool::CreateCommit => CreateCommit.description(),
            BuiltinTool::SubmitPR => SubmitPR.description(),
            BuiltinTool::WebSearch => WebSearch.description(),
            BuiltinTool::CreateJiraTicket => CreateJiraTicket.description(),
            BuiltinTool::ListBackups => ListBackups.description(),
            BuiltinTool::CleanBackups => CleanBackups.description(),
        }
    }

    /// The JSON schema of the tool's arguments, as text.
    pub fn parameters(&self) -> (schema: &'static str)
        ensures
            schema@ == self.spec_parameters(),
    {
        match self {
            BuiltinTool::ReadFile => ReadFile.parameters(),
            BuiltinTool::WriteFile => WriteFile.parameters(),
            BuiltinTool::EditFile => EditFile.parameters(),
            BuiltinTool::ListFiles => ListFiles.parameters(),
            BuiltinTool::RunShellCommand => RunShellCommand.parameters(),
            BuiltinTool::SearchCodebase => SearchCodebase.parameters(),
            BuiltinTool::DebugCode => DebugCode.parameters(),
            BuiltinTool::AnalyzeLog => AnalyzeLog.parameters(),
            BuiltinTool::RunLint => RunLint.parameters(),
            BuiltinTool::ResolveMergeConflict => ResolveMergeConflict.parameters(),
            BuiltinTool::CreateCommit => CreateCommit.parameters(),
            BuiltinTool::SubmitPR => SubmitPR.parameters(),
            BuiltinTool::WebSearch => WebSearch.parameters(),
            BuiltinTool::CreateJiraTicket => CreateJiraTicket.parameters(),
            BuiltinTool::ListBackups => ListBackups.parameters(),
            BuiltinTool::CleanBackups => CleanBackups.parameters(),
        }
    }
}

/// The tools that come with the assistant, in the order in which they are
/// offered to the model.
pub open spec fn builtin_tools() -> Seq<BuiltinTool> {
    seq![
        BuiltinTool::ReadFile,
        BuiltinTool::WriteFile,
        BuiltinTool::EditFile,
        BuiltinTool::ListFiles,
        BuiltinTool::RunShellCommand,
        BuiltinTool::SearchCodebase,
        BuiltinTool::DebugCode,
        BuiltinTool::AnalyzeLog,
        BuiltinTool::RunLint,
        BuiltinTool::ResolveMergeConflict,
        BuiltinTool::CreateCommit,
        BuiltinTool::SubmitPR,
        BuiltinTool::WebSearch,
        BuiltinTool::CreateJiraTicket,
        BuiltinTool::ListBackups,
        BuiltinTool::CleanBackups,
    ]
}

/// The tools that come with the assistant.
pub fn all_builtin_tools() -> (tools: Vec<BuiltinTool>)
    ensures
        tools@ == builtin_tools(),
{
    let mut tools: Vec<BuiltinTool> = Vec::new();
    tools.push(BuiltinTool::ReadFile);
    tools.push(BuiltinTool::WriteFile);
    tools.push(BuiltinTool::EditFile);
    tools.push(BuiltinTool::ListFiles);
    tools.push(BuiltinTool::RunShellCommand);
    tools.push(BuiltinTool::SearchCodebase);
    tools.push(BuiltinTool::DebugCode);
    tools.push(BuiltinTool::AnalyzeLog);
    tools.push(BuiltinTool::RunLint);
    tools.push(BuiltinTool::ResolveMergeConflict);
    tools.push(BuiltinTool::CreateCommit);
    tools.push(BuiltinTool::SubmitPR);
    tools.push(BuiltinTool::WebSearch);
    tools.push(BuiltinTool::CreateJiraTicket);
    tools.push(BuiltinTool::ListBackups);
    tools.push(BuiltinTool::CleanBackups);
    assert(tools@ =~= builtin_tools());
    tools
}

} // verus!
