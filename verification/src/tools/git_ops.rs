//! The tools that work on the repository: commits and pull requests.

use vstd::prelude::*;
use crate::text::{concat, concat3, from_chars, owned, to_chars, trim, trimmed};
use crate::tools::builtin::{CreateCommit, SubmitPR};
use crate::tools::utils::{commit_verdict, sanitize_commit_message, verdict_view};

verus! {

/// What the check of a commit's arguments gives: the message to commit
/// with, or the result of the call.
pub open spec fn checked_commit(message: Option<Seq<char>>) -> Result<Seq<char>, Seq<char>> {
    match message {
        None => Err("Error: 'message' parameter is required"@),
        Some(m) => match commit_verdict(m) {
            Ok(clean) => Ok(clean),
            Err(e) => Err("Error: "@ + e),
        },
    }
}

/// The steps of a commit at which the repository may refuse.
#[derive(Clone, Copy, Debug, PartialEq, Eq, Structural)]
pub enum CommitStep {
    OpenIndex,
    Stage,
    WriteIndex,
    WriteTree,
    FindTree,
    ReadHead,
    Sign,
    Commit,
}

/// The heading of the result for a step that failed.
pub open spec fn commit_failure_heading(step: CommitStep) -> Seq<char> {
    match step {
        CommitStep::OpenIndex => "Error: "@,
        CommitStep::Stage => "Error staging: "@,
        CommitStep::WriteIndex => "Error writing index: "@,
        CommitStep::WriteTree => "Error writing tree: "@,
        CommitStep::FindTree => "Error finding tree: "@,
        CommitStep::ReadHead => "Error: "@,
        CommitStep::Sign => "Error creating git signature: "@,
        CommitStep::Commit => "Error committing: "@,
    }
}

impl CreateCommit {
    /// Checks the arguments of a call: the message must be given and must
    /// pass [`sanitize_commit_message`].
    pub fn check(&self, message: Option<&str>) -> (out: Result<String, String>)
        ensures
            verdict_view(out) == checked_commit(
                match message {
                    Some(m) => Some(m@),
                    None => None,
                },
            ),
    {
        match message {
            None => Err(owned("Error: 'message' parameter is required")),
            Some(m) => match sanitize_commit_message(m) {
                Ok(clean) => Ok(clean),
                Err(e) => Err(concat("Error: ", e.as_str())),
            },
        }
    }

    /// The result of a call that does not commit: because there is no
    /// repository, the user refused, or tools only describe what they would
    /// do. `None` says: commit.
    pub fn answer_without_commit(&self, has_repository: bool, confirmed: bool, dry_run: bool)
        -> (out: Option<String>)
        ensures
            !has_repository ==> out.deep_view() == Some("No git repo found."@),
            has_repository && !confirmed ==> out.deep_view() == Some("Commit not confirmed."@),
            has_repository && confirmed && dry_run ==> out.deep_view() == Some(
                "Dry-run: Would create commit."@,
            ),
            has_repository && confirmed && !dry_run ==> out is None,
    {
        if !has_repository {
            Some(owned("No git repo found."))
        } else if !confirmed {
            Some(owned("Commit not confirmed."))
        } else if dry_run {
            Some(owned("Dry-run: Would create commit."))
        } else {
            None
        }
    }

    /// The result of a commit that was made.
    pub fn success(&self) -> (text: String)
        ensures
            text@ == "Commit successful."@,
    {
        owned("Commit successful.")
    }

    /// The result of a commit in a repository without a commit to build on.
    pub fn no_parent(&self) -> (text: String)
        ensures
            text@ == "No parent commit."@,
    {
        owned("No parent commit.")
    }

    /// The result of a commit at which the repository refused.
    pub fn failure(&self, step: CommitStep, reason: &str) -> (text: String)
        ensures
            text@ == commit_failure_heading(step) + reason@,
    {
        let heading = match step {
            CommitStep::OpenIndex => "Error: ",
            CommitStep::Stage => "Error staging: ",
            CommitStep::WriteIndex => "Error writing index: ",
            CommitStep::WriteTree => "Error writing tree: ",
            CommitStep::FindTree => "Error finding tree: ",
            CommitStep::ReadHead => "Error: ",
            CommitStep::Sign => "Error creating git signature: ",
            CommitStep::Commit => "Error committing: ",
        };
        concat(heading, reason)
    }
}

/// A pull request that passed the check of its arguments.
#[derive(Clone, Debug)]
pub struct PullRequest {
    pub title: String,
    pub body: String,
    pub base: String,
    pub head: String,
}

/// A pull request as contracts see it.
pub struct PullRequestView {
    pub title: Seq<char>,
    pub body: Seq<char>,
    pub base: Seq<char>,
    pub head: Seq<char>,
}

impl View for PullRequest {
    type V = PullRequestView;

    open spec fn view(&self) -> PullRequestView {
        PullRequestView { title: self.title@, body: self.body@, base: self.base@, head: self.head@ }
    }
}

/// What the check of a pull request's arguments gives. Title and head branch
/// must be given and not blank; the body is empty and the base is `main`
/// where they are not given; all four are trimmed.
pub open spec fn checked_pull_request(
    title: Option<Seq<char>>,
    body: Option<Seq<char>>,
    base: Option<Seq<char>>,
    head: Option<Seq<char>>,
) -> Result<PullRequestView, Seq<char>> {
    if title is None {
        Err("Error: 'title' parameter is required"@)
    } else if trim(title->0).len() == 0 {
        Err("Error: PR title cannot be empty"@)
    } else if head is None {
        Err("Error: 'head' parameter is required"@)
    } else if trim(head->0).len() == 0 {
        Err("Error: 'head' branch cannot be empty"@)
    } else {
        Ok(
            PullRequestView {
                title: trim(title->0),
                body: match body {
                    Some(b) => trim(b),
                    None => trim(""@),
                },
                base: match base {
                    Some(b) => trim(b),
                    None => trim("main"@),
                },
                head: trim(head->0),
            },
        )
    }
}

/// What the environment holds for a pull request.
#[derive(Clone, Debug)]
pub struct GitHubEnvironment {
    pub token: Option<String>,
    pub repo: Option<String>,
}

/// The result of a pull request whose arguments passed the check.
pub open spec fn pull_request_result(
    title: Seq<char>,
    token: Option<Seq<char>>,
    repo: Option<Seq<char>>,
    confirmed: bool,
    dry_run: bool,
) -> Seq<char> {
    if token is None {
        "GITHUB_TOKEN env var required."@
    } else if repo is None {
        "GITHUB_REPO env var required (e.g., owner/repo)."@
    } else if !confirmed {
        "PR submission not confirmed."@
    } else if dry_run {
        "Dry-run: Would submit PR."@
    } else {
        "Would submit PR to https://api.github.com/repos/"@ + repo->0 + "/pulls with title: "@
            + title
    }
}

fn trimmed_text(s: &str) -> (out: String)
    ensures
        out@ == trim(s@),
{
    let chars = to_chars(s);
    let t = trimmed(chars.as_slice());
    from_chars(t.as_slice())
}

impl SubmitPR {
    /// Checks the arguments of a call.
    pub fn check(
        &self,
        title: Option<&str>,
        body: Option<&str>,
        base: Option<&str>,
        head: Option<&str>,
    ) -> (out: Result<PullRequest, String>)
        ensures
            match checked_pull_request(
                match title {
                    Some(t) => Some(t@),
                    None => None,
                },
                match body {
                    Some(t) => Some(t@),
                    None => None,
                },
                match base {
                    Some(t) => Some(t@),
                    None => None,
                },
                match head {
                    Some(t) => Some(t@),
                    None => None,
                },
            ) {
                Ok(request) => out matches Ok(r) && r@ == request,
                Err(text) => out matches Err(e) && e@ == text,
            },
    {
        let title = match title {
            Some(t) => trimmed_text(t),
            None => {
                return Err(owned("Error: 'title' parameter is required"));
            },
        };
        if title.as_str().is_empty() {
            return Err(owned("Error: PR title cannot be empty"));
        }
        let head = match head {
            Some(h) => trimmed_text(h),
            None => {
                return Err(owned("Error: 'head' parameter is required"));
            },
        };
        if head.as_str().is_empty() {
            return Err(owned("Error: 'head' branch cannot be empty"));
        }
        let body = match body {
            Some(b) => trimmed_text(b),
            None => trimmed_text(""),
        };
        let base = match base {
            Some(b) => trimmed_text(b),
            None => trimmed_text("main"),
        };
        Ok(PullRequest { title, body, base, head })
    }

    /// Whether the environment names everything that a pull request needs,
    /// so that the user is asked for confirmation.
    pub fn is_configured(&self, env: &GitHubEnvironment) -> (b: bool)
        ensures
            b == (env.token is Some && env.repo is Some),
    {
        env.token.is_some() && env.repo.is_some()
    }

    /// The result of a call whose arguments passed the check: what is
    /// missing in the environment; else that the user refused; else what a
    /// dry run would do; else what would be submitted.
    pub fn execute(
        &self,
        request: &PullRequest,
        env: &GitHubEnvironment,
        confirmed: bool,
        dry_run: bool,
    ) -> (text: String)
        ensures
            text@ == pull_request_result(
                request.title@,
                env.token.deep_view(),
                env.repo.deep_view(),
                confirmed,
                dry_run,
            ),
    {
        if env.token.is_none() {
            return owned("GITHUB_TOKEN env var required.");
        }
        let repo = match &env.repo {
            Some(r) => r,
            None => {
                return owned("GITHUB_REPO env var required (e.g., owner/repo).");
            },
        };
        if !confirmed {
            return owned("PR submission not confirmed.");
        }
        if dry_run {
            return owned("Dry-run: Would submit PR.");
        }
        let head = concat3(
            "Would submit PR to https://api.github.com/repos/",
            repo.as_str(),
            "/pulls with title: ",
        );
        concat(head.as_str(), request.title.as_str())
    }
}

} // verus!
