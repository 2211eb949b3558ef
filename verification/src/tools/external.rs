//! The tools that reach services outside the project.

use vstd::prelude::*;
use vstd::utf8::encode_utf8;
use crate::text::{concat, concat3, extend_str, from_chars, owned, to_chars};
use crate::tools::builtin::{CreateJiraTicket, WebSearch};

verus! {

/// A byte that stands for itself in a query: a letter or digit of ASCII, or
/// one of `-`, `.`, `_`, `~`.
pub open spec fn is_unreserved(b: u8) -> bool {
    ||| 0x30 <= b <= 0x39
    ||| 0x41 <= b <= 0x5a
    ||| 0x61 <= b <= 0x7a
    ||| b == 0x2d
    ||| b == 0x2e
    ||| b == 0x5f
    ||| b == 0x7e
}

/// The upper-case hexadecimal digit of a value below 16.
pub open spec fn upper_hex(n: int) -> char {
    if n == 0 {
        '0'
    } else if n == 1 {
        '1'
    } else if n == 2 {
        '2'
    } else if n == 3 {
        '3'
    } else if n == 4 {
        '4'
    } else if n == 5 {
        '5'
    } else if n == 6 {
        '6'
    } else if n == 7 {
        '7'
    } else if n == 8 {
        '8'
    } else if n == 9 {
        '9'
    } else if n == 10 {
        'A'
    } else if n == 11 {
        'B'
    } else if n == 12 {
        'C'
    } else if n == 13 {
        'D'
    } else if n == 14 {
        'E'
    } else {
        'F'
    }
}

/// The percent-encoding of a byte sequence: an unreserved byte stands for
/// itself, any other is `%` and its two hexadecimal digits.
pub open spec fn percent_encoded(bytes: Seq<u8>) -> Seq<char>
    decreases bytes.len(),
{
    if bytes.len() == 0 {
        seq![]
    } else {
        let b = bytes.last();
        percent_encoded(bytes.drop_last()) + if is_unreserved(b) {
            seq![b as char]
        } else {
            seq!['%', upper_hex(b as int / 16), upper_hex(b as int % 16)]
        }
    }
}

/// The percent-encoding of a text.
///
/// Trusted: `urlencoding::encode` keeps every letter and digit of ASCII and
/// `-`, `.`, `_`, `~`, and writes every other byte of the UTF-8 encoding as
/// `%` and two upper-case hexadecimal digits.
#[verifier::external_body]
fn url_encode(text: &str) -> (out: String)
    ensures
        out@ == percent_encoded(encode_utf8(text@)),
{
    urlencoding::encode(text).into_owned()
}

/// The address at which a query is searched.
pub open spec fn search_url(query: Seq<char>) -> Seq<char> {
    "https://api.duckduckgo.com/?q="@ + percent_encoded(encode_utf8(query)) + "&format=json"@
}

/// The text of an option, empty where there is none.
pub open spec fn text_or_empty(text: Option<Seq<char>>) -> Seq<char> {
    match text {
        Some(t) => t,
        None => Seq::empty(),
    }
}

/// What the environment holds for a Jira ticket.
#[derive(Clone, Debug)]
pub struct JiraEnvironment {
    pub api_key: Option<String>,
    pub url: Option<String>,
    pub project: Option<String>,
}

/// The result of a call for a Jira ticket.
pub open spec fn jira_result(
    summary: Option<Seq<char>>,
    api_key: Option<Seq<char>>,
    url: Option<Seq<char>>,
    project: Option<Seq<char>>,
    confirmed: bool,
    dry_run: bool,
) -> Seq<char> {
    if api_key is None {
        "JIRA_API_KEY required."@
    } else if url is None {
        "JIRA_URL required (e.g., https://your.atlassian.net)"@
    } else if project is None {
        "JIRA_PROJECT required."@
    } else if !confirmed {
        "Jira ticket creation not confirmed."@
    } else if dry_run {
        "Dry-run: Would create Jira ticket."@
    } else {
        "Would create Jira ticket at "@ + url->0 + "/rest/api/3/issue with summary: "@
            + text_or_empty(summary)
    }
}

impl WebSearch {
    /// The result of a search: what would be searched, and where. A call
    /// without a query searches for the empty text.
    pub fn execute(&self, query: Option<&str>) -> (text: String)
        ensures
            text@ == "Would search for: "@ + text_or_empty(
                match query {
                    Some(q) => Some(q@),
                    None => None,
                },
            ) + " at "@ + search_url(
                text_or_empty(
                    match query {
                        Some(q) => Some(q@),
                        None => None,
                    },
                ),
            ),
    {
        let query = match query {
            Some(q) => q,
            None => "",
        };
        proof {
            reveal_strlit("");
            assert(""@ =~= Seq::<char>::empty());
        }
        let encoded = url_encode(query);
        let mut out = to_chars("Would search for: ");
        extend_str(&mut out, query);
        extend_str(&mut out, " at ");
        let ghost head = out@;
        extend_str(&mut out, "https://api.duckduckgo.com/?q=");
        extend_str(&mut out, encoded.as_str());
        extend_str(&mut out, "&format=json");
        assert(out@ =~= head + search_url(query@));
        from_chars(out.as_slice())
    }
}

impl CreateJiraTicket {
    /// Whether the environment names everything that a ticket needs, so that
    /// the user is asked for confirmation.
    pub fn is_configured(&self, env: &JiraEnvironment) -> (b: bool)
        ensures
            b == (env.api_key is Some && env.url is Some && env.project is Some),
    {
        env.api_key.is_some() && env.url.is_some() && env.project.is_some()
    }

    /// The result of a call: what is missing in the environment; else that
    /// the user refused; else what a dry run would do; else what would be
    /// created.
    pub fn execute(
        &self,
        summary: Option<&str>,
        env: &JiraEnvironment,
        confirmed: bool,
        dry_run: bool,
    ) -> (text: String)
        ensures
            text@ == jira_result(
                match summary {
                    Some(s) => Some(s@),
                    None => None,
                },
                env.api_key.deep_view(),
                env.url.deep_view(),
                env.project.deep_view(),
                confirmed,
                dry_run,
            ),
    {
        if env.api_key.is_none() {
            return owned("JIRA_API_KEY required.");
        }
        let url = match &env.url {
            Some(u) => u,
            None => {
                return owned("JIRA_URL required (e.g., https://your.atlassian.net)");
            },
        };
        if env.project.is_none() {
            return owned("JIRA_PROJECT required.");
        }
        if !confirmed {
            return owned("Jira ticket creation not confirmed.");
        }
        if dry_run {
            return owned("Dry-run: Would create Jira ticket.");
        }
        let summary = match summary {
            Some(s) => s,
            None => "",
        };
        proof {
            reveal_strlit("");
            assert(""@ =~= Seq::<char>::empty());
        }
        let head = concat3("Would create Jira ticket at ", url.as_str(), "/rest/api/3/issue with summary: ");
        concat(head.as_str(), summary)
    }
}

} // verus!
