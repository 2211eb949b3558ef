//! The tool that searches the files of the project for a text or a pattern.

use vstd::prelude::*;
use crate::text::{concat, contains, extend_str, from_chars, has, owned, to_chars};
use crate::tools::builtin::SearchCodebase;
use crate::tools::utils::{sanitize_regex_pattern, spec_regex_error};

verus! {

/// Whether a pattern matches somewhere in a text; `false` for a pattern that
/// does not compile.
pub uninterp spec fn spec_regex_match(pattern: Seq<char>, text: Seq<char>) -> bool;

/// Whether a pattern matches somewhere in a text.
///
/// Trusted: `regex::Regex::new` and `Regex::is_match` decide by the pattern
/// and the text alone.
#[verifier::external_body]
fn regex_is_match(pattern: &str, text: &str) -> (b: bool)
    ensures
        b == spec_regex_match(pattern@, text@),
{
    match regex::Regex::new(pattern) {
        Ok(re) => re.is_match(text),
        Err(_) => false,
    }
}

/// A file of the project that could be read.
#[derive(Clone, Debug)]
pub struct SourceFile {
    pub path: String,
    pub content: String,
}

/// What the check of the arguments of a search gives: nothing, or the result
/// of the call.
pub open spec fn search_complaint(query: Option<Seq<char>>, is_regex: bool) -> Option<Seq<char>> {
    match query {
        None => Some("Error: 'query' parameter is required"@),
        Some(q) => if q.len() == 0 {
            Some("Error: Query cannot be empty"@)
        } else if is_regex {
            match spec_regex_error(q) {
                Some(e) => Some("Error: "@ + ("Invalid regex pattern: "@ + e)),
                None => None,
            }
        } else {
            None
        },
    }
}

/// A file holds what is searched for.
pub open spec fn file_matches(query: Seq<char>, is_regex: bool, content: Seq<char>) -> bool {
    if is_regex {
        spec_regex_match(query, content)
    } else {
        contains(content, query)
    }
}

/// The line that reports a file.
pub open spec fn match_line(query: Seq<char>, is_regex: bool, path: Seq<char>) -> Seq<char> {
    if is_regex {
        "Match in "@ + path + "\n"@
    } else {
        "Found '"@ + query + "' in "@ + path + "\n"@
    }
}

/// The lines that report the files that hold what is searched for, in the
/// order of the files.
pub open spec fn match_lines(query: Seq<char>, is_regex: bool, files: Seq<SourceFile>) -> Seq<char>
    decreases files.len(),
{
    if files.len() == 0 {
        seq![]
    } else {
        match_lines(query, is_regex, files.drop_last()) + if file_matches(
            query,
            is_regex,
            files.last().content@,
        ) {
            match_line(query, is_regex, files.last().path@)
        } else {
            Seq::<char>::empty()
        }
    }
}

/// The result of a search.
pub open spec fn search_result(query: Option<Seq<char>>, is_regex: bool, files: Seq<SourceFile>)
    -> Seq<char> {
    match search_complaint(query, is_regex) {
        Some(text) => text,
        None => if match_lines(query->0, is_regex, files).len() == 0 {
            "No matches found."@
        } else {
            match_lines(query->0, is_regex, files)
        },
    }
}

impl SearchCodebase {
    /// Checks the arguments of a call: the query must be given and not
    /// empty, and a pattern must compile. Returns the result of a call that
    /// is refused.
    pub fn check(&self, query: Option<&str>, is_regex: Option<bool>) -> (out: Option<String>)
        ensures
            out.deep_view() == search_complaint(
                match query {
                    Some(q) => Some(q@),
                    None => None,
                },
                is_regex == Some(true),
            ),
    {
        let query = match query {
            Some(q) => q,
            None => {
                return Some(owned("Error: 'query' parameter is required"));
            },
        };
        if query.is_empty() {
            return Some(owned("Error: Query cannot be empty"));
        }
        match is_regex {
            Some(true) => match sanitize_regex_pattern(query) {
                Ok(_) => None,
                Err(e) => Some(concat("Error: ", e.as_str())),
            },
            _ => None,
        }
    }

    /// Searches the given files, which are those of the project that could
    /// be read, in the order in which they were found.
    pub fn execute(&self, query: Option<&str>, is_regex: Option<bool>, files: &Vec<SourceFile>)
        -> (text: String)
        ensures
            text@ == search_result(
                match query {
                    Some(q) => Some(q@),
                    None => None,
                },
                is_regex == Some(true),
                files@,
            ),
    {
        match self.check(query, is_regex) {
            Some(text) => {
                return text;
            },
            None => {},
        }
        let query = match query {
            Some(q) => q,
            None => "",
        };
        let regex = match is_regex {
            Some(true) => true,
            _ => false,
        };
        let needle = to_chars(query);
        let mut out: Vec<char> = Vec::new();
        let mut i: usize = 0;
        assert(files@.take(0) =~= Seq::<SourceFile>::empty());
        while i < files.len()
            invariant
                i <= files.len(),
                needle@ == query@,
                out@ == match_lines(query@, regex, files@.take(i as int)),
            decreases files.len() - i,
        {
            let file = &files[i];
            proof {
                let next = files@.take(i + 1);
                assert(next.drop_last() =~= files@.take(i as int));
                assert(next.last() == *file);
            }
            let found = if regex {
                regex_is_match(query, file.content.as_str())
            } else {
                let content = to_chars(file.content.as_str());
                has(content.as_slice(), needle.as_slice())
            };
            let ghost before = out@;
            if found {
                let mut line: Vec<char> = Vec::new();
                if regex {
                    extend_str(&mut line, "Match in ");
                } else {
                    extend_str(&mut line, "Found '");
                    extend_str(&mut line, query);
                    extend_str(&mut line, "' in ");
                }
                extend_str(&mut line, file.path.as_str());
                extend_str(&mut line, "\n");
                assert(line@ =~= match_line(query@, regex, file.path@));
                crate::text::extend_chars(&mut out, line.as_slice());
            } else {
                assert(before + Seq::<char>::empty() =~= before);
            }
            i += 1;
        }
        assert(files@.take(files.len() as int) =~= files@);
        if out.len() == 0 {
            owned("No matches found.")
        } else {
            from_chars(out.as_slice())
        }
    }
}

} // verus!
