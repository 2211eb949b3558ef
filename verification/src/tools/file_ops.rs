//! The tools that read, write, edit and list files: what is checked before
//! the file system is touched, how lines of a text are replaced, and how
//! what the file system said becomes the result.

use vstd::prelude::*;
use crate::text::{
    concat, concat3, decimal, decimal_chars, extend_chars, extend_str, from_chars, join, joined,
    owned, rows, sort_rows, sorted, to_chars, views,
};
use crate::tools::builtin::{EditFile, ListFiles, ReadFile, WriteFile};
use crate::tools::utils::{path_verdict, sanitize_path, verdict_view, PathProbe};
use crate::tools::{IoFailure, IoKind};

verus! {

/// Makes `ropey::Rope` known as a type whose inside is not looked into.
#[verifier::external_type_specification]
#[verifier::external_body]
pub struct ExRope(ropey::Rope);

/// The text that a rope holds.
pub uninterp spec fn rope_text(rope: ropey::Rope) -> Seq<char>;

/// A character that ends a line in a rope: line feed, vertical tab, form
/// feed, carriage return, next line, line separator, paragraph separator.
pub open spec fn is_line_break(c: char) -> bool {
    c == '\n' || c == '\u{0b}' || c == '\u{0c}' || c == '\r' || c == '\u{85}' || c == '\u{2028}'
        || c == '\u{2029}'
}

/// The length of the line break at the start of a text; a carriage return
/// with the line feed behind it is one break. 0 where no break stands there.
pub open spec fn break_len(s: Seq<char>) -> nat {
    if s.len() >= 2 && s[0] == '\r' && s[1] == '\n' {
        2
    } else if s.len() >= 1 && is_line_break(s[0]) {
        1
    } else {
        0
    }
}

/// The number of line breaks of a text.
pub open spec fn line_breaks(s: Seq<char>) -> nat
    decreases s.len(),
{
    if s.len() == 0 {
        0
    } else if break_len(s) > 0 {
        1 + line_breaks(s.skip(break_len(s) as int))
    } else {
        line_breaks(s.drop_first())
    }
}

/// The position at which the line with the given number (from 0) starts:
/// behind that many line breaks, and the end of the text where it has fewer.
pub open spec fn line_start(s: Seq<char>, line: nat) -> nat
    decreases s.len(),
{
    if line == 0 || s.len() == 0 {
        0
    } else if break_len(s) > 0 {
        break_len(s) + line_start(s.skip(break_len(s) as int), (line - 1) as nat)
    } else {
        1 + line_start(s.drop_first(), line)
    }
}

/// A line starts within the text, and no line starts before an earlier one.
pub proof fn lemma_line_start(s: Seq<char>, a: nat, b: nat)
    requires
        a <= b,
    ensures
        line_start(s, a) <= line_start(s, b) <= s.len(),
    decreases s.len(),
{
    if s.len() > 0 {
        if break_len(s) > 0 {
            let rest = s.skip(break_len(s) as int);
            if a > 0 {
                lemma_line_start(rest, (a - 1) as nat, (b - 1) as nat);
            } else if b > 0 {
                lemma_line_start(rest, 0, (b - 1) as nat);
            }
        } else {
            lemma_line_start(s.drop_first(), a, b);
        }
    }
}

/// A rope with the given text.
///
/// Trusted: `ropey::Rope::from_str` builds a rope that holds the text.
#[verifier::external_body]
fn rope_from_str(text: &str) -> (rope: ropey::Rope)
    ensures
        rope_text(rope) == text@,
{
    ropey::Rope::from_str(text)
}

/// The number of lines of a rope.
///
/// Trusted: `ropey::Rope::len_lines` is the number of line breaks plus one.
#[verifier::external_body]
fn rope_len_lines(rope: &ropey::Rope) -> (n: usize)
    ensures
        n == line_breaks(rope_text(*rope)) + 1,
{
    rope.len_lines()
}

/// The position at which a line of a rope starts.
///
/// Trusted: `ropey::Rope::line_to_char` returns the index of the first
/// character of the line (counted from 0), and the number of characters for
/// the line one past the last; it panics for any greater line.
#[verifier::external_body]
fn rope_line_to_char(rope: &ropey::Rope, line: usize) -> (at: usize)
    requires
        line <= line_breaks(rope_text(*rope)) + 1,
    ensures
        at == line_start(rope_text(*rope), line as nat),
{
    rope.line_to_char(line)
}

/// Removes the characters `from..to` of a rope.
///
/// Trusted: `ropey::Rope::remove` takes exactly the characters of the range
/// out; it panics where the range is reversed or ends behind the text.
#[verifier::external_body]
fn rope_remove(rope: &mut ropey::Rope, from: usize, to: usize)
    requires
        from <= to <= rope_text(*old(rope)).len(),
    ensures
        rope_text(*final(rope)) == rope_text(*old(rope)).subrange(0, from as int) + rope_text(
            *old(rope),
        ).subrange(to as int, rope_text(*old(rope)).len() as int),
{
    rope.remove(from..to)
}

/// Inserts a text into a rope before the character at `at`.
///
/// Trusted: `ropey::Rope::insert` puts the text at the index and keeps what
/// was there on both sides; it panics where the index is behind the text.
#[verifier::external_body]
fn rope_insert(rope: &mut ropey::Rope, at: usize, text: &str)
    requires
        at <= rope_text(*old(rope)).len(),
    ensures
        rope_text(*final(rope)) == rope_text(*old(rope)).subrange(0, at as int) + text@
            + rope_text(*old(rope)).subrange(at as int, rope_text(*old(rope)).len() as int),
{
    rope.insert(at, text)
}

/// The text of a rope.
///
/// Trusted: the `Display` of `ropey::Rope` writes the text that it holds.
#[verifier::external_body]
fn rope_to_string(rope: &ropey::Rope) -> (text: String)
    ensures
        text@ == rope_text(*rope),
{
    rope.to_string()
}

/// What the check of a path argument gives: the place of the file, or the
/// result of the call.
pub open spec fn checked_path(path: Option<Seq<char>>, root: Seq<char>, probe: PathProbe)
    -> Result<Seq<char>, Seq<char>> {
    match path {
        None => Err("Error: 'path' parameter is required"@),
        Some(p) => match path_verdict(p, root, probe) {
            Ok(place) => Ok(place),
            Err(e) => Err("Error: "@ + e),
        },
    }
}

/// Checks the path argument of a call: it must be given and must pass
/// [`sanitize_path`].
pub fn check_path(path: Option<&str>, root: &str, probe: PathProbe) -> (out: Result<
    String,
    String,
>)
    ensures
        verdict_view(out) == checked_path(
            match path {
                Some(p) => Some(p@),
                None => None,
            },
            root@,
            probe,
        ),
{
    match path {
        None => Err(owned("Error: 'path' parameter is required")),
        Some(p) => match sanitize_path(p, root, probe) {
            Ok(place) => Ok(place),
            Err(e) => Err(concat("Error: ", e.as_str())),
        },
    }
}

/// The result of a file that could not be read.
pub open spec fn read_failure_text(path: Seq<char>, failure: IoFailure) -> Seq<char> {
    match failure.kind {
        IoKind::NotFound => "Error: File not found: "@ + path,
        IoKind::PermissionDenied => "Error: Permission denied reading file: "@ + path,
        IoKind::Other => "Error reading file: "@ + failure.detail@,
    }
}

/// The result of a file that could not be read.
pub fn read_failure(path: &str, failure: &IoFailure) -> (text: String)
    ensures
        text@ == read_failure_text(path@, *failure),
{
    match failure.kind {
        IoKind::NotFound => concat("Error: File not found: ", path),
        IoKind::PermissionDenied => concat("Error: Permission denied reading file: ", path),
        IoKind::Other => concat("Error reading file: ", failure.detail.as_str()),
    }
}

impl ReadFile {
    /// Checks the arguments of a call.
    pub fn check(&self, path: Option<&str>, root: &str, probe: PathProbe) -> (out: Result<
        String,
        String,
    >)
        ensures
            verdict_view(out) == checked_path(
                match path {
                    Some(p) => Some(p@),
                    None => None,
                },
                root@,
                probe,
            ),
    {
        check_path(path, root, probe)
    }

    /// The result of a file that could not be read.
    pub fn failure(&self, path: &str, failure: &IoFailure) -> (text: String)
        ensures
            text@ == read_failure_text(path@, *failure),
    {
        read_failure(path, failure)
    }
}

/// What the check of the arguments of a write gives: the place of the file,
/// or the result of the call. Both arguments must be given; a missing path
/// is reported first.
pub open spec fn checked_write(
    path: Option<Seq<char>>,
    content: Option<Seq<char>>,
    root: Seq<char>,
    probe: PathProbe,
) -> Result<Seq<char>, Seq<char>> {
    if path is None {
        Err("Error: 'path' parameter is required"@)
    } else if content is None {
        Err("Error: 'content' parameter is required"@)
    } else {
        checked_path(path, root, probe)
    }
}

/// What a write that does not happen is answered with, and the result of one
/// that happened.
pub open spec fn write_result(
    path: Seq<char>,
    content: Seq<char>,
    backup: Option<Seq<char>>,
    dry_run: bool,
) -> Seq<char> {
    if dry_run {
        match backup {
            Some(b) => "Dry-run: Would write to "@ + path + " (backed up to "@ + b + "):\n"@
                + content,
            None => "Dry-run: Would write to "@ + path + ":\n"@ + content,
        }
    } else {
        match backup {
            Some(b) => "File written successfully (backed up to "@ + b + ")."@,
            None => "File written successfully."@,
        }
    }
}

impl WriteFile {
    /// Checks the arguments of a call.
    pub fn check(&self, path: Option<&str>, content: Option<&str>, root: &str, probe: PathProbe)
        -> (out: Result<String, String>)
        ensures
            verdict_view(out) == checked_write(
                match path {
                    Some(p) => Some(p@),
                    None => None,
                },
                match content {
                    Some(p) => Some(p@),
                    None => None,
                },
                root@,
                probe,
            ),
    {
        if path.is_none() {
            return Err(owned("Error: 'path' parameter is required"));
        }
        if content.is_none() {
            return Err(owned("Error: 'content' parameter is required"));
        }
        check_path(path, root, probe)
    }

    /// The question that asks the user whether the file may be written.
    pub fn question(&self, path: &str) -> (text: String)
        ensures
            text@ == "write to "@ + path@,
    {
        concat("write to ", path)
    }

    /// The result of a call that the user refused.
    pub fn refused(&self) -> (text: String)
        ensures
            text@ == "Write operation not confirmed."@,
    {
        owned("Write operation not confirmed.")
    }

    /// The result of a dry run, or of a write that happened. `backup` is the
    /// place of the backup that was made of a file that was there before.
    pub fn result(&self, path: &str, content: &str, backup: Option<&str>, dry_run: bool) -> (text:
        String)
        ensures
            text@ == write_result(
                path@,
                content@,
                match backup {
                    Some(b) => Some(b@),
                    None => None,
                },
                dry_run,
            ),
    {
        if dry_run {
            let mut out = to_chars("Dry-run: Would write to ");
            extend_str(&mut out, path);
            match backup {
                Some(b) => {
                    extend_str(&mut out, " (backed up to ");
                    extend_str(&mut out, b);
                    extend_str(&mut out, "):\n");
                },
                None => {
                    extend_str(&mut out, ":\n");
                },
            }
            extend_str(&mut out, content);
            from_chars(out.as_slice())
        } else {
            match backup {
                Some(b) => concat3("File written successfully (backed up to ", b, ")."),
                None => owned("File written successfully."),
            }
        }
    }

    /// The result of a file that could not be written.
    pub fn failure(&self, path: &str, failure: &IoFailure) -> (text: String)
        ensures
            text@ == match failure.kind {
                IoKind::PermissionDenied => "Error: Permission denied writing to file: "@ + path@,
                _ => "Error writing file: "@ + failure.detail@,
            },
    {
        match failure.kind {
            IoKind::PermissionDenied => concat(
                "Error: Permission denied writing to file: ",
                path,
            ),
            _ => concat("Error writing file: ", failure.detail.as_str()),
        }
    }
}

/// An edit that passed the check of its arguments.
#[derive(Clone, Debug)]
pub struct EditRequest {
    /// The place of the file.
    pub path: String,
    /// The first line to replace, counted from 1.
    pub start_line: u64,
    /// The last line to replace.
    pub end_line: u64,
    /// What takes the place of the lines.
    pub new_content: String,
}

/// What the check of the arguments of an edit gives, as far as it does not
/// depend on the path: nothing, or the result of the call.
pub open spec fn edit_complaint(
    path: Option<Seq<char>>,
    start_line: Option<u64>,
    end_line: Option<u64>,
    new_content: Option<Seq<char>>,
) -> Option<Seq<char>> {
    if path is None {
        Some("Error: 'path' parameter is required"@)
    } else if start_line is None {
        Some("Error: 'start_line' parameter is required and must be a number"@)
    } else if end_line is None {
        Some("Error: 'end_line' parameter is required and must be a number"@)
    } else if new_content is None {
        Some("Error: 'new_content' parameter is required"@)
    } else if start_line->0 == 0 || end_line->0 < start_line->0 {
        Some(
            "Error: Invalid line numbers. Lines are 1-indexed and end_line must be >= start_line."@,
        )
    } else {
        None
    }
}

/// The number of lines of a text as an edit counts them.
pub open spec fn edit_line_count(content: Seq<char>) -> nat {
    line_breaks(content) + 1
}

/// The text after the lines `start_line..=end_line` (counted from 1) are
/// replaced: what stands before the first of them, the new content, and what
/// stands behind the last of them. Lines behind the end of the text are not
/// there to be replaced.
pub open spec fn edited(content: Seq<char>, start_line: u64, end_line: u64, new_content: Seq<char>)
    -> Seq<char> {
    let total = edit_line_count(content);
    let from = line_start(content, (start_line - 1) as nat);
    let to = line_start(
        content,
        if end_line <= total {
            end_line as nat
        } else {
            total
        },
    );
    content.subrange(0, from as int) + new_content + content.subrange(
        to as int,
        content.len() as int,
    )
}

/// What an edit gives: the new text, or the result of the call where the
/// line numbers are no range or the first line is not in the text.
pub open spec fn edit_outcome(
    content: Seq<char>,
    start_line: u64,
    end_line: u64,
    new_content: Seq<char>,
) -> Result<Seq<char>, Seq<char>> {
    if start_line == 0 || end_line < start_line {
        Err(
            "Error: Invalid line numbers. Lines are 1-indexed and end_line must be >= start_line."@,
        )
    } else if start_line > edit_line_count(content) {
        Err(
            "Error: start_line "@ + decimal(start_line as nat)
                + " exceeds total lines in file ("@ + decimal(edit_line_count(content)) + ")"@,
        )
    } else {
        Ok(edited(content, start_line, end_line, new_content))
    }
}

impl EditFile {
    /// Checks the arguments of a call.
    pub fn check(
        &self,
        path: Option<&str>,
        start_line: Option<u64>,
        end_line: Option<u64>,
        new_content: Option<&str>,
        root: &str,
        probe: PathProbe,
    ) -> (out: Result<EditRequest, String>)
        ensures
            ({
                let p = match path {
                    Some(p) => Some(p@),
                    None => None,
                };
                let c = match new_content {
                    Some(p) => Some(p@),
                    None => None,
                };
                match edit_complaint(p, start_line, end_line, c) {
                    Some(text) => out matches Err(e) && e@ == text,
                    None => match checked_path(p, root@, probe) {
                        Ok(place) => out matches Ok(r) && r.path@ == place && r.start_line
                            == start_line->0 && r.end_line == end_line->0 && r.new_content@
                            == c->0,
                        Err(text) => out matches Err(e) && e@ == text,
                    },
                }
            }),
    {
        if path.is_none() {
            return Err(owned("Error: 'path' parameter is required"));
        }
        let start_line = match start_line {
            Some(n) => n,
            None => {
                return Err(
                    owned("Error: 'start_line' parameter is required and must be a number"),
                );
            },
        };
        let end_line = match end_line {
            Some(n) => n,
            None => {
                return Err(owned("Error: 'end_line' parameter is required and must be a number"));
            },
        };
        let new_content = match new_content {
            Some(c) => c,
            None => {
                return Err(owned("Error: 'new_content' parameter is required"));
            },
        };
        if start_line == 0 || end_line < start_line {
            return Err(
                owned(
                    "Error: Invalid line numbers. Lines are 1-indexed and end_line must be >= start_line.",
                ),
            );
        }
        match check_path(path, root, probe) {
            Ok(place) => Ok(
                EditRequest { path: place, start_line, end_line, new_content: owned(new_content) },
            ),
            Err(e) => Err(e),
        }
    }

    /// The question that asks the user whether the file may be edited.
    pub fn question(&self, path: &str) -> (text: String)
        ensures
            text@ == "edit "@ + path@,
    {
        concat("edit ", path)
    }

    /// The result of a call that the user refused.
    pub fn refused(&self) -> (text: String)
        ensures
            text@ == "Edit operation not confirmed."@,
    {
        owned("Edit operation not confirmed.")
    }

    /// What a dry run says of an edit.
    pub fn dry_run(&self, request: &EditRequest, backup: &str) -> (text: String)
        ensures
            text@ == "Dry-run: Would edit "@ + request.path@ + " lines "@ + decimal(
                request.start_line as nat,
            ) + "-"@ + decimal(request.end_line as nat) + " with:\n"@ + request.new_content@
                + " (backed up to "@ + backup@ + ")"@,
    {
        let mut out = to_chars("Dry-run: Would edit ");
        extend_str(&mut out, request.path.as_str());
        extend_str(&mut out, " lines ");
        let a = decimal_chars(request.start_line);
        extend_chars(&mut out, a.as_slice());
        extend_str(&mut out, "-");
        let b = decimal_chars(request.end_line);
        extend_chars(&mut out, b.as_slice());
        extend_str(&mut out, " with:\n");
        extend_str(&mut out, request.new_content.as_str());
        extend_str(&mut out, " (backed up to ");
        extend_str(&mut out, backup);
        extend_str(&mut out, ")");
        from_chars(out.as_slice())
    }

    /// Replaces the lines `start_line..=end_line` of a text, counted from 1,
    /// by the new content. Line numbers that are no range, and a first line
    /// behind the end of the text, are refused.
    pub fn apply(&self, content: &str, start_line: u64, end_line: u64, new_content: &str) -> (out:
        Result<String, String>)
        ensures
            verdict_view(out) == edit_outcome(content@, start_line, end_line, new_content@),
    {
        if start_line == 0 || end_line < start_line {
            return Err(
                owned(
                    "Error: Invalid line numbers. Lines are 1-indexed and end_line must be >= start_line.",
                ),
            );
        }
        let mut rope = rope_from_str(content);
        let total = rope_len_lines(&rope);
        if start_line > total as u64 {
            let mut text = to_chars("Error: start_line ");
            let a = decimal_chars(start_line);
            extend_chars(&mut text, a.as_slice());
            extend_str(&mut text, " exceeds total lines in file (");
            let b = decimal_chars(total as u64);
            extend_chars(&mut text, b.as_slice());
            extend_str(&mut text, ")");
            return Err(from_chars(text.as_slice()));
        }
        let first: usize = (start_line - 1) as usize;
        let last: usize = if end_line <= total as u64 {
            end_line as usize
        } else {
            total
        };
        proof {
            lemma_line_start(content@, first as nat, last as nat);
        }
        let from = if start_line > 1 {
            rope_line_to_char(&rope, first)
        } else {
            0
        };
        let to = rope_line_to_char(&rope, last);
        rope_remove(&mut rope, from, to);
        rope_insert(&mut rope, from, new_content);
        let text = rope_to_string(&rope);
        proof {
            let kept = content@.subrange(0, from as int) + content@.subrange(
                to as int,
                content@.len() as int,
            );
            assert(kept.subrange(0, from as int) =~= content@.subrange(0, from as int));
            assert(kept.subrange(from as int, kept.len() as int) =~= content@.subrange(
                to as int,
                content@.len() as int,
            ));
        }
        Ok(text)
    }

    /// The result of an edit that was written.
    pub fn success(&self, backup: &str) -> (text: String)
        ensures
            text@ == "File edited successfully (backed up to "@ + backup@ + ")."@,
    {
        concat3("File edited successfully (backed up to ", backup, ").")
    }
}

/// The result of a listing: the names in the order of strings, one on each
/// line.
pub open spec fn listing_of(names: Seq<Seq<char>>) -> Seq<char> {
    join(sorted(names), "\n"@)
}

impl ListFiles {
    /// The path of a call: the current directory where none is given.
    pub fn path(&self, given: Option<&str>) -> (out: String)
        ensures
            out@ == match given {
                Some(p) => p@,
                None => "."@,
            },
    {
        match given {
            Some(p) => owned(p),
            None => owned("."),
        }
    }

    /// The result of a listing.
    pub fn listing(&self, names: &Vec<String>) -> (text: String)
        ensures
            text@ == listing_of(views(names@)),
    {
        let mut all: Vec<Vec<char>> = Vec::new();
        let mut i: usize = 0;
        while i < names.len()
            invariant
                i <= names.len(),
                all@.len() == i,
                forall|k: int| 0 <= k < i ==> (#[trigger] all@[k])@ == names@[k]@,
            decreases names.len() - i,
        {
            all.push(to_chars(names[i].as_str()));
            i += 1;
        }
        assert(rows(all@) =~= views(names@));
        let ordered = sort_rows(all);
        let sep = to_chars("\n");
        let text = joined(&ordered, sep.as_slice());
        from_chars(text.as_slice())
    }

    /// The result of a directory that could not be read.
    pub fn failure(&self, path: &str, failure: &IoFailure) -> (text: String)
        ensures
            text@ == match failure.kind {
                IoKind::NotFound => "Error: Directory not found: "@ + path@,
                IoKind::PermissionDenied => "Error: Permission denied reading directory: "@
                    + path@,
                IoKind::Other => "Error listing directory: "@ + failure.detail@,
            },
    {
        match failure.kind {
            IoKind::NotFound => concat("Error: Directory not found: ", path),
            IoKind::PermissionDenied => concat(
                "Error: Permission denied reading directory: ",
                path,
            ),
            IoKind::Other => concat("Error listing directory: ", failure.detail.as_str()),
        }
    }
}

} // verus!
