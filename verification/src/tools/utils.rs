//! Checks on what a tool is asked to touch: paths, shell commands, branch
//! names, commit messages and regular expressions.

use vstd::prelude::*;
use crate::text::{
    begins_with, byte_len, concat, concat3, contains, ends_with, extend_chars, extend_str,
    finishes_with, from_chars, has, has_char, occurs_at, starts_with, to_chars, trim, trimmed,
};

verus! {

/// What the file system says of a path below a root, where it was asked.
#[derive(Clone, Copy, Debug, PartialEq, Eq, Structural)]
pub enum PathProbe {
    /// The path resolves to a place inside the resolved root.
    Inside,
    /// The path resolves to a place outside the resolved root.
    Outside,
    /// The path resolves, but the root does not.
    RootUnresolved,
    /// The path does not resolve: it does not exist yet.
    Missing,
}

/// A path below a root, as `Path::join` forms it on Unix: an absolute path
/// stands for itself; any other path follows the root, behind a `/` where
/// the root does not end in one.
pub open spec fn joined_path(root: Seq<char>, path: Seq<char>) -> Seq<char> {
    if path.len() > 0 && path[0] == '/' {
        path
    } else if root.len() == 0 || root.last() == '/' {
        root + path
    } else {
        root + seq!['/'] + path
    }
}

/// The path below the root.
pub fn join_path(root: &str, path: &str) -> (out: String)
    ensures
        out@ == joined_path(root@, path@),
{
    let r = to_chars(root);
    let p = to_chars(path);
    if p.len() > 0 && p[0] == '/' {
        return from_chars(p.as_slice());
    }
    let mut out: Vec<char> = Vec::new();
    extend_chars(&mut out, r.as_slice());
    if r.len() > 0 && r[r.len() - 1] != '/' {
        out.push('/');
    }
    extend_chars(&mut out, p.as_slice());
    assert(out@ =~= joined_path(root@, path@));
    from_chars(out.as_slice())
}

/// Whether the file system has to be asked about a path: it holds no NUL and,
/// trimmed, holds `..`.
pub open spec fn path_needs_probe(path: Seq<char>) -> bool {
    !path.contains('\0') && contains(trim(path), ".."@)
}

/// What becomes of a path that a tool is asked to touch.
///
/// A path with a NUL is refused. A path without `..` is accepted. One with
/// `..` is accepted where it resolves to a place inside the root; where it
/// does not exist yet, it is accepted unless it holds `../` or begins with
/// `..`. An accepted path is returned trimmed and below the root.
pub open spec fn path_verdict(path: Seq<char>, root: Seq<char>, probe: PathProbe) -> Result<
    Seq<char>,
    Seq<char>,
> {
    let p = trim(path);
    if path.contains('\0') {
        Err("Path contains null bytes"@)
    } else if !contains(p, ".."@) {
        Ok(joined_path(root, p))
    } else {
        match probe {
            PathProbe::Inside => Ok(joined_path(root, p)),
            PathProbe::Outside => Err(
                "Path traversal detected: path goes outside project root"@,
            ),
            PathProbe::RootUnresolved => Err(
                "Cannot validate path: unable to resolve project root"@,
            ),
            PathProbe::Missing => if contains(p, "../"@) || starts_with(p, ".."@) {
                Err("Path contains directory traversal patterns"@)
            } else {
                Ok(joined_path(root, p))
            },
        }
    }
}

/// The view of a result of strings.
pub open spec fn verdict_view(r: Result<String, String>) -> Result<Seq<char>, Seq<char>> {
    match r {
        Ok(s) => Ok(s@),
        Err(e) => Err(e@),
    }
}

/// Whether the file system has to be asked about a path before
/// [`sanitize_path`] can judge it.
pub fn needs_probe(path: &str) -> (b: bool)
    ensures
        b == path_needs_probe(path@),
{
    let chars = to_chars(path);
    if has_char(chars.as_slice(), '\0') {
        return false;
    }
    let p = trimmed(chars.as_slice());
    let dots = to_chars("..");
    has(p.as_slice(), dots.as_slice())
}

/// Judges a path that a tool is asked to touch, so that no tool leaves the
/// project. `probe` is what the file system says of the path below the root;
/// it is read only where [`needs_probe`] holds.
pub fn sanitize_path(path: &str, root: &str, probe: PathProbe) -> (out: Result<String, String>)
    ensures
        verdict_view(out) == path_verdict(path@, root@, probe),
{
    let chars = to_chars(path);
    if has_char(chars.as_slice(), '\0') {
        return Err(crate::text::owned("Path contains null bytes"));
    }
    let p = trimmed(chars.as_slice());
    let dots = to_chars("..");
    if has(p.as_slice(), dots.as_slice()) {
        match probe {
            PathProbe::Inside => {},
            PathProbe::Outside => {
                return Err(
                    crate::text::owned("Path traversal detected: path goes outside project root"),
                );
            },
            PathProbe::RootUnresolved => {
                return Err(crate::text::owned("Cannot validate path: unable to resolve project root"));
            },
            PathProbe::Missing => {
                let up = to_chars("../");
                if has(p.as_slice(), up.as_slice()) || begins_with(p.as_slice(), dots.as_slice()) {
                    return Err(crate::text::owned("Path contains directory traversal patterns"));
                }
            },
        }
    }
    let text = from_chars(p.as_slice());
    Ok(join_path(root, text.as_str()))
}

/// The patterns that no command may hold, each with what it would do.
pub open spec fn dangerous_patterns() -> Seq<(Seq<char>, Seq<char>)> {
    seq![
        ("rm -rf /"@, "Deleting root filesystem"@),
        ("rm -rf /*"@, "Deleting everything in root"@),
        ("rm -rf ~"@, "Deleting home directory"@),
        ("rm -rf *"@, "Deleting everything in current directory"@),
        ("chmod -R 777 /"@, "Making entire filesystem world-writable"@),
        ("chmod 000 /"@, "Making root inaccessible"@),
        ("dd if=/dev/zero of=/"@, "Overwriting disk with zeros"@),
        ("dd if=/dev/random of=/"@, "Overwriting disk with random data"@),
        ("mkfs."@, "Formatting filesystem"@),
        (":(){ :|:& };:"@, "Fork bomb"@),
        (":(){:|:&};:"@, "Fork bomb (no spaces)"@),
        ("fork while fork"@, "Fork bomb variant"@),
        ("nc -l"@, "Opening network listener (potential backdoor)"@),
        ("> /etc/passwd"@, "Overwriting password file"@),
        ("> /etc/shadow"@, "Overwriting shadow password file"@),
        ("echo > /proc/sys"@, "Modifying kernel parameters"@),
    ]
}

fn danger_list() -> (out: Vec<(&'static str, &'static str)>)
    ensures
        out@.len() == dangerous_patterns().len(),
        forall|i: int|
            0 <= i < out@.len() ==> (#[trigger] out@[i]).0@ == dangerous_patterns()[i].0
                && out@[i].1@ == dangerous_patterns()[i].1,
{
    let mut out: Vec<(&'static str, &'static str)> = Vec::new();
    out.push(("rm -rf /", "Deleting root filesystem"));
    out.push(("rm -rf /*", "Deleting everything in root"));
    out.push(("rm -rf ~", "Deleting home directory"));
    out.push(("rm -rf *", "Deleting everything in current directory"));
    out.push(("chmod -R 777 /", "Making entire filesystem world-writable"));
    out.push(("chmod 000 /", "Making root inaccessible"));
    out.push(("dd if=/dev/zero of=/", "Overwriting disk with zeros"));
    out.push(("dd if=/dev/random of=/", "Overwriting disk with random data"));
    out.push(("mkfs.", "Formatting filesystem"));
    out.push((":(){ :|:& };:", "Fork bomb"));
    out.push((":(){:|:&};:", "Fork bomb (no spaces)"));
    out.push(("fork while fork", "Fork bomb variant"));
    out.push(("nc -l", "Opening network listener (potential backdoor)"));
    out.push(("> /etc/passwd", "Overwriting password file"));
    out.push(("> /etc/shadow", "Overwriting shadow password file"));
    out.push(("echo > /proc/sys", "Modifying kernel parameters"));
    out
}

/// The position of the first pattern of the list, from `from` on, that the
/// command holds; the length of the list if it holds none.
pub open spec fn first_danger(command: Seq<char>, from: int) -> int
    decreases dangerous_patterns().len() - from,
{
    if from < 0 || from >= dangerous_patterns().len() {
        dangerous_patterns().len() as int
    } else if contains(command, dangerous_patterns()[from].0) {
        from
    } else {
        first_danger(command, from + 1)
    }
}

/// What becomes of a shell command: it is refused where it is blank or holds
/// a dangerous pattern (the first of the list is named), and accepted,
/// trimmed, otherwise.
pub open spec fn command_verdict(command: Seq<char>) -> Result<Seq<char>, Seq<char>> {
    let c = trim(command);
    let d = first_danger(c, 0);
    if c.len() == 0 {
        Err("Command cannot be empty"@)
    } else if d < dangerous_patterns().len() {
        Err(
            "Dangerous command pattern detected: "@ + dangerous_patterns()[d].0 + " - "@
                + dangerous_patterns()[d].1,
        )
    } else {
        Ok(c)
    }
}

/// A pattern that stands in a part of a command stands in the command: no
/// link of a chain of commands hides a pattern from the check of the whole.
pub proof fn lemma_part_holds_pattern(
    command: Seq<char>,
    from: int,
    to: int,
    pattern: Seq<char>,
)
    requires
        0 <= from <= to <= command.len(),
        contains(command.subrange(from, to), pattern),
    ensures
        contains(command, pattern),
{
    let part = command.subrange(from, to);
    let i = choose|i: int| occurs_at(part, pattern, i);
    assert(command.subrange(from + i, from + i + pattern.len()) =~= part.subrange(
        i,
        i + pattern.len(),
    ));
    assert(occurs_at(command, pattern, from + i));
}

/// Judges a shell command before it runs.
pub fn sanitize_shell_command(command: &str) -> (out: Result<String, String>)
    ensures
        verdict_view(out) == command_verdict(command@),
{
    let chars = to_chars(command);
    let c = trimmed(chars.as_slice());
    if c.len() == 0 {
        return Err(crate::text::owned("Command cannot be empty"));
    }
    let list = danger_list();
    let mut i: usize = 0;
    while i < list.len()
        invariant
            i <= list.len(),
            list@.len() == dangerous_patterns().len(),
            forall|k: int|
                0 <= k < list@.len() ==> (#[trigger] list@[k]).0@ == dangerous_patterns()[k].0
                    && list@[k].1@ == dangerous_patterns()[k].1,
            first_danger(c@, 0) == first_danger(c@, i as int),
            c@ == trim(command@),
            c@.len() > 0,
        decreases list.len() - i,
    {
        let pattern = to_chars(list[i].0);
        assert(list@[i as int].0@ == dangerous_patterns()[i as int].0);
        assert(list@[i as int].1@ == dangerous_patterns()[i as int].1);
        if has(c.as_slice(), pattern.as_slice()) {
            let mut text = to_chars("Dangerous command pattern detected: ");
            extend_chars(&mut text, pattern.as_slice());
            extend_str(&mut text, " - ");
            extend_str(&mut text, list[i].1);
            assert(first_danger(c@, i as int) == i);
            assert(text@ == "Dangerous command pattern detected: "@ + dangerous_patterns()[i as int].0
                + " - "@ + dangerous_patterns()[i as int].1);
            return Err(from_chars(text.as_slice()));
        }
        i += 1;
    }
    Ok(from_chars(c.as_slice()))
}

/// The texts that no branch name may hold.
pub open spec fn branch_forbidden() -> Seq<Seq<char>> {
    seq![" "@, "~"@, "^"@, ":"@, "?"@, "*"@, "["@, "\\"@, ".."@, "@{"@]
}

fn forbidden_list() -> (out: Vec<&'static str>)
    ensures
        out@.len() == branch_forbidden().len(),
        forall|i: int| 0 <= i < out@.len() ==> (#[trigger] out@[i])@ == branch_forbidden()[i],
{
    let mut out: Vec<&'static str> = Vec::new();
    out.push(" ");
    out.push("~");
    out.push("^");
    out.push(":");
    out.push("?");
    out.push("*");
    out.push("[");
    out.push("\\");
    out.push("..");
    out.push("@{");
    out
}

/// The position of the first forbidden text, from `from` on, that the name
/// holds; the length of the list if it holds none.
pub open spec fn first_forbidden(name: Seq<char>, from: int) -> int
    decreases branch_forbidden().len() - from,
{
    if from < 0 || from >= branch_forbidden().len() {
        branch_forbidden().len() as int
    } else if contains(name, branch_forbidden()[from]) {
        from
    } else {
        first_forbidden(name, from + 1)
    }
}

/// What becomes of a branch name, by the rules of git: it is not blank, does
/// not begin with `-`, holds none of the forbidden texts, does not end in
/// `/` or `.lock`, and is not `.`. An accepted name is returned trimmed.
pub open spec fn branch_verdict(name: Seq<char>) -> Result<Seq<char>, Seq<char>> {
    let n = trim(name);
    let f = first_forbidden(n, 0);
    if n.len() == 0 {
        Err("Branch name cannot be empty"@)
    } else if n[0] == '-' {
        Err("Branch name cannot start with '-'"@)
    } else if f < branch_forbidden().len() {
        Err("Branch name cannot contain '"@ + branch_forbidden()[f] + "'"@)
    } else if n.last() == '/' {
        Err("Branch name cannot end with '/'"@)
    } else if ends_with(n, ".lock"@) {
        Err("Branch name cannot end with '.lock'"@)
    } else if n == "."@ {
        Err("Branch name cannot be '.' or '..'"@)
    } else {
        Ok(n)
    }
}

/// Judges the name of a git branch.
pub fn sanitize_git_branch_name(name: &str) -> (out: Result<String, String>)
    ensures
        verdict_view(out) == branch_verdict(name@),
{
    let chars = to_chars(name);
    let n = trimmed(chars.as_slice());
    if n.len() == 0 {
        return Err(crate::text::owned("Branch name cannot be empty"));
    }
    if n[0] == '-' {
        return Err(crate::text::owned("Branch name cannot start with '-'"));
    }
    let list = forbidden_list();
    let mut i: usize = 0;
    while i < list.len()
        invariant
            i <= list.len(),
            list@.len() == branch_forbidden().len(),
            forall|k: int| 0 <= k < list@.len() ==> (#[trigger] list@[k])@ == branch_forbidden()[k],
            first_forbidden(n@, 0) == first_forbidden(n@, i as int),
            n@ == trim(name@),
            n@.len() > 0,
            n@[0] != '-',
        decreases list.len() - i,
    {
        let pattern = to_chars(list[i]);
        assert(list@[i as int]@ == branch_forbidden()[i as int]);
        if has(n.as_slice(), pattern.as_slice()) {
            assert(first_forbidden(n@, i as int) == i);
            return Err(concat3("Branch name cannot contain '", list[i], "'"));
        }
        i += 1;
    }
    if n[n.len() - 1] == '/' {
        return Err(crate::text::owned("Branch name cannot end with '/'"));
    }
    let lock = to_chars(".lock");
    if finishes_with(n.as_slice(), lock.as_slice()) {
        return Err(crate::text::owned("Branch name cannot end with '.lock'"));
    }
    let dot = to_chars(".");
    if crate::text::same_chars(n.as_slice(), dot.as_slice()) {
        return Err(crate::text::owned("Branch name cannot be '.' or '..'"));
    }
    Ok(from_chars(n.as_slice()))
}

/// The greatest number of bytes of a commit message.
pub const MAX_COMMIT_MESSAGE_LENGTH: usize = 1000;

/// What becomes of a commit message: it is not blank, holds no NUL, and has
/// at most 1000 bytes. An accepted message is returned trimmed.
pub open spec fn commit_verdict(message: Seq<char>) -> Result<Seq<char>, Seq<char>> {
    let m = trim(message);
    if m.len() == 0 {
        Err("Commit message cannot be empty"@)
    } else if m.contains('\0') {
        Err("Commit message contains null bytes"@)
    } else if byte_len(m) > MAX_COMMIT_MESSAGE_LENGTH {
        Err("Commit message too long (max 1000 characters)"@)
    } else {
        Ok(m)
    }
}

/// Judges a commit message.
pub fn sanitize_commit_message(message: &str) -> (out: Result<String, String>)
    ensures
        verdict_view(out) == commit_verdict(message@),
{
    let chars = to_chars(message);
    let m = trimmed(chars.as_slice());
    if m.len() == 0 {
        return Err(crate::text::owned("Commit message cannot be empty"));
    }
    if has_char(m.as_slice(), '\0') {
        return Err(crate::text::owned("Commit message contains null bytes"));
    }
    let text = from_chars(m.as_slice());
    if crate::text::byte_length(text.as_str()) > MAX_COMMIT_MESSAGE_LENGTH {
        return Err(crate::text::owned("Commit message too long (max 1000 characters)"));
    }
    Ok(text)
}

/// The message with which the regular-expression engine refuses a pattern;
/// nothing for a pattern that it accepts.
pub uninterp spec fn spec_regex_error(pattern: Seq<char>) -> Option<Seq<char>>;

/// Compiles a pattern and returns the engine's complaint, if it has one.
///
/// Trusted: `regex::Regex::new` accepts or refuses a pattern by the pattern
/// alone, and the text of its error depends on nothing else.
#[verifier::external_body]
fn regex_error(pattern: &str) -> (out: Option<String>)
    ensures
        out.deep_view() == spec_regex_error(pattern@),
{
    match regex::Regex::new(pattern) {
        Ok(_) => None,
        Err(e) => Some(e.to_string()),
    }
}

/// What becomes of a pattern, given the engine's complaint about it.
pub open spec fn pattern_verdict(pattern: Seq<char>, complaint: Option<Seq<char>>) -> Result<
    Seq<char>,
    Seq<char>,
> {
    match complaint {
        None => Ok(pattern),
        Some(e) => Err("Invalid regex pattern: "@ + e),
    }
}

/// Judges a pattern from what the engine said of it: a pattern without a
/// complaint is accepted as it is, any other is refused with the complaint.
pub fn judge_pattern(pattern: &str, complaint: Option<String>) -> (out: Result<String, String>)
    ensures
        verdict_view(out) == pattern_verdict(pattern@, complaint.deep_view()),
{
    match complaint {
        None => Ok(crate::text::owned(pattern)),
        Some(e) => Err(concat("Invalid regex pattern: ", e.as_str())),
    }
}

/// Judges a regular expression: it is accepted exactly where the engine
/// compiles it.
pub fn sanitize_regex_pattern(pattern: &str) -> (out: Result<String, String>)
    ensures
        verdict_view(out) == pattern_verdict(pattern@, spec_regex_error(pattern@)),
{
    let complaint = regex_error(pattern);
    judge_pattern(pattern, complaint)
}

} // verus!
