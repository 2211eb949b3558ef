//! The tool that resolves merge conflicts: how the conflicts of a file are
//! found, how each is resolved by a strategy, and what the file becomes.

use vstd::prelude::*;
use crate::text::{
    begins_with, blank, byte_len, byte_length, concat3, contains, decimal, decimal_chars,
    dedup_rows, deduplicated, extend_chars, extend_str, from_chars, has, is_blank, join, joined,
    lines, owned, parse_u32, parsed_u32, replace_all, replaced, rows, same_str, sort_rows, sorted,
    split_lines, starts_with, to_chars, trim, trimmed,
};
use crate::tools::builtin::ResolveMergeConflict;

verus! {

/// The groups of every match of a pattern in a text, from left to right: for
/// each match the text of the whole match and of each group, nothing for a
/// group that took no part. Nothing at all for a pattern that does not
/// compile.
pub uninterp spec fn spec_regex_captures(pattern: Seq<char>, text: Seq<char>) -> Seq<
    Seq<Option<Seq<char>>>,
>;

/// The groups of every match of a pattern in a text.
///
/// Trusted: `regex::Regex::new` and `Regex::captures_iter` find the matches
/// of a pattern in a text by the pattern and the text alone.
#[verifier::external_body]
fn regex_captures(pattern: &str, text: &str) -> (out: Vec<Vec<Option<String>>>)
    ensures
        out.deep_view() == spec_regex_captures(pattern@, text@),
{
    match regex::Regex::new(pattern) {
        Ok(re) => re.captures_iter(text).map(
            |c| c.iter().map(|g| g.map(|m| m.as_str().to_string())).collect(),
        ).collect(),
        Err(_) => Vec::new(),
    }
}

/// The pattern of a conflict: the marker of our side with its branch, our
/// text, the divider, their text, and the marker of their side with its
/// branch.
pub const CONFLICT_PATTERN: &'static str =
    "(?s)<<<<<<< ([^\\n]+)\\n(.*?)\\n=======\\n(.*?)\\n>>>>>>> ([^\\n]+)";

/// The pattern of a version number: three numbers between dots.
pub const VERSION_PATTERN: &'static str = "(\\d+)\\.(\\d+)\\.(\\d+)";

/// One conflict of a file.
#[derive(Clone, Debug)]
pub struct MergeConflict {
    /// The whole conflict, markers included.
    pub full_match: String,
    /// The branch of our side.
    pub ours_branch: String,
    /// The text of our side.
    pub ours_content: String,
    /// The branch of their side.
    pub theirs_branch: String,
    /// The text of their side.
    pub theirs_content: String,
}

/// A conflict as contracts see it.
pub struct ConflictView {
    pub full_match: Seq<char>,
    pub ours_branch: Seq<char>,
    pub ours_content: Seq<char>,
    pub theirs_branch: Seq<char>,
    pub theirs_content: Seq<char>,
}

impl View for MergeConflict {
    type V = ConflictView;

    open spec fn view(&self) -> ConflictView {
        ConflictView {
            full_match: self.full_match@,
            ours_branch: self.ours_branch@,
            ours_content: self.ours_content@,
            theirs_branch: self.theirs_branch@,
            theirs_content: self.theirs_content@,
        }
    }
}

/// The views of a list of conflicts.
pub open spec fn conflict_views(items: Seq<MergeConflict>) -> Seq<ConflictView> {
    items.map_values(|c: MergeConflict| c@)
}

/// The text of a group of a match, empty where the match has no such group.
pub open spec fn group(m: Seq<Option<Seq<char>>>, at: int) -> Seq<char> {
    if 0 <= at < m.len() && m[at] is Some {
        m[at]->0
    } else {
        Seq::empty()
    }
}

/// The conflict that a match of the conflict pattern stands for.
pub open spec fn conflict_of(m: Seq<Option<Seq<char>>>) -> ConflictView {
    ConflictView {
        full_match: group(m, 0),
        ours_branch: group(m, 1),
        ours_content: group(m, 2),
        theirs_branch: group(m, 4),
        theirs_content: group(m, 3),
    }
}

/// The conflicts of a file, in order.
pub open spec fn conflicts_of(content: Seq<char>) -> Seq<ConflictView> {
    spec_regex_captures(CONFLICT_PATTERN@, content).map_values(
        |m: Seq<Option<Seq<char>>>| conflict_of(m),
    )
}

/// The number of a group of a match; 0 where it is no number that fits.
pub open spec fn group_number(m: Seq<Option<Seq<char>>>, at: int) -> u32 {
    match parsed_u32(group(m, at)) {
        Some(n) => n,
        None => 0,
    }
}

/// The first version number that the matches of the version pattern name.
pub open spec fn version_of(matches: Seq<Seq<Option<Seq<char>>>>) -> Option<(u32, u32, u32)> {
    if matches.len() == 0 {
        None
    } else {
        Some((group_number(matches[0], 1), group_number(matches[0], 2), group_number(matches[0], 3)))
    }
}

/// The first version number in a text.
pub open spec fn spec_version(text: Seq<char>) -> Option<(u32, u32, u32)> {
    version_of(spec_regex_captures(VERSION_PATTERN@, text))
}

/// One version is higher than another.
pub open spec fn version_greater(a: (u32, u32, u32), b: (u32, u32, u32)) -> bool {
    a.0 > b.0 || (a.0 == b.0 && (a.1 > b.1 || (a.1 == b.1 && a.2 > b.2)))
}

/// A text holds import statements.
pub open spec fn has_imports(text: Seq<char>) -> bool {
    contains(text, "import "@) || contains(text, "use "@)
}

/// The lines of both sides, in order and each once.
pub open spec fn merged_imports(ours: Seq<char>, theirs: Seq<char>) -> Seq<char> {
    join(deduplicated(sorted(lines(ours) + lines(theirs))), "\n"@)
}

/// A line is a comment: trimmed, it begins with `//` or `#`.
pub open spec fn is_comment(line: Seq<char>) -> bool {
    starts_with(trim(line), "//"@) || starts_with(trim(line), "#"@)
}

/// The number of comments among lines.
pub open spec fn comment_count(all: Seq<Seq<char>>) -> nat
    decreases all.len(),
{
    if all.len() == 0 {
        0
    } else {
        comment_count(all.drop_last()) + if is_comment(all.last()) {
            1nat
        } else {
            0nat
        }
    }
}

/// Both sides, each under a marker that names its branch.
pub open spec fn kept_both(c: ConflictView) -> Seq<char> {
    "// AUTO-MERGED: Kept both versions\n// === Original ("@ + c.ours_branch + "): ===\n"@
        + c.ours_content + "\n// === Alternative ("@ + c.theirs_branch + "): ===\n"@
        + c.theirs_content
}

/// How a conflict is resolved by its content, given the version numbers that
/// the two sides name: the resolved text and the reason.
///
/// The side that is not blank wins over a blank one; equal sides are one;
/// import statements of both sides are merged; the higher version number
/// wins; the side with more than twice the comments wins; the side with more
/// than twice the bytes wins; otherwise both sides are kept under markers.
pub open spec fn auto_resolution(
    c: ConflictView,
    ours_version: Option<(u32, u32, u32)>,
    theirs_version: Option<(u32, u32, u32)>,
) -> (Seq<char>, Seq<char>) {
    let ours = c.ours_content;
    let theirs = c.theirs_content;
    let ours_comments = comment_count(lines(ours));
    let theirs_comments = comment_count(lines(theirs));
    if is_blank(ours) && !is_blank(theirs) {
        (theirs, "Chose non-empty version (theirs)"@)
    } else if is_blank(theirs) && !is_blank(ours) {
        (ours, "Chose non-empty version (ours)"@)
    } else if ours == theirs {
        (ours, "Both versions identical"@)
    } else if has_imports(ours) && has_imports(theirs) {
        (merged_imports(ours, theirs), "Merged import statements"@)
    } else if ours_version is Some && theirs_version is Some {
        if version_greater(ours_version->0, theirs_version->0) {
            (ours, "Chose higher version number (ours)"@)
        } else {
            (theirs, "Chose higher version number (theirs)"@)
        }
    } else if ours_comments > theirs_comments * 2 {
        (ours, "Chose version with more comments (ours)"@)
    } else if theirs_comments > ours_comments * 2 {
        (theirs, "Chose version with more comments (theirs)"@)
    } else if byte_len(ours) > byte_len(theirs) * 2 {
        (ours, "Chose more complete implementation (ours)"@)
    } else if byte_len(theirs) > byte_len(ours) * 2 {
        (theirs, "Chose more complete implementation (theirs)"@)
    } else {
        (kept_both(c), "Kept both versions with markers"@)
    }
}

fn group_text(m: &Vec<Option<String>>, at: usize) -> (out: String)
    ensures
        out@ == group(m.deep_view(), at as int),
{
    if at < m.len() {
        assert(m.deep_view()[at as int] == m@[at as int].deep_view());
        match &m[at] {
            Some(t) => t.clone(),
            None => String::new(),
        }
    } else {
        String::new()
    }
}

fn group_value(m: &Vec<Option<String>>, at: usize) -> (out: u32)
    ensures
        out == group_number(m.deep_view(), at as int),
{
    let text = group_text(m, at);
    let chars = to_chars(text.as_str());
    match parse_u32(chars.as_slice()) {
        Some(n) => n,
        None => 0,
    }
}

/// The first version number in a text.
pub fn first_version(text: &str) -> (out: Option<(u32, u32, u32)>)
    ensures
        out == spec_version(text@),
{
    let matches = regex_captures(VERSION_PATTERN, text);
    if matches.len() == 0 {
        None
    } else {
        assert(matches.deep_view()[0] == matches@[0].deep_view());
        let m = &matches[0];
        Some((group_value(m, 1), group_value(m, 2), group_value(m, 3)))
    }
}

fn count_comments(all: &Vec<Vec<char>>) -> (n: usize)
    ensures
        n == comment_count(rows(all@)),
{
    let slashes = to_chars("//");
    let hash = to_chars("#");
    let mut n: usize = 0;
    let ghost list = rows(all@);
    let mut i: usize = 0;
    assert(list.take(0) =~= Seq::<Seq<char>>::empty());
    while i < all.len()
        invariant
            i <= all.len(),
            list == rows(all@),
            n <= i,
            n == comment_count(list.take(i as int)),
            slashes@ == "//"@,
            hash@ == "#"@,
        decreases all.len() - i,
    {
        proof {
            let next = list.take(i + 1);
            assert(next.drop_last() =~= list.take(i as int));
            assert(next.last() == all@[i as int]@);
        }
        let t = trimmed(all[i].as_slice());
        if begins_with(t.as_slice(), slashes.as_slice()) || begins_with(
            t.as_slice(),
            hash.as_slice(),
        ) {
            n += 1;
        }
        i += 1;
    }
    assert(list.take(all.len() as int) =~= list);
    n
}

fn concat_rows(a: Vec<Vec<char>>, b: Vec<Vec<char>>) -> (out: Vec<Vec<char>>)
    ensures
        rows(out@) == rows(a@) + rows(b@),
{
    let mut out = a;
    let mut b = b;
    let ghost x = rows(out@);
    let ghost y = rows(b@);
    out.append(&mut b);
    assert(rows(out@) =~= x + y);
    out
}

/// Resolves a conflict by its content, given the version numbers that the
/// two sides name. See [`auto_resolution`].
pub fn resolve_by_content(
    conflict: &MergeConflict,
    ours_version: Option<(u32, u32, u32)>,
    theirs_version: Option<(u32, u32, u32)>,
) -> (out: (String, String))
    ensures
        (out.0@, out.1@) == auto_resolution(conflict@, ours_version, theirs_version),
{
    let ours = to_chars(conflict.ours_content.as_str());
    let theirs = to_chars(conflict.theirs_content.as_str());
    let ours_blank = blank(ours.as_slice());
    let theirs_blank = blank(theirs.as_slice());
    if ours_blank && !theirs_blank {
        return (conflict.theirs_content.clone(), owned("Chose non-empty version (theirs)"));
    }
    if theirs_blank && !ours_blank {
        return (conflict.ours_content.clone(), owned("Chose non-empty version (ours)"));
    }
    if crate::text::same_chars(ours.as_slice(), theirs.as_slice()) {
        return (conflict.ours_content.clone(), owned("Both versions identical"));
    }
    let import = to_chars("import ");
    let uses = to_chars("use ");
    if (has(ours.as_slice(), import.as_slice()) || has(ours.as_slice(), uses.as_slice())) && (has(
        theirs.as_slice(),
        import.as_slice(),
    ) || has(theirs.as_slice(), uses.as_slice())) {
        let all = concat_rows(split_lines(ours.as_slice()), split_lines(theirs.as_slice()));
        let ordered = sort_rows(all);
        let unique = dedup_rows(&ordered);
        let sep = to_chars("\n");
        let merged = joined(&unique, sep.as_slice());
        return (from_chars(merged.as_slice()), owned("Merged import statements"));
    }
    match (ours_version, theirs_version) {
        (Some(a), Some(b)) => {
            if a.0 > b.0 || (a.0 == b.0 && (a.1 > b.1 || (a.1 == b.1 && a.2 > b.2))) {
                return (
                    conflict.ours_content.clone(),
                    owned("Chose higher version number (ours)"),
                );
            } else {
                return (
                    conflict.theirs_content.clone(),
                    owned("Chose higher version number (theirs)"),
                );
            }
        },
        _ => {},
    }
    let ours_comments = count_comments(&split_lines(ours.as_slice())) as u128;
    let theirs_comments = count_comments(&split_lines(theirs.as_slice())) as u128;
    if ours_comments > theirs_comments * 2 {
        return (conflict.ours_content.clone(), owned("Chose version with more comments (ours)"));
    }
    if theirs_comments > ours_comments * 2 {
        return (
            conflict.theirs_content.clone(),
            owned("Chose version with more comments (theirs)"),
        );
    }
    let ours_size = byte_length(conflict.ours_content.as_str()) as u128;
    let theirs_size = byte_length(conflict.theirs_content.as_str()) as u128;
    if ours_size > theirs_size * 2 {
        return (conflict.ours_content.clone(), owned("Chose more complete implementation (ours)"));
    }
    if theirs_size > ours_size * 2 {
        return (
            conflict.theirs_content.clone(),
            owned("Chose more complete implementation (theirs)"),
        );
    }
    let mut both = to_chars("// AUTO-MERGED: Kept both versions\n// === Original (");
    extend_str(&mut both, conflict.ours_branch.as_str());
    extend_str(&mut both, "): ===\n");
    extend_chars(&mut both, ours.as_slice());
    extend_str(&mut both, "\n// === Alternative (");
    extend_str(&mut both, conflict.theirs_branch.as_str());
    extend_str(&mut both, "): ===\n");
    extend_chars(&mut both, theirs.as_slice());
    (from_chars(both.as_slice()), owned("Kept both versions with markers"))
}

/// How a conflict is resolved by its content.
pub open spec fn spec_auto_resolve(c: ConflictView) -> (Seq<char>, Seq<char>) {
    auto_resolution(c, spec_version(c.ours_content), spec_version(c.theirs_content))
}

/// Resolves a conflict by its content: the resolved text and the reason.
pub fn auto_resolve_conflict(conflict: &MergeConflict) -> (out: (String, String))
    ensures
        (out.0@, out.1@) == spec_auto_resolve(conflict@),
{
    let ours_version = first_version(conflict.ours_content.as_str());
    let theirs_version = first_version(conflict.theirs_content.as_str());
    resolve_by_content(conflict, ours_version, theirs_version)
}

/// What takes the place of a conflict under a strategy: our side, their
/// side, both, or what the content suggests. Nothing for any other strategy.
pub open spec fn replacement(strategy: Seq<char>, c: ConflictView) -> Option<Seq<char>> {
    if strategy == "ours"@ {
        Some(c.ours_content)
    } else if strategy == "theirs"@ {
        Some(c.theirs_content)
    } else if strategy == "both"@ {
        Some(c.ours_content + "\n"@ + c.theirs_content)
    } else if strategy == "auto"@ {
        Some(spec_auto_resolve(c).0)
    } else {
        None
    }
}

/// The content with each conflict, in order, replaced under the strategy.
pub open spec fn resolved_content(
    content: Seq<char>,
    conflicts: Seq<ConflictView>,
    strategy: Seq<char>,
) -> Seq<char>
    decreases conflicts.len(),
{
    if conflicts.len() == 0 {
        content
    } else {
        let c = conflicts.last();
        replaced(
            resolved_content(content, conflicts.drop_last(), strategy),
            c.full_match,
            match replacement(strategy, c) {
                Some(r) => r,
                None => Seq::empty(),
            },
        )
    }
}

/// The strategy is one that resolves.
pub open spec fn is_strategy(strategy: Seq<char>) -> bool {
    strategy == "ours"@ || strategy == "theirs"@ || strategy == "both"@ || strategy == "auto"@
}

/// What a dry run says of one conflict.
pub open spec fn preview_line(strategy: Seq<char>, c: ConflictView, number: nat) -> Seq<char> {
    "Conflict #"@ + decimal(number) + ": "@ + c.ours_branch + " vs "@ + c.theirs_branch + "\n"@
        + if strategy == "ours"@ {
        "  → Would keep our version\n"@
    } else if strategy == "theirs"@ {
        "  → Would keep their version\n"@
    } else if strategy == "both"@ {
        "  → Would keep both versions\n"@
    } else if strategy == "auto"@ {
        "  → Auto-resolution: "@ + spec_auto_resolve(c).1 + "\n"@
    } else {
        "  → Would require manual resolution\n"@
    }
}

/// What a dry run says of the conflicts.
pub open spec fn preview_lines(strategy: Seq<char>, conflicts: Seq<ConflictView>) -> Seq<char>
    decreases conflicts.len(),
{
    if conflicts.len() == 0 {
        seq![]
    } else {
        preview_lines(strategy, conflicts.drop_last()) + preview_line(
            strategy,
            conflicts.last(),
            conflicts.len(),
        )
    }
}

/// What a dry run says.
pub open spec fn preview(path: Seq<char>, strategy: Seq<char>, conflicts: Seq<ConflictView>)
    -> Seq<char> {
    "Dry-run: Found "@ + decimal(conflicts.len()) + " conflict(s) in "@ + path
        + "\nWould resolve using '"@ + strategy + "' strategy:\n\n"@ + preview_lines(
        strategy,
        conflicts,
    )
}

/// What to do with a file that was read.
#[derive(Clone, Debug)]
pub enum MergePlan {
    /// Change nothing and return this text.
    Answer(String),
    /// Back the file up, write this content, and report the number of
    /// conflicts that were resolved.
    Write { content: String, conflicts: usize },
}

/// A plan as contracts see it.
pub enum MergePlanView {
    Answer(Seq<char>),
    Write { content: Seq<char>, conflicts: nat },
}

impl View for MergePlan {
    type V = MergePlanView;

    open spec fn view(&self) -> MergePlanView {
        match self {
            MergePlan::Answer(t) => MergePlanView::Answer(t@),
            MergePlan::Write { content, conflicts } => MergePlanView::Write {
                content: content@,
                conflicts: *conflicts as nat,
            },
        }
    }
}

/// What to do with a file, given its conflicts.
///
/// A file without conflicts is left alone. A dry run says what would be
/// done. A strategy that is none is refused. Else the conflicts are resolved.
pub open spec fn merge_plan(
    content: Seq<char>,
    conflicts: Seq<ConflictView>,
    path: Seq<char>,
    strategy: Seq<char>,
    dry_run: bool,
) -> MergePlanView {
    if conflicts.len() == 0 {
        MergePlanView::Answer("No merge conflicts found in the file."@)
    } else if dry_run {
        MergePlanView::Answer(preview(path, strategy, conflicts))
    } else if !is_strategy(strategy) {
        MergePlanView::Answer(
            "Unknown strategy '"@ + strategy + "'. Use 'ours', 'theirs', 'both', or 'auto'."@,
        )
    } else {
        MergePlanView::Write {
            content: resolved_content(content, conflicts, strategy),
            conflicts: conflicts.len(),
        }
    }
}

fn preview_entry(strategy: &str, c: &MergeConflict, number: usize) -> (out: Vec<char>)
    ensures
        out@ == preview_line(strategy@, c@, number as nat),
{
    let mut out = to_chars("Conflict #");
    let digits = decimal_chars(number as u64);
    extend_chars(&mut out, digits.as_slice());
    extend_str(&mut out, ": ");
    extend_str(&mut out, c.ours_branch.as_str());
    extend_str(&mut out, " vs ");
    extend_str(&mut out, c.theirs_branch.as_str());
    extend_str(&mut out, "\n");
    if same_str(strategy, "ours") {
        extend_str(&mut out, "  → Would keep our version\n");
    } else if same_str(strategy, "theirs") {
        extend_str(&mut out, "  → Would keep their version\n");
    } else if same_str(strategy, "both") {
        extend_str(&mut out, "  → Would keep both versions\n");
    } else if same_str(strategy, "auto") {
        let resolution = auto_resolve_conflict(c);
        let mut line = to_chars("  → Auto-resolution: ");
        extend_str(&mut line, resolution.1.as_str());
        extend_str(&mut line, "\n");
        extend_chars(&mut out, line.as_slice());
    } else {
        extend_str(&mut out, "  → Would require manual resolution\n");
    }
    out
}

impl ResolveMergeConflict {
    /// The strategy of a call: `auto` where none is given.
    pub fn strategy(&self, given: Option<&str>) -> (out: String)
        ensures
            out@ == match given {
                Some(s) => s@,
                None => "auto"@,
            },
    {
        match given {
            Some(s) => owned(s),
            None => owned("auto"),
        }
    }

    /// The question that asks the user whether the file may be changed.
    pub fn question(&self, path: &str, strategy: &str) -> (text: String)
        ensures
            text@ == "resolve merge conflicts in "@ + path@ + " using '"@ + strategy@
                + "' strategy"@,
    {
        let head = concat3("resolve merge conflicts in ", path, " using '");
        concat3(head.as_str(), strategy, "' strategy")
    }

    /// The conflicts of a file, in order.
    pub fn conflicts(&self, content: &str) -> (out: Vec<MergeConflict>)
        ensures
            conflict_views(out@) == conflicts_of(content@),
    {
        let matches = regex_captures(CONFLICT_PATTERN, content);
        let mut out: Vec<MergeConflict> = Vec::new();
        let mut i: usize = 0;
        while i < matches.len()
            invariant
                i <= matches.len(),
                out@.len() == i,
                matches.deep_view() == spec_regex_captures(CONFLICT_PATTERN@, content@),
                forall|k: int|
                    0 <= k < i ==> (#[trigger] out@[k])@ == conflict_of(matches.deep_view()[k]),
            decreases matches.len() - i,
        {
            let m = &matches[i];
            assert(matches.deep_view()[i as int] == m.deep_view());
            out.push(
                MergeConflict {
                    full_match: group_text(m, 0),
                    ours_branch: group_text(m, 1),
                    ours_content: group_text(m, 2),
                    theirs_branch: group_text(m, 4),
                    theirs_content: group_text(m, 3),
                },
            );
            i += 1;
        }
        assert(conflict_views(out@) =~= conflicts_of(content@));
        out
    }

    /// Decides what to do with a file from its conflicts. See [`merge_plan`].
    pub fn plan_for(
        &self,
        content: &str,
        conflicts: &Vec<MergeConflict>,
        path: &str,
        strategy: &str,
        dry_run: bool,
    ) -> (plan: MergePlan)
        ensures
            plan@ == merge_plan(content@, conflict_views(conflicts@), path@, strategy@, dry_run),
    {
        let ghost list = conflict_views(conflicts@);
        if conflicts.len() == 0 {
            return MergePlan::Answer(owned("No merge conflicts found in the file."));
        }
        let ours = same_str(strategy, "ours");
        let theirs = same_str(strategy, "theirs");
        let both = same_str(strategy, "both");
        let auto = same_str(strategy, "auto");
        if dry_run {
            let mut out = to_chars("Dry-run: Found ");
            let number = decimal_chars(conflicts.len() as u64);
            extend_chars(&mut out, number.as_slice());
            extend_str(&mut out, " conflict(s) in ");
            extend_str(&mut out, path);
            extend_str(&mut out, "\nWould resolve using '");
            extend_str(&mut out, strategy);
            extend_str(&mut out, "' strategy:\n\n");
            let ghost head = out@;
            let mut i: usize = 0;
            assert(list.take(0) =~= Seq::<ConflictView>::empty());
            assert(out@ =~= head + preview_lines(strategy@, list.take(0)));
            while i < conflicts.len()
                invariant
                    i <= conflicts.len(),
                    list == conflict_views(conflicts@),
                    out@ == head + preview_lines(strategy@, list.take(i as int)),
                    ours == (strategy@ == "ours"@),
                    theirs == (strategy@ == "theirs"@),
                    both == (strategy@ == "both"@),
                    auto == (strategy@ == "auto"@),
                decreases conflicts.len() - i,
            {
                let c = &conflicts[i];
                proof {
                    let next = list.take(i + 1);
                    assert(next.drop_last() =~= list.take(i as int));
                    assert(next.last() == c@);
                }
                let entry = preview_entry(strategy, c, i + 1);
                extend_chars(&mut out, entry.as_slice());
                assert(out@ =~= head + (preview_lines(strategy@, list.take(i as int))
                    + preview_line(strategy@, c@, (i + 1) as nat)));
                i += 1;
            }
            assert(list.take(conflicts.len() as int) =~= list);
            return MergePlan::Answer(from_chars(out.as_slice()));
        }
        if !(ours || theirs || both || auto) {
            return MergePlan::Answer(
                concat3("Unknown strategy '", strategy, "'. Use 'ours', 'theirs', 'both', or 'auto'."),
            );
        }
        let mut current = to_chars(content);
        let mut i: usize = 0;
        assert(list.take(0) =~= Seq::<ConflictView>::empty());
        while i < conflicts.len()
            invariant
                i <= conflicts.len(),
                list == conflict_views(conflicts@),
                current@ == resolved_content(content@, list.take(i as int), strategy@),
                ours == (strategy@ == "ours"@),
                theirs == (strategy@ == "theirs"@),
                both == (strategy@ == "both"@),
                auto == (strategy@ == "auto"@),
                ours || theirs || both || auto,
            decreases conflicts.len() - i,
        {
            let c = &conflicts[i];
            proof {
                let next = list.take(i + 1);
                assert(next.drop_last() =~= list.take(i as int));
                assert(next.last() == c@);
            }
            let with = if ours {
                to_chars(c.ours_content.as_str())
            } else if theirs {
                to_chars(c.theirs_content.as_str())
            } else if both {
                let mut t = to_chars(c.ours_content.as_str());
                extend_str(&mut t, "\n");
                extend_str(&mut t, c.theirs_content.as_str());
                t
            } else {
                let resolution = auto_resolve_conflict(c);
                to_chars(resolution.0.as_str())
            };
            let from = to_chars(c.full_match.as_str());
            current = replace_all(current.as_slice(), from.as_slice(), with.as_slice());
            i += 1;
        }
        assert(list.take(conflicts.len() as int) =~= list);
        MergePlan::Write { content: from_chars(current.as_slice()), conflicts: conflicts.len() }
    }

    /// The result of a file whose conflicts were resolved and written.
    pub fn success(&self, conflicts: usize, strategy: &str, backup_path: &str) -> (text: String)
        ensures
            text@ == "Successfully resolved "@ + decimal(conflicts as nat)
                + " conflict(s) using '"@ + strategy@ + "' strategy. Original backed up to "@
                + backup_path@,
    {
        let mut out = to_chars("Successfully resolved ");
        let number = decimal_chars(conflicts as u64);
        extend_chars(&mut out, number.as_slice());
        extend_str(&mut out, " conflict(s) using '");
        extend_str(&mut out, strategy);
        extend_str(&mut out, "' strategy. Original backed up to ");
        extend_str(&mut out, backup_path);
        from_chars(out.as_slice())
    }
}

} // verus!
