//! Unified diffs: the hunks of a diff with numbered lines, and the view that
//! scrolls over them.

use vstd::prelude::*;
use crate::text::{
    begins_with, decimal, decimal_chars, extend_chars, extend_str, fields, from_chars,
    parse_number, parsed_number, rows, slice_chars, split_fields, split_lines, split_words,
    starts_with, to_chars, words,
};

verus! {

/// What a line of a diff is.
#[derive(Clone, Copy, Debug, PartialEq, Eq, Structural)]
pub enum DiffLineType {
    Context,
    Added,
    Removed,
    Header,
}

/// One line of a hunk.
#[derive(Clone, Debug)]
pub struct DiffLine {
    pub line_type: DiffLineType,
    pub content: String,
    pub old_line_num: Option<usize>,
    pub new_line_num: Option<usize>,
}

/// The changes to one file.
#[derive(Clone, Debug)]
pub struct DiffHunk {
    pub file_path: String,
    pub old_start: usize,
    pub old_count: usize,
    pub new_start: usize,
    pub new_count: usize,
    pub lines: Vec<DiffLine>,
}

/// A line as contracts see it.
pub struct LineView {
    pub line_type: DiffLineType,
    pub content: Seq<char>,
    pub old_line_num: Option<usize>,
    pub new_line_num: Option<usize>,
}

/// A hunk as contracts see it.
pub struct HunkView {
    pub file_path: Seq<char>,
    pub old_start: usize,
    pub old_count: usize,
    pub new_start: usize,
    pub new_count: usize,
    pub lines: Seq<LineView>,
}

impl View for DiffLine {
    type V = LineView;

    open spec fn view(&self) -> LineView {
        LineView {
            line_type: self.line_type,
            content: self.content@,
            old_line_num: self.old_line_num,
            new_line_num: self.new_line_num,
        }
    }
}

/// The views of a list of lines.
pub open spec fn line_views(lines: Seq<DiffLine>) -> Seq<LineView> {
    lines.map_values(|l: DiffLine| l@)
}

impl View for DiffHunk {
    type V = HunkView;

    open spec fn view(&self) -> HunkView {
        HunkView {
            file_path: self.file_path@,
            old_start: self.old_start,
            old_count: self.old_count,
            new_start: self.new_start,
            new_count: self.new_count,
            lines: line_views(self.lines@),
        }
    }
}

/// The views of a list of hunks.
pub open spec fn hunk_views(hunks: Seq<DiffHunk>) -> Seq<HunkView> {
    hunks.map_values(|h: DiffHunk| h@)
}

/// Where the reading of a diff stands: the hunks that are complete, the one
/// that is being read, and the numbers of the next old and new line.
pub struct ParseState {
    pub hunks: Seq<HunkView>,
    pub current: Option<HunkView>,
    pub old_line: usize,
    pub new_line: usize,
}

/// The next line number; the greatest number stays.
pub open spec fn next_number(n: usize) -> usize {
    if n < usize::MAX {
        (n + 1) as usize
    } else {
        n
    }
}

/// The first line of a range `start,count`; 1 where it is no number.
pub open spec fn range_start(info: Seq<char>) -> usize {
    match parsed_number(fields(info, ',')[0]) {
        Some(n) => n,
        None => 1,
    }
}

/// The length of a range `start,count`; 1 where it is missing or no number.
pub open spec fn range_count(info: Seq<char>) -> usize {
    let f = fields(info, ',');
    if f.len() > 1 {
        match parsed_number(f[1]) {
            Some(n) => n,
            None => 1,
        }
    } else {
        1
    }
}

/// The word at position `at` of a hunk header names a range behind `sign`.
pub open spec fn names_range(parts: Seq<Seq<char>>, at: int, sign: char) -> bool {
    parts.len() >= 3 && parts[at].len() > 0 && parts[at][0] == sign
}

/// The state after a hunk header `@@ -start,count +start,count @@`: the
/// ranges that it names are taken over, the line numbers start at them, and
/// the header joins the lines of the hunk.
pub open spec fn header_step(st: ParseState, hunk: HunkView, line: Seq<char>) -> ParseState {
    let parts = words(line);
    let old = names_range(parts, 1, '-');
    let new = names_range(parts, 2, '+');
    ParseState {
        hunks: st.hunks,
        current: Some(
            HunkView {
                file_path: hunk.file_path,
                old_start: if old {
                    range_start(parts[1].skip(1))
                } else {
                    hunk.old_start
                },
                old_count: if old {
                    range_count(parts[1].skip(1))
                } else {
                    hunk.old_count
                },
                new_start: if new {
                    range_start(parts[2].skip(1))
                } else {
                    hunk.new_start
                },
                new_count: if new {
                    range_count(parts[2].skip(1))
                } else {
                    hunk.new_count
                },
                lines: hunk.lines.push(
                    LineView {
                        line_type: DiffLineType::Header,
                        content: line,
                        old_line_num: None,
                        new_line_num: None,
                    },
                ),
            },
        ),
        old_line: if old {
            range_start(parts[1].skip(1))
        } else {
            st.old_line
        },
        new_line: if new {
            range_start(parts[2].skip(1))
        } else {
            st.new_line
        },
    }
}

/// The kind of a line of content: added behind `+`, removed behind `-`,
/// context otherwise.
pub open spec fn content_type(line: Seq<char>) -> DiffLineType {
    if line.len() > 0 && line[0] == '+' {
        DiffLineType::Added
    } else if line.len() > 0 && line[0] == '-' {
        DiffLineType::Removed
    } else {
        DiffLineType::Context
    }
}

/// The text of a line of content: the line without its marker.
pub open spec fn content_text(line: Seq<char>) -> Seq<char> {
    if line.len() > 0 && (line[0] == '+' || line[0] == '-' || line[0] == ' ') {
        line.skip(1)
    } else {
        line
    }
}

/// The state after a line of content: the line joins the hunk with the
/// numbers of the sides it belongs to, and those numbers go on.
pub open spec fn content_step(st: ParseState, hunk: HunkView, line: Seq<char>) -> ParseState {
    let kind = content_type(line);
    let in_old = kind != DiffLineType::Added;
    let in_new = kind != DiffLineType::Removed;
    ParseState {
        hunks: st.hunks,
        current: Some(
            HunkView {
                lines: hunk.lines.push(
                    LineView {
                        line_type: kind,
                        content: content_text(line),
                        old_line_num: if in_old {
                            Some(st.old_line)
                        } else {
                            None
                        },
                        new_line_num: if in_new {
                            Some(st.new_line)
                        } else {
                            None
                        },
                    },
                ),
                ..hunk
            },
        ),
        old_line: if in_old {
            next_number(st.old_line)
        } else {
            st.old_line
        },
        new_line: if in_new {
            next_number(st.new_line)
        } else {
            st.new_line
        },
    }
}

/// A hunk for a file, with nothing read yet.
pub open spec fn empty_hunk(path: Seq<char>) -> HunkView {
    HunkView {
        file_path: path,
        old_start: 0,
        old_count: 0,
        new_start: 0,
        new_count: 0,
        lines: Seq::empty(),
    }
}

/// The state after one line of a diff.
///
/// `diff --git` completes the hunk that is being read. `+++ b/path` opens a
/// hunk for `path` where none is open; other lines that begin with `---` or
/// `+++` are passed over. `@@` is a hunk header. Every other line is content
/// of the open hunk. Headers and content outside a hunk are passed over.
pub open spec fn step(st: ParseState, line: Seq<char>) -> ParseState {
    if starts_with(line, "diff --git"@) {
        match st.current {
            Some(h) => ParseState { hunks: st.hunks.push(h), current: None, ..st },
            None => st,
        }
    } else if starts_with(line, "---"@) || starts_with(line, "+++"@) {
        if starts_with(line, "+++ b/"@) && st.current is None {
            ParseState { current: Some(empty_hunk(line.skip("+++ b/"@.len() as int))), ..st }
        } else {
            st
        }
    } else if starts_with(line, "@@"@) {
        match st.current {
            Some(h) => header_step(st, h, line),
            None => st,
        }
    } else {
        match st.current {
            Some(h) => content_step(st, h, line),
            None => st,
        }
    }
}

/// The state after the given lines.
pub open spec fn read_lines(st: ParseState, lines: Seq<Seq<char>>) -> ParseState
    decreases lines.len(),
{
    if lines.len() == 0 {
        st
    } else {
        step(read_lines(st, lines.drop_last()), lines.last())
    }
}

/// The hunks of a state, with the one that is being read at the end.
pub open spec fn completed(st: ParseState) -> Seq<HunkView> {
    match st.current {
        Some(h) => st.hunks.push(h),
        None => st.hunks,
    }
}

/// The hunks of a unified diff.
pub open spec fn parsed_diff(text: Seq<char>) -> Seq<HunkView> {
    completed(
        read_lines(
            ParseState { hunks: Seq::empty(), current: None, old_line: 0, new_line: 0 },
            crate::text::lines(text),
        ),
    )
}

struct Reader {
    hunks: Vec<DiffHunk>,
    current: Option<DiffHunk>,
    old_line: usize,
    new_line: usize,
}

impl Reader {
    spec fn view(&self) -> ParseState {
        ParseState {
            hunks: hunk_views(self.hunks@),
            current: match self.current {
                Some(h) => Some(h@),
                None => None,
            },
            old_line: self.old_line,
            new_line: self.new_line,
        }
    }
}

fn bump(n: usize) -> (out: usize)
    ensures
        out == next_number(n),
{
    if n < usize::MAX {
        n + 1
    } else {
        n
    }
}

fn read_range(word: &Vec<char>) -> (out: (usize, usize))
    requires
        word@.len() > 0,
    ensures
        out.0 == range_start(word@.skip(1)),
        out.1 == range_count(word@.skip(1)),
{
    let info = slice_chars(word.as_slice(), 1, word.len());
    assert(info@ =~= word@.skip(1));
    let parts = split_fields(info.as_slice(), ',');
    assert(rows(parts@)[0] == parts@[0]@);
    let start = match parse_number(parts[0].as_slice()) {
        Some(n) => n,
        None => 1,
    };
    let count = if parts.len() > 1 {
        assert(rows(parts@)[1] == parts@[1]@);
        match parse_number(parts[1].as_slice()) {
            Some(n) => n,
            None => 1,
        }
    } else {
        1
    };
    (start, count)
}

fn read_header(old_line: usize, new_line: usize, hunk: DiffHunk, line: &[char]) -> (out: Reader)
    ensures
        out@.current == header_step(
            ParseState { hunks: Seq::empty(), current: None, old_line, new_line },
            hunk@,
            line@,
        ).current,
        out@.old_line == header_step(
            ParseState { hunks: Seq::empty(), current: None, old_line, new_line },
            hunk@,
            line@,
        ).old_line,
        out@.new_line == header_step(
            ParseState { hunks: Seq::empty(), current: None, old_line, new_line },
            hunk@,
            line@,
        ).new_line,
        out.hunks@.len() == 0,
{
    let mut hunk = hunk;
    let mut old_line = old_line;
    let mut new_line = new_line;
    let ghost before = hunk@;
    let parts = split_words(line);
    if parts.len() >= 3 {
        assert(rows(parts@)[1] == parts@[1]@);
        assert(rows(parts@)[2] == parts@[2]@);
        if parts[1].len() > 0 && parts[1][0] == '-' {
            let (start, count) = read_range(&parts[1]);
            old_line = start;
            hunk.old_start = start;
            hunk.old_count = count;
        }
        if parts[2].len() > 0 && parts[2][0] == '+' {
            let (start, count) = read_range(&parts[2]);
            new_line = start;
            hunk.new_start = start;
            hunk.new_count = count;
        }
    }
    let ghost lines = line_views(hunk.lines@);
    hunk.lines.push(
        DiffLine {
            line_type: DiffLineType::Header,
            content: from_chars(line),
            old_line_num: None,
            new_line_num: None,
        },
    );
    assert(line_views(hunk.lines@) =~= lines.push(
        LineView {
            line_type: DiffLineType::Header,
            content: line@,
            old_line_num: None,
            new_line_num: None,
        },
    ));
    Reader { hunks: Vec::new(), current: Some(hunk), old_line, new_line }
}

fn read_content(old_line: usize, new_line: usize, hunk: DiffHunk, line: &[char]) -> (out: Reader)
    ensures
        out@.current == content_step(
            ParseState { hunks: Seq::empty(), current: None, old_line, new_line },
            hunk@,
            line@,
        ).current,
        out@.old_line == content_step(
            ParseState { hunks: Seq::empty(), current: None, old_line, new_line },
            hunk@,
            line@,
        ).old_line,
        out@.new_line == content_step(
            ParseState { hunks: Seq::empty(), current: None, old_line, new_line },
            hunk@,
            line@,
        ).new_line,
        out.hunks@.len() == 0,
{
    let mut hunk = hunk;
    let kind = if line.len() > 0 && line[0] == '+' {
        DiffLineType::Added
    } else if line.len() > 0 && line[0] == '-' {
        DiffLineType::Removed
    } else {
        DiffLineType::Context
    };
    let text = if line.len() > 0 && (line[0] == '+' || line[0] == '-' || line[0] == ' ') {
        let t = slice_chars(line, 1, line.len());
        assert(t@ =~= line@.skip(1));
        t
    } else {
        slice_chars(line, 0, line.len())
    };
    assert(text@ =~= content_text(line@));
    let in_old = match kind {
        DiffLineType::Added => false,
        _ => true,
    };
    let in_new = match kind {
        DiffLineType::Removed => false,
        _ => true,
    };
    let ghost lines = line_views(hunk.lines@);
    let entry = DiffLine {
        line_type: kind,
        content: from_chars(text.as_slice()),
        old_line_num: if in_old {
            Some(old_line)
        } else {
            None
        },
        new_line_num: if in_new {
            Some(new_line)
        } else {
            None
        },
    };
    let ghost shown = entry@;
    hunk.lines.push(entry);
    assert(line_views(hunk.lines@) =~= lines.push(shown));
    Reader {
        hunks: Vec::new(),
        current: Some(hunk),
        old_line: if in_old {
            bump(old_line)
        } else {
            old_line
        },
        new_line: if in_new {
            bump(new_line)
        } else {
            new_line
        },
    }
}

fn read_line(reader: Reader, line: &[char]) -> (out: Reader)
    ensures
        out@ == step(reader@, line@),
{
    let Reader { hunks, current, old_line, new_line } = reader;
    let mut hunks = hunks;
    let ghost st = reader@;
    let git = to_chars("diff --git");
    let minus = to_chars("---");
    let plus = to_chars("+++");
    let file = to_chars("+++ b/");
    let at = to_chars("@@");
    if begins_with(line, git.as_slice()) {
        match current {
            Some(h) => {
                let ghost shown = h@;
                hunks.push(h);
                assert(hunk_views(hunks@) =~= st.hunks.push(shown));
                Reader { hunks, current: None, old_line, new_line }
            },
            None => Reader { hunks, current: None, old_line, new_line },
        }
    } else if begins_with(line, minus.as_slice()) || begins_with(line, plus.as_slice()) {
        if begins_with(line, file.as_slice()) && current.is_none() {
            let path = slice_chars(line, file.len(), line.len());
            assert(path@ =~= line@.skip("+++ b/"@.len() as int));
            let hunk = DiffHunk {
                file_path: from_chars(path.as_slice()),
                old_start: 0,
                old_count: 0,
                new_start: 0,
                new_count: 0,
                lines: Vec::new(),
            };
            assert(hunk@.lines =~= Seq::<LineView>::empty());
            Reader { hunks, current: Some(hunk), old_line, new_line }
        } else {
            Reader { hunks, current, old_line, new_line }
        }
    } else if begins_with(line, at.as_slice()) {
        match current {
            Some(h) => {
                let next = read_header(old_line, new_line, h, line);
                Reader {
                    hunks,
                    current: next.current,
                    old_line: next.old_line,
                    new_line: next.new_line,
                }
            },
            None => Reader { hunks, current: None, old_line, new_line },
        }
    } else {
        match current {
            Some(h) => {
                let next = read_content(old_line, new_line, h, line);
                Reader {
                    hunks,
                    current: next.current,
                    old_line: next.old_line,
                    new_line: next.new_line,
                }
            },
            None => Reader { hunks, current: None, old_line, new_line },
        }
    }
}

/// Reads a unified diff into its hunks, one for each file that the diff
/// names with `+++ b/`, with the lines of each hunk numbered by the ranges
/// of its headers.
pub fn parse_unified_diff(diff_text: &str) -> (hunks: Vec<DiffHunk>)
    ensures
        hunk_views(hunks@) == parsed_diff(diff_text@),
        hunks@.len() == parsed_diff(diff_text@).len(),
        forall|i: int| 0 <= i < hunks@.len() ==> (#[trigger] hunks@[i])@ == parsed_diff(diff_text@)[i],
{
    let chars = to_chars(diff_text);
    let lines = split_lines(chars.as_slice());
    let mut reader = Reader { hunks: Vec::new(), current: None, old_line: 0, new_line: 0 };
    let ghost start = ParseState { hunks: Seq::empty(), current: None, old_line: 0, new_line: 0 };
    assert(reader@.hunks =~= Seq::<HunkView>::empty());
    let ghost all = rows(lines@);
    assert(all.take(0) =~= Seq::<Seq<char>>::empty());
    let mut i: usize = 0;
    while i < lines.len()
        invariant
            i <= lines.len(),
            all == rows(lines@),
            reader@ == read_lines(start, all.take(i as int)),
        decreases lines.len() - i,
    {
        proof {
            let next = all.take(i + 1);
            assert(next.drop_last() =~= all.take(i as int));
            assert(next.last() == lines@[i as int]@);
        }
        reader = read_line(reader, lines[i].as_slice());
        i += 1;
    }
    assert(all.take(lines.len() as int) =~= all);
    let Reader { hunks, current, old_line: _, new_line: _ } = reader;
    let mut hunks = hunks;
    match current {
        Some(h) => {
            let ghost before = hunk_views(hunks@);
            let ghost shown = h@;
            hunks.push(h);
            assert(hunk_views(hunks@) =~= before.push(shown));
        },
        None => {},
    }
    hunks
}

/// A view that scrolls over the hunks of a diff.
pub struct DiffView {
    hunks: Vec<DiffHunk>,
    scroll: usize,
}

impl DiffView {
    /// The hunks that the view shows.
    pub closed spec fn hunks(&self) -> Seq<HunkView> {
        hunk_views(self.hunks@)
    }

    /// The number of rows that the view is scrolled down.
    pub closed spec fn scroll(&self) -> usize {
        self.scroll
    }

    /// A view of the given hunks, at the top.
    pub fn new(hunks: Vec<DiffHunk>) -> (view: Self)
        ensures
            view.hunks() == hunk_views(hunks@),
            view.scroll() == 0,
    {
        DiffView { hunks, scroll: 0 }
    }

    /// Scrolls up by `amount` rows, to the top at most.
    pub fn scroll_up(&mut self, amount: usize)
        ensures
            final(self).hunks() == old(self).hunks(),
            final(self).scroll() == if old(self).scroll() >= amount {
                old(self).scroll() - amount
            } else {
                0
            },
    {
        self.scroll = if self.scroll >= amount {
            self.scroll - amount
        } else {
            0
        };
    }

    /// Scrolls down by `amount` rows, to the greatest number at most.
    pub fn scroll_down(&mut self, amount: usize)
        ensures
            final(self).hunks() == old(self).hunks(),
            final(self).scroll() == if old(self).scroll() + amount <= usize::MAX {
                old(self).scroll() + amount
            } else {
                usize::MAX as int
            },
    {
        self.scroll = if amount <= usize::MAX - self.scroll {
            self.scroll + amount
        } else {
            usize::MAX
        };
    }

    /// The number of rows that the view is scrolled down.
    pub fn scroll_offset(&self) -> (n: usize)
        ensures
            n == self.scroll(),
    {
        self.scroll
    }

    /// The hunks that the view shows.
    pub fn shown_hunks(&self) -> (hunks: &Vec<DiffHunk>)
        ensures
            hunk_views(hunks@) == self.hunks(),
    {
        &self.hunks
    }
}

/// A row of the shown diff.
#[derive(Clone, Debug)]
pub enum DiffRow {
    /// The file of a hunk.
    FileHeader(String),
    /// The ranges of a hunk.
    HunkHeader(String),
    /// A line of a hunk: its numbers, its text behind its marker, and its
    /// kind, by which it is coloured.
    Line { numbers: String, text: String, line_type: DiffLineType },
    /// The empty row behind a hunk.
    Blank,
}

/// A row as contracts see it.
pub enum DiffRowView {
    FileHeader(Seq<char>),
    HunkHeader(Seq<char>),
    Line { numbers: Seq<char>, text: Seq<char>, line_type: DiffLineType },
    Blank,
}

impl View for DiffRow {
    type V = DiffRowView;

    open spec fn view(&self) -> DiffRowView {
        match self {
            DiffRow::FileHeader(t) => DiffRowView::FileHeader(t@),
            DiffRow::HunkHeader(t) => DiffRowView::HunkHeader(t@),
            DiffRow::Line { numbers, text, line_type } => DiffRowView::Line {
                numbers: numbers@,
                text: text@,
                line_type: *line_type,
            },
            DiffRow::Blank => DiffRowView::Blank,
        }
    }
}

/// The views of a list of rows.
pub open spec fn diff_row_views(items: Seq<DiffRow>) -> Seq<DiffRowView> {
    items.map_values(|r: DiffRow| r@)
}

/// That many spaces.
pub open spec fn spaces(n: nat) -> Seq<char> {
    Seq::new(n, |i: int| ' ')
}

/// A line number in a field of four characters, flush right; an empty field
/// for no number. A longer number takes the room it needs.
pub open spec fn number_field(n: Option<usize>) -> Seq<char> {
    let text = match n {
        Some(v) => decimal(v as nat),
        None => Seq::empty(),
    };
    if text.len() >= 4 {
        text
    } else {
        spaces((4 - text.len()) as nat) + text
    }
}

/// The marker of a kind of line.
pub open spec fn marker(kind: DiffLineType) -> Seq<char> {
    match kind {
        DiffLineType::Context => " "@,
        DiffLineType::Added => "+"@,
        DiffLineType::Removed => "-"@,
        DiffLineType::Header => ""@,
    }
}

/// The row of a line.
pub open spec fn line_row(l: LineView) -> DiffRowView {
    DiffRowView::Line {
        numbers: number_field(l.old_line_num) + " "@ + number_field(l.new_line_num) + " "@,
        text: marker(l.line_type) + l.content,
        line_type: l.line_type,
    }
}

/// The rows of a hunk: its file, its ranges, its lines, and an empty row.
pub open spec fn hunk_rows(h: HunkView) -> Seq<DiffRowView> {
    seq![
        DiffRowView::FileHeader("=== "@ + h.file_path + " ==="@),
        DiffRowView::HunkHeader(
            "@@ -"@ + decimal(h.old_start as nat) + ","@ + decimal(h.old_count as nat) + " +"@
                + decimal(h.new_start as nat) + ","@ + decimal(h.new_count as nat) + " @@"@,
        ),
    ] + Seq::new(h.lines.len(), |i: int| line_row(h.lines[i])) + seq![DiffRowView::Blank]
}

/// The rows of hunks, one hunk after the other.
pub open spec fn all_hunk_rows(hunks: Seq<HunkView>) -> Seq<DiffRowView>
    decreases hunks.len(),
{
    if hunks.len() == 0 {
        seq![]
    } else {
        all_hunk_rows(hunks.drop_last()) + hunk_rows(hunks.last())
    }
}

fn field(n: Option<usize>) -> (out: Vec<char>)
    ensures
        out@ == number_field(n),
{
    let text = match n {
        Some(v) => decimal_chars(v as u64),
        None => Vec::new(),
    };
    assert(text@ =~= match n {
        Some(v) => decimal(v as nat),
        None => Seq::empty(),
    });
    let mut out: Vec<char> = Vec::new();
    if text.len() < 4 {
        let pad: usize = 4 - text.len();
        let mut i: usize = 0;
        assert(out@ =~= spaces(0));
        while i < pad
            invariant
                i <= pad,
                out@ == spaces(i as nat),
            decreases pad - i,
        {
            out.push(' ');
            assert(out@ =~= spaces((i + 1) as nat));
            i += 1;
        }
    }
    let ghost padding = out@;
    extend_chars(&mut out, text.as_slice());
    proof {
        if text@.len() >= 4 {
            assert(padding + text@ =~= text@);
        }
    }
    out
}

fn row_of_line(l: &DiffLine) -> (out: DiffRow)
    ensures
        out@ == line_row(l@),
{
    let mut numbers = field(l.old_line_num);
    extend_str(&mut numbers, " ");
    let second = field(l.new_line_num);
    extend_chars(&mut numbers, second.as_slice());
    extend_str(&mut numbers, " ");
    let mut text = to_chars(
        match l.line_type {
            DiffLineType::Context => " ",
            DiffLineType::Added => "+",
            DiffLineType::Removed => "-",
            DiffLineType::Header => "",
        },
    );
    extend_str(&mut text, l.content.as_str());
    DiffRow::Line {
        numbers: from_chars(numbers.as_slice()),
        text: from_chars(text.as_slice()),
        line_type: l.line_type,
    }
}

fn rows_of_hunk(h: &DiffHunk) -> (out: Vec<DiffRow>)
    ensures
        diff_row_views(out@) == hunk_rows(h@),
{
    let mut out: Vec<DiffRow> = Vec::new();
    let mut file = to_chars("=== ");
    extend_str(&mut file, h.file_path.as_str());
    extend_str(&mut file, " ===");
    out.push(DiffRow::FileHeader(from_chars(file.as_slice())));
    let mut ranges = to_chars("@@ -");
    extend_chars(&mut ranges, decimal_chars(h.old_start as u64).as_slice());
    extend_str(&mut ranges, ",");
    extend_chars(&mut ranges, decimal_chars(h.old_count as u64).as_slice());
    extend_str(&mut ranges, " +");
    extend_chars(&mut ranges, decimal_chars(h.new_start as u64).as_slice());
    extend_str(&mut ranges, ",");
    extend_chars(&mut ranges, decimal_chars(h.new_count as u64).as_slice());
    extend_str(&mut ranges, " @@");
    out.push(DiffRow::HunkHeader(from_chars(ranges.as_slice())));
    let ghost head = diff_row_views(out@);
    let mut i: usize = 0;
    while i < h.lines.len()
        invariant
            i <= h.lines.len(),
            head.len() == 2,
            out@.len() == 2 + i,
            forall|k: int| 0 <= k < 2 ==> (#[trigger] out@[k])@ == head[k],
            forall|k: int| 2 <= k < 2 + i ==> (#[trigger] out@[k])@ == line_row(h.lines@[k - 2]@),
        decreases h.lines.len() - i,
    {
        out.push(row_of_line(&h.lines[i]));
        i += 1;
    }
    out.push(DiffRow::Blank);
    assert(diff_row_views(out@) =~= hunk_rows(h@));
    out
}

impl DiffView {
    /// The rows of the diff, from the first hunk on.
    pub fn render_diff_content(&self) -> (out: Vec<DiffRow>)
        ensures
            diff_row_views(out@) == all_hunk_rows(self.hunks()),
    {
        let mut out: Vec<DiffRow> = Vec::new();
        let ghost all = hunk_views(self.hunks@);
        let mut i: usize = 0;
        assert(all.take(0) =~= Seq::<HunkView>::empty());
        assert(diff_row_views(out@) =~= Seq::<DiffRowView>::empty());
        while i < self.hunks.len()
            invariant
                i <= self.hunks.len(),
                all == hunk_views(self.hunks@),
                diff_row_views(out@) == all_hunk_rows(all.take(i as int)),
            decreases self.hunks.len() - i,
        {
            proof {
                let next = all.take(i + 1);
                assert(next.drop_last() =~= all.take(i as int));
                assert(next.last() == self.hunks@[i as int]@);
            }
            let ghost before = diff_row_views(out@);
            let mut part = rows_of_hunk(&self.hunks[i]);
            let ghost added = diff_row_views(part@);
            out.append(&mut part);
            assert(diff_row_views(out@) =~= before + added);
            i += 1;
        }
        assert(all.take(self.hunks.len() as int) =~= all);
        out
    }

    /// The heading of the view.
    pub fn heading(&self) -> (text: &'static str)
        ensures
            text@ == "Code Diff View - Use j/k to scroll, q to close"@,
    {
        "Code Diff View - Use j/k to scroll, q to close"
    }
}

} // verus!
