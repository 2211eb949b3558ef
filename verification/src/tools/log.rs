//! The tool that analyzes a log: how its lines are counted by level, which
//! error messages, stack traces and known issues are found in it, and the
//! report that is made of them.

use vstd::prelude::*;
use crate::text::{
    begins_with, blank, contains, decimal, decimal_chars, extend_chars, extend_str, find,
    first_occurrence, from_chars, has, is_blank, lines, lowercase, rows, slice_chars,
    spec_lowercase, split_lines, starts_with, to_chars, trim, trim_start, trimmed, trimmed_start,
};
use crate::tools::builtin::AnalyzeLog;

verus! {

/// The number of lines that are analyzed where no limit is given.
pub const DEFAULT_MAX_LINES: u64 = 1000;

/// An error message and how often it was seen.
pub struct TallyView {
    pub message: Seq<char>,
    pub count: nat,
}

/// What was found in the lines of a log so far.
pub struct LogState {
    pub errors: nat,
    pub warnings: nat,
    pub infos: nat,
    pub debugs: nat,
    /// The error messages, in the order in which each was first seen.
    pub messages: Seq<TallyView>,
    /// The stack traces that are complete.
    pub traces: Seq<Seq<char>>,
    /// Whether a stack trace is being read.
    pub in_trace: bool,
    /// The lines of the stack trace that is being read.
    pub current: Seq<char>,
    /// The known issues that were found, in the order of finding.
    pub issues: Seq<Seq<char>>,
}

/// The known issues: what a line holds, in lower case, and what that means.
pub open spec fn known_issues() -> Seq<(Seq<char>, Seq<char>)> {
    seq![
        ("panic"@, "Panic/crash detected"@),
        ("segfault"@, "Segmentation fault"@),
        ("null pointer"@, "Null pointer access"@),
        ("out of memory"@, "Memory exhaustion"@),
        ("timeout"@, "Operation timeout"@),
        ("connection refused"@, "Network connection issue"@),
        ("permission denied"@, "Permission/access issue"@),
        ("file not found"@, "Missing file/resource"@),
        ("assertion failed"@, "Assertion failure"@),
    ]
}

/// A line, in lower case, reports an error.
pub open spec fn is_error_line(lower: Seq<char>) -> bool {
    contains(lower, "error"@) || contains(lower, "err "@) || contains(lower, "err:"@)
}

/// A line, in lower case, reports a warning.
pub open spec fn is_warning_line(lower: Seq<char>) -> bool {
    contains(lower, "warn"@) || contains(lower, "warning"@)
}

/// A line, in lower case, reports progress.
pub open spec fn is_info_line(lower: Seq<char>) -> bool {
    contains(lower, "info"@)
}

/// A line, in lower case, reports details.
pub open spec fn is_debug_line(lower: Seq<char>) -> bool {
    contains(lower, "debug"@) || contains(lower, "trace"@)
}

/// The first position at which `needle` stands in `hay`, if any.
pub open spec fn position(hay: Seq<char>, needle: Seq<char>) -> Option<int> {
    if contains(hay, needle) {
        Some(choose|i: int| first_occurrence(hay, needle, i))
    } else {
        None
    }
}

/// The error message of a line: from the first `ERROR:` on, or without one
/// from the first `Error:` on, trimmed.
pub open spec fn error_message(line: Seq<char>) -> Option<Seq<char>> {
    match position(line, "ERROR:"@) {
        Some(i) => Some(trim(line.skip(i))),
        None => match position(line, "Error:"@) {
            Some(i) => Some(trim(line.skip(i))),
            None => None,
        },
    }
}

/// The tallies after a message was seen once more.
pub open spec fn tallied(messages: Seq<TallyView>, message: Seq<char>) -> Seq<TallyView>
    decreases messages.len(),
{
    if messages.len() == 0 {
        seq![TallyView { message, count: 1 }]
    } else if messages[0].message == message {
        seq![TallyView { message, count: messages[0].count + 1 }] + messages.drop_first()
    } else {
        seq![messages[0]] + tallied(messages.drop_first(), message)
    }
}

/// A line belongs to a stack trace.
pub open spec fn is_trace_line(line: Seq<char>) -> bool {
    starts_with(trim_start(line), "at "@) || contains(line, "backtrace:"@) || contains(
        line,
        "stack trace:"@,
    )
}

/// The issues after the known issues from position `from` on were looked
/// for in a line: each that the line holds and that was not found before is
/// added.
pub open spec fn detected(issues: Seq<Seq<char>>, lower: Seq<char>, from: int) -> Seq<Seq<char>>
    decreases known_issues().len() - from,
{
    if from < 0 || from >= known_issues().len() {
        issues
    } else if contains(lower, known_issues()[from].0) && !issues.contains(known_issues()[from].1) {
        detected(issues.push(known_issues()[from].1), lower, from + 1)
    } else {
        detected(issues, lower, from + 1)
    }
}

/// What is known after one more line.
pub open spec fn log_step(st: LogState, line: Seq<char>) -> LogState {
    let lower = spec_lowercase(line);
    let error = is_error_line(lower);
    let warning = !error && is_warning_line(lower);
    let info = !error && !warning && is_info_line(lower);
    let debug = !error && !warning && !info && is_debug_line(lower);
    let starts = is_trace_line(line);
    let ends = !starts && st.in_trace && is_blank(line);
    LogState {
        errors: if error {
            st.errors + 1
        } else {
            st.errors
        },
        warnings: if warning {
            st.warnings + 1
        } else {
            st.warnings
        },
        infos: if info {
            st.infos + 1
        } else {
            st.infos
        },
        debugs: if debug {
            st.debugs + 1
        } else {
            st.debugs
        },
        messages: if error && error_message(line) is Some {
            tallied(st.messages, error_message(line)->0)
        } else {
            st.messages
        },
        traces: if ends && st.current.len() > 0 {
            st.traces.push(st.current)
        } else {
            st.traces
        },
        in_trace: if starts {
            true
        } else if ends {
            false
        } else {
            st.in_trace
        },
        current: if starts {
            (if st.in_trace {
                st.current
            } else {
                Seq::empty()
            }) + line + "\n"@
        } else if ends {
            Seq::empty()
        } else {
            st.current
        },
        issues: detected(st.issues, lower, 0),
    }
}

/// What is known after the given lines.
pub open spec fn log_fold(all: Seq<Seq<char>>) -> LogState
    decreases all.len(),
{
    if all.len() == 0 {
        LogState {
            errors: 0,
            warnings: 0,
            infos: 0,
            debugs: 0,
            messages: Seq::empty(),
            traces: Seq::empty(),
            in_trace: false,
            current: Seq::empty(),
            issues: Seq::empty(),
        }
    } else {
        log_step(log_fold(all.drop_last()), all.last())
    }
}

/// The lines of a log that are analyzed: the first `max_lines`.
pub open spec fn analyzed_lines(content: Seq<char>, max_lines: nat) -> Seq<Seq<char>> {
    if lines(content).len() > max_lines {
        lines(content).take(max_lines as int)
    } else {
        lines(content)
    }
}

/// The stack traces of a state, with the one that is being read at the end.
pub open spec fn all_traces(st: LogState) -> Seq<Seq<char>> {
    if st.in_trace && st.current.len() > 0 {
        st.traces.push(st.current)
    } else {
        st.traces
    }
}

/// An error message and how often it was seen.
#[derive(Clone, Debug)]
pub struct ErrorTally {
    pub message: String,
    pub count: usize,
}

impl View for ErrorTally {
    type V = TallyView;

    open spec fn view(&self) -> TallyView {
        TallyView { message: self.message@, count: self.count as nat }
    }
}

/// The views of a list of tallies.
pub open spec fn tally_views(items: Seq<ErrorTally>) -> Seq<TallyView> {
    items.map_values(|t: ErrorTally| t@)
}

/// What was found in a log.
#[derive(Clone, Debug)]
pub struct LogAnalysis {
    pub total_lines: usize,
    pub error_count: usize,
    pub warn_count: usize,
    pub info_count: usize,
    pub debug_count: usize,
    /// The error messages, in the order in which each was first seen.
    pub error_messages: Vec<ErrorTally>,
    pub stack_traces: Vec<String>,
    /// The known issues that were found, in the order of finding.
    pub detected_patterns: Vec<String>,
}

impl LogAnalysis {
    /// The analysis is that of the given lines.
    pub open spec fn is_analysis_of(&self, all: Seq<Seq<char>>) -> bool {
        let st = log_fold(all);
        &&& self.total_lines == all.len()
        &&& self.error_count == st.errors
        &&& self.warn_count == st.warnings
        &&& self.info_count == st.infos
        &&& self.debug_count == st.debugs
        &&& tally_views(self.error_messages@) == st.messages
        &&& crate::text::views(self.stack_traces@) == all_traces(st)
        &&& crate::text::views(self.detected_patterns@) == st.issues
    }
}

struct Scan {
    errors: usize,
    warnings: usize,
    infos: usize,
    debugs: usize,
    messages: Vec<ErrorTally>,
    traces: Vec<String>,
    in_trace: bool,
    current: Vec<char>,
    issues: Vec<String>,
}

impl Scan {
    spec fn view(&self) -> LogState {
        LogState {
            errors: self.errors as nat,
            warnings: self.warnings as nat,
            infos: self.infos as nat,
            debugs: self.debugs as nat,
            messages: tally_views(self.messages@),
            traces: crate::text::views(self.traces@),
            in_trace: self.in_trace,
            current: self.current@,
            issues: crate::text::views(self.issues@),
        }
    }
}

fn issue_list() -> (out: Vec<(&'static str, &'static str)>)
    ensures
        out@.len() == known_issues().len(),
        forall|i: int|
            0 <= i < out@.len() ==> (#[trigger] out@[i]).0@ == known_issues()[i].0 && out@[i].1@
                == known_issues()[i].1,
{
    let mut out: Vec<(&'static str, &'static str)> = Vec::new();
    out.push(("panic", "Panic/crash detected"));
    out.push(("segfault", "Segmentation fault"));
    out.push(("null pointer", "Null pointer access"));
    out.push(("out of memory", "Memory exhaustion"));
    out.push(("timeout", "Operation timeout"));
    out.push(("connection refused", "Network connection issue"));
    out.push(("permission denied", "Permission/access issue"));
    out.push(("file not found", "Missing file/resource"));
    out.push(("assertion failed", "Assertion failure"));
    out
}

fn holds(items: &Vec<String>, text: &str) -> (b: bool)
    ensures
        b == crate::text::views(items@).contains(text@),
{
    let mut i: usize = 0;
    while i < items.len()
        invariant
            i <= items.len(),
            forall|k: int| 0 <= k < i ==> crate::text::views(items@)[k] != text@,
        decreases items.len() - i,
    {
        assert(crate::text::views(items@)[i as int] == items@[i as int]@);
        if crate::text::same_str(items[i].as_str(), text) {
            return true;
        }
        i += 1;
    }
    false
}

fn detect(issues: &mut Vec<String>, lower: &[char])
    ensures
        crate::text::views(final(issues)@) == detected(crate::text::views(old(issues)@), lower@, 0),
{
    let list = issue_list();
    let mut i: usize = 0;
    while i < list.len()
        invariant
            i <= list.len(),
            list@.len() == known_issues().len(),
            forall|k: int|
                0 <= k < list@.len() ==> (#[trigger] list@[k]).0@ == known_issues()[k].0
                    && list@[k].1@ == known_issues()[k].1,
            detected(crate::text::views(old(issues)@), lower@, 0) == detected(
                crate::text::views(issues@),
                lower@,
                i as int,
            ),
        decreases list.len() - i,
    {
        assert(list@[i as int].0@ == known_issues()[i as int].0);
        assert(list@[i as int].1@ == known_issues()[i as int].1);
        let pattern = to_chars(list[i].0);
        if has(lower, pattern.as_slice()) && !holds(issues, list[i].1) {
            let ghost before = crate::text::views(issues@);
            issues.push(crate::text::owned(list[i].1));
            assert(crate::text::views(issues@) =~= before.push(known_issues()[i as int].1));
        }
        i += 1;
    }
}

fn tally(messages: &mut Vec<ErrorTally>, message: String)
    requires
        forall|k: int| 0 <= k < old(messages)@.len() ==> (#[trigger] old(messages)@[k]).count < usize::MAX,
    ensures
        tally_views(final(messages)@) == tallied(tally_views(old(messages)@), message@),
{
    let ghost all = tally_views(messages@);
    let mut i: usize = 0;
    assert(all.skip(0) =~= all);
    assert(all.take(0) + tallied(all, message@) =~= tallied(all, message@));
    while i < messages.len()
        invariant
            i <= messages.len(),
            messages@ == old(messages)@,
            all == tally_views(messages@),
            tallied(all, message@) == all.take(i as int) + tallied(all.skip(i as int), message@),
            forall|k: int| 0 <= k < messages@.len() ==> (#[trigger] messages@[k]).count < usize::MAX,
        decreases messages.len() - i,
    {
        let ghost rest = all.skip(i as int);
        assert(rest[0] == messages@[i as int]@);
        assert(rest.drop_first() =~= all.skip(i + 1));
        if crate::text::same_str(messages[i].message.as_str(), message.as_str()) {
            let entry = messages.remove(i);
            let renewed = ErrorTally { message: entry.message, count: entry.count + 1 };
            messages.insert(i, renewed);
            assert(tally_views(messages@) =~= all.take(i as int) + (seq![
                TallyView { message: message@, count: rest[0].count + 1 },
            ] + rest.drop_first()));
            return ;
        }
        assert(all.take(i as int) + (seq![rest[0]] + tallied(all.skip(i + 1), message@))
            =~= all.take(i + 1) + tallied(all.skip(i + 1), message@));
        i += 1;
    }
    assert(all.skip(i as int).len() == 0);
    assert(all.take(i as int) =~= all);
    messages.push(ErrorTally { message, count: 1 });
    assert(tally_views(messages@) =~= all + seq![TallyView { message: message@, count: 1 }]);
}

fn message_of(line: &[char]) -> (out: Option<Vec<char>>)
    ensures
        match out {
            Some(m) => error_message(line@) == Some(m@),
            None => error_message(line@) is None,
        },
{
    let upper = to_chars("ERROR:");
    let mixed = to_chars("Error:");
    let at = match find(line, upper.as_slice()) {
        Some(i) => Some(i),
        None => find(line, mixed.as_slice()),
    };
    match at {
        Some(i) => {
            let tail = slice_chars(line, i, line.len());
            assert(tail@ =~= line@.skip(i as int));
            Some(trimmed(tail.as_slice()))
        },
        None => None,
    }
}

fn scan_line(scan: Scan, line: &[char]) -> (out: Scan)
    requires
        scan.errors < usize::MAX,
        scan.warnings < usize::MAX,
        scan.infos < usize::MAX,
        scan.debugs < usize::MAX,
        forall|k: int|
            0 <= k < scan.messages@.len() ==> (#[trigger] scan.messages@[k]).count < usize::MAX,
    ensures
        out@ == log_step(scan@, line@),
{
    let mut scan = scan;
    let ghost st = scan@;
    let text = from_chars(line);
    let lowered = lowercase(text.as_str());
    let lower = to_chars(lowered.as_str());
    let error = has(lower.as_slice(), to_chars("error").as_slice()) || has(
        lower.as_slice(),
        to_chars("err ").as_slice(),
    ) || has(lower.as_slice(), to_chars("err:").as_slice());
    if error {
        scan.errors += 1;
        match message_of(line) {
            Some(m) => {
                tally(&mut scan.messages, from_chars(m.as_slice()));
            },
            None => {},
        }
    } else if has(lower.as_slice(), to_chars("warn").as_slice()) || has(
        lower.as_slice(),
        to_chars("warning").as_slice(),
    ) {
        scan.warnings += 1;
    } else if has(lower.as_slice(), to_chars("info").as_slice()) {
        scan.infos += 1;
    } else if has(lower.as_slice(), to_chars("debug").as_slice()) || has(
        lower.as_slice(),
        to_chars("trace").as_slice(),
    ) {
        scan.debugs += 1;
    }
    let head = trimmed_start(line);
    let starts = begins_with(head.as_slice(), to_chars("at ").as_slice()) || has(
        line,
        to_chars("backtrace:").as_slice(),
    ) || has(line, to_chars("stack trace:").as_slice());
    if starts {
        if !scan.in_trace {
            scan.in_trace = true;
            scan.current = Vec::new();
        }
        extend_chars(&mut scan.current, line);
        scan.current.push('\n');
        proof {
            reveal_strlit("\n");
            assert("\n"@ =~= seq!['\n']);
            assert(scan.current@ =~= (if st.in_trace {
                st.current
            } else {
                Seq::empty()
            }) + line@ + "\n"@);
        }
    } else if scan.in_trace && blank(line) {
        if scan.current.len() > 0 {
            let ghost before = crate::text::views(scan.traces@);
            scan.traces.push(from_chars(scan.current.as_slice()));
            assert(crate::text::views(scan.traces@) =~= before.push(st.current));
            scan.current = Vec::new();
        }
        scan.in_trace = false;
        assert(scan.current@ =~= Seq::<char>::empty());
    }
    detect(&mut scan.issues, lower.as_slice());
    scan
}

impl AnalyzeLog {
    /// The number of lines that are analyzed: what is given, or 1000.
    pub fn max_lines(&self, given: Option<u64>) -> (n: u64)
        ensures
            n == match given {
                Some(n) => n,
                None => DEFAULT_MAX_LINES,
            },
    {
        match given {
            Some(n) => n,
            None => DEFAULT_MAX_LINES,
        }
    }

    /// Analyzes the first `max_lines` lines of a log: counts them by level,
    /// gathers error messages and stack traces, and looks for known issues.
    pub fn analyze(&self, log_content: &str, max_lines: u64) -> (out: LogAnalysis)
        ensures
            out.is_analysis_of(analyzed_lines(log_content@, max_lines as nat)),
    {
        let chars = to_chars(log_content);
        let all = split_lines(chars.as_slice());
        let count: usize = if (all.len() as u64) > max_lines {
            max_lines as usize
        } else {
            all.len()
        };
        let ghost list = analyzed_lines(log_content@, max_lines as nat);
        assert(list =~= rows(all@).take(count as int));
        let mut scan = Scan {
            errors: 0,
            warnings: 0,
            infos: 0,
            debugs: 0,
            messages: Vec::new(),
            traces: Vec::new(),
            in_trace: false,
            current: Vec::new(),
            issues: Vec::new(),
        };
        proof {
            assert(list.take(0) =~= Seq::<Seq<char>>::empty());
            assert(scan@.messages =~= Seq::<TallyView>::empty());
            assert(scan@.traces =~= Seq::<Seq<char>>::empty());
            assert(scan@.issues =~= Seq::<Seq<char>>::empty());
            assert(scan@.current =~= Seq::<char>::empty());
        }
        let mut i: usize = 0;
        while i < count
            invariant
                i <= count <= all.len(),
                list == rows(all@).take(count as int),
                scan@ == log_fold(list.take(i as int)),
                scan.errors <= i,
                scan.warnings <= i,
                scan.infos <= i,
                scan.debugs <= i,
                forall|k: int|
                    0 <= k < scan.messages@.len() ==> (#[trigger] scan.messages@[k]).count <= i,
            decreases count - i,
        {
            proof {
                let next = list.take(i + 1);
                assert(next.drop_last() =~= list.take(i as int));
                assert(next.last() == all@[i as int]@);
            }
            let ghost before = scan@;
            let ghost old_messages = scan.messages@;
            scan = scan_line(scan, all[i].as_slice());
            proof {
                lemma_tally_bound(
                    before.messages,
                    tally_views(scan.messages@),
                    log_step(before, all@[i as int]@),
                    i as nat,
                    before,
                    all@[i as int]@,
                );
                assert forall|k: int| 0 <= k < scan.messages@.len() implies (
                #[trigger] scan.messages@[k]).count <= i + 1 by {
                    assert(tally_views(scan.messages@)[k] == scan.messages@[k]@);
                }
            }
            i += 1;
        }
        assert(list.take(count as int) =~= list);
        let ghost st = scan@;
        let mut traces = scan.traces;
        if scan.in_trace && scan.current.len() > 0 {
            let ghost before = crate::text::views(traces@);
            traces.push(from_chars(scan.current.as_slice()));
            assert(crate::text::views(traces@) =~= before.push(st.current));
        }
        LogAnalysis {
            total_lines: count,
            error_count: scan.errors,
            warn_count: scan.warnings,
            info_count: scan.infos,
            debug_count: scan.debugs,
            error_messages: scan.messages,
            stack_traces: traces,
            detected_patterns: scan.issues,
        }
    }
}

/// No tally counts more often than lines were seen.
proof fn lemma_tallied_bound(messages: Seq<TallyView>, message: Seq<char>, bound: nat)
    requires
        forall|k: int| 0 <= k < messages.len() ==> (#[trigger] messages[k]).count <= bound,
    ensures
        forall|k: int|
            0 <= k < tallied(messages, message).len() ==> (#[trigger] tallied(
                messages,
                message,
            )[k]).count <= bound + 1,
    decreases messages.len(),
{
    if messages.len() > 0 && messages[0].message != message {
        let rest = messages.drop_first();
        assert forall|k: int| 0 <= k < rest.len() implies (#[trigger] rest[k]).count <= bound by {
            assert(rest[k] == messages[k + 1]);
        }
        lemma_tallied_bound(rest, message, bound);
        let out = tallied(messages, message);
        assert forall|k: int| 0 <= k < out.len() implies (#[trigger] out[k]).count <= bound + 1 by {
            if k > 0 {
                assert(out[k] == tallied(rest, message)[k - 1]);
            }
        }
    } else if messages.len() > 0 {
        let out = tallied(messages, message);
        assert forall|k: int| 0 <= k < out.len() implies (#[trigger] out[k]).count <= bound + 1 by {
            if k > 0 {
                assert(out[k] == messages[k]);
            }
        }
    }
}

proof fn lemma_tally_bound(
    before: Seq<TallyView>,
    after: Seq<TallyView>,
    next: LogState,
    bound: nat,
    st: LogState,
    line: Seq<char>,
)
    requires
        before == st.messages,
        next == log_step(st, line),
        after == next.messages,
        forall|k: int| 0 <= k < before.len() ==> (#[trigger] before[k]).count <= bound,
    ensures
        forall|k: int| 0 <= k < after.len() ==> (#[trigger] after[k]).count <= bound + 1,
{
    if after != before {
        lemma_tallied_bound(before, error_message(line)->0, bound);
    }
}

/// The shares of the levels among the analyzed lines, in percent and as
/// they are to be shown.
#[derive(Clone, Debug)]
pub struct LevelShares {
    pub errors: String,
    pub warnings: String,
    pub infos: String,
    pub debugs: String,
}

/// A line of the summary: a level, its count and its share.
pub open spec fn summary_line(label: Seq<char>, count: nat, share: Seq<char>) -> Seq<char> {
    "   • "@ + label + ": "@ + decimal(count) + " ("@ + share + "%)\n"@
}

/// The head of the report and the summary of the levels.
pub open spec fn summary_text(
    total: nat,
    errors: nat,
    warnings: nat,
    infos: nat,
    debugs: nat,
    shares: (Seq<char>, Seq<char>, Seq<char>, Seq<char>),
) -> Seq<char> {
    "🔍 Log Analysis Report\n======================\n\n"@ + "📊 Summary (analyzed "@ + decimal(
        total,
    ) + " lines):\n"@ + summary_line("Errors"@, errors, shares.0) + summary_line(
        "Warnings"@,
        warnings,
        shares.1,
    ) + summary_line("Info"@, infos, shares.2) + summary_line("Debug"@, debugs, shares.3) + "\n"@
}

/// Each text behind a bullet, on a line of its own.
pub open spec fn bullet_lines(items: Seq<Seq<char>>) -> Seq<char>
    decreases items.len(),
{
    if items.len() == 0 {
        seq![]
    } else {
        bullet_lines(items.drop_last()) + "   • "@ + items.last() + "\n"@
    }
}

/// The issues that were found; nothing where none was.
pub open spec fn issues_text(issues: Seq<Seq<char>>) -> Seq<char> {
    if issues.len() == 0 {
        seq![]
    } else {
        "⚠️  Detected Issues:\n"@ + bullet_lines(issues) + "\n"@
    }
}

/// The position of the first tally with the highest count.
pub open spec fn first_max(entries: Seq<TallyView>) -> int
    decreases entries.len(),
{
    if entries.len() <= 1 {
        0
    } else {
        let p = first_max(entries.drop_last());
        if entries.last().count > entries[p].count {
            entries.len() - 1
        } else {
            p
        }
    }
}

/// The line that shows a tally.
pub open spec fn tally_line(t: TallyView) -> Seq<char> {
    "   • "@ + t.message + " ("@ + decimal(t.count) + "x)\n"@
}

/// The lines of the `k` most frequent messages, most frequent first; of
/// messages that are equally frequent the one that was seen first comes
/// first.
pub open spec fn top_text(entries: Seq<TallyView>, k: nat) -> Seq<char>
    decreases k,
{
    if k == 0 || entries.len() == 0 {
        seq![]
    } else {
        let i = first_max(entries);
        tally_line(entries[i]) + top_text(entries.remove(i), (k - 1) as nat)
    }
}

/// The most frequent error messages; nothing where there is none.
pub open spec fn messages_text(messages: Seq<TallyView>) -> Seq<char> {
    if messages.len() == 0 {
        seq![]
    } else {
        "❌ Top Error Messages:\n"@ + top_text(messages, 5) + "\n"@
    }
}

/// Each line behind three spaces, on a line of its own.
pub open spec fn indented_lines(items: Seq<Seq<char>>) -> Seq<char>
    decreases items.len(),
{
    if items.len() == 0 {
        seq![]
    } else {
        indented_lines(items.drop_last()) + "   "@ + items.last() + "\n"@
    }
}

/// The number of stack traces and the first five lines of the first one;
/// nothing where there is none.
pub open spec fn traces_text(traces: Seq<Seq<char>>) -> Seq<char> {
    if traces.len() == 0 {
        seq![]
    } else {
        let shown = lines(traces[0]);
        "📋 Found "@ + decimal(traces.len()) + " stack trace(s)\n"@ + "   First stack trace:\n"@
            + (if shown.len() > 5 {
            indented_lines(shown.take(5)) + "   ...\n"@
        } else {
            indented_lines(shown)
        }) + "\n"@
    }
}

/// What the findings suggest.
pub open spec fn recommendations_text(
    total: nat,
    errors: nat,
    warnings: nat,
    issues: Seq<Seq<char>>,
    traces: nat,
) -> Seq<char> {
    "💡 Recommendations:\n"@ + (if errors > total / 10 {
        "   • High error rate detected - investigate root cause\n"@
    } else {
        Seq::<char>::empty()
    }) + (if issues.contains("Memory exhaustion"@) {
        "   • Memory issues detected - check for leaks or increase heap size\n"@
    } else {
        Seq::<char>::empty()
    }) + (if issues.contains("Network connection issue"@) {
        "   • Network issues detected - verify connectivity and firewall settings\n"@
    } else {
        Seq::<char>::empty()
    }) + (if issues.contains("Permission/access issue"@) {
        "   • Permission issues detected - check file/directory permissions\n"@
    } else {
        Seq::<char>::empty()
    }) + (if traces > 5 {
        "   • Multiple crashes detected - application stability is compromised\n"@
    } else {
        Seq::<char>::empty()
    }) + (if warnings > errors * 2 {
        "   • Many warnings present - consider addressing to prevent future errors\n"@
    } else {
        Seq::<char>::empty()
    })
}

fn push_summary_line(out: &mut Vec<char>, label: &str, count: usize, share: &str)
    ensures
        final(out)@ == old(out)@ + summary_line(label@, count as nat, share@),
{
    let mut line = to_chars("   • ");
    extend_str(&mut line, label);
    extend_str(&mut line, ": ");
    let number = decimal_chars(count as u64);
    extend_chars(&mut line, number.as_slice());
    extend_str(&mut line, " (");
    extend_str(&mut line, share);
    extend_str(&mut line, "%)\n");
    extend_chars(out, line.as_slice());
}

fn push_bullets(out: &mut Vec<char>, items: &Vec<String>)
    ensures
        final(out)@ == old(out)@ + bullet_lines(crate::text::views(items@)),
{
    let ghost all = crate::text::views(items@);
    let ghost head = out@;
    let mut i: usize = 0;
    assert(all.take(0) =~= Seq::<Seq<char>>::empty());
    assert(out@ =~= head + bullet_lines(all.take(0)));
    while i < items.len()
        invariant
            i <= items.len(),
            all == crate::text::views(items@),
            out@ == head + bullet_lines(all.take(i as int)),
        decreases items.len() - i,
    {
        proof {
            let next = all.take(i + 1);
            assert(next.drop_last() =~= all.take(i as int));
            assert(next.last() == items@[i as int]@);
        }
        let mut line = to_chars("   • ");
        extend_str(&mut line, items[i].as_str());
        extend_str(&mut line, "\n");
        let ghost before = out@;
        extend_chars(out, line.as_slice());
        assert(out@ =~= head + (bullet_lines(all.take(i as int)) + "   • "@ + items@[i as int]@
            + "\n"@));
        i += 1;
    }
    assert(all.take(items.len() as int) =~= all);
}

fn push_indented(out: &mut Vec<char>, items: &Vec<Vec<char>>, count: usize)
    requires
        count <= items.len(),
    ensures
        final(out)@ == old(out)@ + indented_lines(rows(items@).take(count as int)),
{
    let ghost all = rows(items@).take(count as int);
    let ghost head = out@;
    let mut i: usize = 0;
    assert(all.take(0) =~= Seq::<Seq<char>>::empty());
    assert(out@ =~= head + indented_lines(all.take(0)));
    while i < count
        invariant
            i <= count <= items.len(),
            all == rows(items@).take(count as int),
            out@ == head + indented_lines(all.take(i as int)),
        decreases count - i,
    {
        proof {
            let next = all.take(i + 1);
            assert(next.drop_last() =~= all.take(i as int));
            assert(next.last() == items@[i as int]@);
        }
        let mut line = to_chars("   ");
        extend_chars(&mut line, items[i].as_slice());
        extend_str(&mut line, "\n");
        extend_chars(out, line.as_slice());
        assert(out@ =~= head + (indented_lines(all.take(i as int)) + "   "@ + items@[i as int]@
            + "\n"@));
        i += 1;
    }
    assert(all.take(count as int) =~= all);
}

fn max_position(entries: &Vec<ErrorTally>) -> (at: usize)
    requires
        entries@.len() > 0,
    ensures
        at == first_max(tally_views(entries@)),
        at < entries@.len(),
{
    let ghost all = tally_views(entries@);
    let mut best: usize = 0;
    let mut i: usize = 1;
    assert(all.take(1).len() == 1);
    while i < entries.len()
        invariant
            1 <= i <= entries.len(),
            best < i,
            all == tally_views(entries@),
            best == first_max(all.take(i as int)),
        decreases entries.len() - i,
    {
        proof {
            let next = all.take(i + 1);
            assert(next.drop_last() =~= all.take(i as int));
            assert(next.last() == entries@[i as int]@);
            assert(next[best as int] == entries@[best as int]@);
        }
        if entries[i].count > entries[best].count {
            best = i;
        }
        i += 1;
    }
    assert(all.take(entries.len() as int) =~= all);
    best
}

fn push_top(out: &mut Vec<char>, messages: &Vec<ErrorTally>)
    ensures
        final(out)@ == old(out)@ + top_text(tally_views(messages@), 5),
{
    let mut rest: Vec<ErrorTally> = Vec::new();
    let mut i: usize = 0;
    while i < messages.len()
        invariant
            i <= messages.len(),
            rest@.len() == i,
            forall|k: int| 0 <= k < i ==> (#[trigger] rest@[k])@ == messages@[k]@,
        decreases messages.len() - i,
    {
        rest.push(ErrorTally { message: messages[i].message.clone(), count: messages[i].count });
        i += 1;
    }
    assert(tally_views(rest@) =~= tally_views(messages@));
    let ghost head = out@;
    let ghost all = tally_views(messages@);
    let mut left: usize = 5;
    assert(out@ + top_text(tally_views(rest@), 5) =~= head + top_text(all, 5));
    while left > 0 && rest.len() > 0
        invariant
            left <= 5,
            head + top_text(all, 5) == out@ + top_text(tally_views(rest@), left as nat),
        decreases left,
    {
        let ghost entries = tally_views(rest@);
        let ghost before = out@;
        let at = max_position(&rest);
        let entry = rest.remove(at);
        assert(entry@ == entries[at as int]);
        assert(tally_views(rest@) =~= entries.remove(at as int));
        let mut line = to_chars("   • ");
        extend_str(&mut line, entry.message.as_str());
        extend_str(&mut line, " (");
        let number = decimal_chars(entry.count as u64);
        extend_chars(&mut line, number.as_slice());
        extend_str(&mut line, "x)\n");
        extend_chars(out, line.as_slice());
        left -= 1;
        assert(before + (tally_line(entry@) + top_text(entries.remove(at as int), left as nat))
            =~= out@ + top_text(entries.remove(at as int), left as nat));
    }
    assert(top_text(tally_views(rest@), left as nat) =~= Seq::<char>::empty());
    assert(out@ + Seq::<char>::empty() =~= out@);
}

impl LogAnalysis {
    /// The report of an analysis, with the shares of the levels as they are
    /// to be shown.
    pub open spec fn report_text(&self, shares: (Seq<char>, Seq<char>, Seq<char>, Seq<char>))
        -> Seq<char> {
        summary_text(
            self.total_lines as nat,
            self.error_count as nat,
            self.warn_count as nat,
            self.info_count as nat,
            self.debug_count as nat,
            shares,
        ) + issues_text(crate::text::views(self.detected_patterns@)) + messages_text(
            tally_views(self.error_messages@),
        ) + traces_text(crate::text::views(self.stack_traces@)) + recommendations_text(
            self.total_lines as nat,
            self.error_count as nat,
            self.warn_count as nat,
            crate::text::views(self.detected_patterns@),
            self.stack_traces@.len(),
        )
    }

    fn summary(&self, shares: &LevelShares) -> (out: Vec<char>)
        ensures
            out@ == summary_text(
                self.total_lines as nat,
                self.error_count as nat,
                self.warn_count as nat,
                self.info_count as nat,
                self.debug_count as nat,
                (shares.errors@, shares.warnings@, shares.infos@, shares.debugs@),
            ),
    {
        let mut out = to_chars("🔍 Log Analysis Report\n======================\n\n");
        extend_str(&mut out, "📊 Summary (analyzed ");
        let number = decimal_chars(self.total_lines as u64);
        extend_chars(&mut out, number.as_slice());
        extend_str(&mut out, " lines):\n");
        push_summary_line(&mut out, "Errors", self.error_count, shares.errors.as_str());
        push_summary_line(&mut out, "Warnings", self.warn_count, shares.warnings.as_str());
        push_summary_line(&mut out, "Info", self.info_count, shares.infos.as_str());
        push_summary_line(&mut out, "Debug", self.debug_count, shares.debugs.as_str());
        extend_str(&mut out, "\n");
        out
    }

    fn findings(&self) -> (out: Vec<char>)
        ensures
            out@ == issues_text(crate::text::views(self.detected_patterns@)) + messages_text(
                tally_views(self.error_messages@),
            ) + traces_text(crate::text::views(self.stack_traces@)),
    {
        let mut out: Vec<char> = Vec::new();
        if self.detected_patterns.len() > 0 {
            extend_str(&mut out, "⚠️  Detected Issues:\n");
            push_bullets(&mut out, &self.detected_patterns);
            extend_str(&mut out, "\n");
        }
        let ghost first = out@;
        assert(first =~= issues_text(crate::text::views(self.detected_patterns@)));
        if self.error_messages.len() > 0 {
            extend_str(&mut out, "❌ Top Error Messages:\n");
            push_top(&mut out, &self.error_messages);
            extend_str(&mut out, "\n");
        }
        let ghost second = out@;
        assert(second =~= first + messages_text(tally_views(self.error_messages@)));
        if self.stack_traces.len() > 0 {
            assert(crate::text::views(self.stack_traces@)[0] == self.stack_traces@[0]@);
            extend_str(&mut out, "📋 Found ");
            let number = decimal_chars(self.stack_traces.len() as u64);
            extend_chars(&mut out, number.as_slice());
            extend_str(&mut out, " stack trace(s)\n");
            extend_str(&mut out, "   First stack trace:\n");
            let trace = to_chars(self.stack_traces[0].as_str());
            let shown = split_lines(trace.as_slice());
            if shown.len() > 5 {
                push_indented(&mut out, &shown, 5);
                extend_str(&mut out, "   ...\n");
            } else {
                push_indented(&mut out, &shown, shown.len());
                assert(rows(shown@).take(shown.len() as int) =~= rows(shown@));
            }
            extend_str(&mut out, "\n");
        }
        assert(out@ =~= second + traces_text(crate::text::views(self.stack_traces@)));
        out
    }

    fn recommendations(&self) -> (out: Vec<char>)
        ensures
            out@ == recommendations_text(
                self.total_lines as nat,
                self.error_count as nat,
                self.warn_count as nat,
                crate::text::views(self.detected_patterns@),
                self.stack_traces@.len(),
            ),
    {
        let mut out = to_chars("💡 Recommendations:\n");
        if self.error_count > self.total_lines / 10 {
            extend_str(&mut out, "   • High error rate detected - investigate root cause\n");
        } else {
            assert(out@ + Seq::<char>::empty() =~= out@);
        }
        let ghost a = out@;
        if holds(&self.detected_patterns, "Memory exhaustion") {
            extend_str(
                &mut out,
                "   • Memory issues detected - check for leaks or increase heap size\n",
            );
        } else {
            assert(out@ + Seq::<char>::empty() =~= out@);
        }
        let ghost b = out@;
        if holds(&self.detected_patterns, "Network connection issue") {
            extend_str(
                &mut out,
                "   • Network issues detected - verify connectivity and firewall settings\n",
            );
        } else {
            assert(out@ + Seq::<char>::empty() =~= out@);
        }
        let ghost c = out@;
        if holds(&self.detected_patterns, "Permission/access issue") {
            extend_str(
                &mut out,
                "   • Permission issues detected - check file/directory permissions\n",
            );
        } else {
            assert(out@ + Seq::<char>::empty() =~= out@);
        }
        let ghost d = out@;
        if self.stack_traces.len() > 5 {
            extend_str(
                &mut out,
                "   • Multiple crashes detected - application stability is compromised\n",
            );
        } else {
            assert(out@ + Seq::<char>::empty() =~= out@);
        }
        let ghost e = out@;
        if (self.warn_count as u128) > (self.error_count as u128) * 2 {
            extend_str(
                &mut out,
                "   • Many warnings present - consider addressing to prevent future errors\n",
            );
        } else {
            assert(out@ + Seq::<char>::empty() =~= out@);
        }
        out
    }

    /// The report of the analysis: the summary of the levels with the given
    /// shares, the issues, the five most frequent error messages, the first
    /// stack trace, and what the findings suggest.
    pub fn report(&self, shares: &LevelShares) -> (text: String)
        ensures
            text@ == self.report_text(
                (shares.errors@, shares.warnings@, shares.infos@, shares.debugs@),
            ),
    {
        let mut out = self.summary(shares);
        let findings = self.findings();
        extend_chars(&mut out, findings.as_slice());
        let advice = self.recommendations();
        extend_chars(&mut out, advice.as_slice());
        from_chars(out.as_slice())
    }
}

} // verus!
