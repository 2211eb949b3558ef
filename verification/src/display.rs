//! How tools and their results are shown while a turn runs: the icon and the
//! phrase for a tool that starts, and the summary of what a tool returned.

use vstd::prelude::*;
use crate::text::{
    byte_len, byte_length, contains, decimal, decimal_chars, extend_chars, extend_str, from_chars,
    has, join, joined, lines, rows, same_str, split_lines, to_chars,
};

verus! {

/// The icon shown for a tool that starts.
pub open spec fn icon_of(name: Seq<char>) -> Seq<char> {
    if name == "read_file"@ {
        "📖"@
    } else if name == "write_file"@ {
        "✏️"@
    } else if name == "edit_file"@ {
        "📝"@
    } else if name == "list_files"@ {
        "📁"@
    } else if name == "run_shell_command"@ {
        "🖥️"@
    } else if name == "search_codebase"@ {
        "🔍"@
    } else if name == "run_lint"@ {
        "🔧"@
    } else if name == "debug_code"@ {
        "🐛"@
    } else {
        "⚙️"@
    }
}

/// The phrase shown for a tool that starts; a tool without a phrase of its
/// own is shown by its name.
pub open spec fn action_of(name: Seq<char>) -> Seq<char> {
    if name == "read_file"@ {
        "Reading file"@
    } else if name == "write_file"@ {
        "Writing file"@
    } else if name == "edit_file"@ {
        "Editing file"@
    } else if name == "list_files"@ {
        "Listing files"@
    } else if name == "run_shell_command"@ {
        "Running command"@
    } else if name == "search_codebase"@ {
        "Searching codebase"@
    } else if name == "run_lint"@ {
        "Running linter"@
    } else if name == "debug_code"@ {
        "Debugging code"@
    } else {
        name
    }
}

/// The icon shown for a tool that starts.
pub fn tool_icon(name: &str) -> (icon: &'static str)
    ensures
        icon@ == icon_of(name@),
{
    if same_str(name, "read_file") {
        "📖"
    } else if same_str(name, "write_file") {
        "✏️"
    } else if same_str(name, "edit_file") {
        "📝"
    } else if same_str(name, "list_files") {
        "📁"
    } else if same_str(name, "run_shell_command") {
        "🖥️"
    } else if same_str(name, "search_codebase") {
        "🔍"
    } else if same_str(name, "run_lint") {
        "🔧"
    } else if same_str(name, "debug_code") {
        "🐛"
    } else {
        "⚙️"
    }
}

/// The phrase shown for a tool that starts.
pub fn tool_action(name: &str) -> (phrase: String)
    ensures
        phrase@ == action_of(name@),
{
    let text = if same_str(name, "read_file") {
        "Reading file"
    } else if same_str(name, "write_file") {
        "Writing file"
    } else if same_str(name, "edit_file") {
        "Editing file"
    } else if same_str(name, "list_files") {
        "Listing files"
    } else if same_str(name, "run_shell_command") {
        "Running command"
    } else if same_str(name, "search_codebase") {
        "Searching codebase"
    } else if same_str(name, "run_lint") {
        "Running linter"
    } else if same_str(name, "debug_code") {
        "Debugging code"
    } else {
        name
    };
    let chars = to_chars(text);
    from_chars(chars.as_slice())
}

/// Each line behind a bullet.
pub open spec fn bulleted(items: Seq<Seq<char>>) -> Seq<Seq<char>> {
    items.map_values(|l: Seq<char>| "  - "@ + l)
}

/// The summary of a listing: the number of entries and the entries as a
/// bulleted list, the first ten of them where there are more.
pub open spec fn listing_summary(result: Seq<char>) -> Seq<char> {
    let all = lines(result);
    if all.len() > 10 {
        "✓ Found "@ + decimal(all.len()) + " files (showing first 10):\n"@ + join(
            bulleted(all.take(10)),
            "\n"@,
        ) + "\n  ... and "@ + decimal((all.len() - 10) as nat) + " more"@
    } else {
        "✓ Found "@ + decimal(all.len()) + " files:\n"@ + join(bulleted(all), "\n"@)
    }
}

/// The summary of text that was read or found: the text itself up to five
/// lines, the number of lines beyond that.
pub open spec fn reading_summary(result: Seq<char>) -> Seq<char> {
    let n = lines(result).len();
    if n > 5 {
        "✓ Success ("@ + decimal(n) + " lines of output)"@
    } else {
        "✓ "@ + result
    }
}

/// The summary of a command's output.
pub open spec fn command_summary(result: Seq<char>) -> Seq<char> {
    if contains(result, "error"@) || contains(result, "Error"@) {
        "✓ Done"@
    } else {
        "✓ Command completed successfully"@
    }
}

/// The summary of any other result: the text itself up to 200 bytes, its
/// size beyond that.
pub open spec fn plain_summary(result: Seq<char>) -> Seq<char> {
    if byte_len(result) > 200 {
        "✓ Done (output: "@ + decimal(byte_len(result)) + " chars)"@
    } else {
        "✓ "@ + result
    }
}

/// What is shown for the result of a tool.
pub open spec fn displayed(name: Seq<char>, result: Seq<char>) -> Seq<char> {
    if name == "list_files"@ {
        listing_summary(result)
    } else if name == "read_file"@ || name == "search_codebase"@ {
        reading_summary(result)
    } else if name == "run_shell_command"@ || name == "run_lint"@ {
        command_summary(result)
    } else {
        plain_summary(result)
    }
}

fn bullet_lines(items: &Vec<Vec<char>>, count: usize) -> (out: Vec<Vec<char>>)
    requires
        count <= items.len(),
    ensures
        rows(out@) == bulleted(rows(items@).take(count as int)),
{
    let mut out: Vec<Vec<char>> = Vec::new();
    let mut i: usize = 0;
    while i < count
        invariant
            i <= count <= items.len(),
            out@.len() == i,
            forall|k: int| 0 <= k < i ==> (#[trigger] out@[k])@ == "  - "@ + items@[k]@,
        decreases count - i,
    {
        let mut line = to_chars("  - ");
        extend_chars(&mut line, items[i].as_slice());
        out.push(line);
        i += 1;
    }
    assert(rows(out@) =~= bulleted(rows(items@).take(count as int)));
    out
}

fn listing(result: &[char]) -> (out: Vec<char>)
    ensures
        out@ == listing_summary(result@),
{
    let all = split_lines(result);
    let total = all.len();
    let mut out = to_chars("✓ Found ");
    let number = decimal_chars(total as u64);
    extend_chars(&mut out, number.as_slice());
    let sep = to_chars("\n");
    if total > 10 {
        extend_str(&mut out, " files (showing first 10):\n");
        let shown = bullet_lines(&all, 10);
        let body = joined(&shown, sep.as_slice());
        extend_chars(&mut out, body.as_slice());
        extend_str(&mut out, "\n  ... and ");
        let more = decimal_chars((total - 10) as u64);
        extend_chars(&mut out, more.as_slice());
        extend_str(&mut out, " more");
    } else {
        extend_str(&mut out, " files:\n");
        let shown = bullet_lines(&all, total);
        assert(rows(all@).take(total as int) =~= rows(all@));
        let body = joined(&shown, sep.as_slice());
        extend_chars(&mut out, body.as_slice());
    }
    out
}

/// What is shown for the result of a tool.
pub fn display_result(name: &str, result: &str) -> (out: String)
    ensures
        out@ == displayed(name@, result@),
{
    let text = to_chars(result);
    let chars = if same_str(name, "list_files") {
        listing(text.as_slice())
    } else if same_str(name, "read_file") || same_str(name, "search_codebase") {
        let all = split_lines(text.as_slice());
        if all.len() > 5 {
            let mut out = to_chars("✓ Success (");
            let number = decimal_chars(all.len() as u64);
            extend_chars(&mut out, number.as_slice());
            extend_str(&mut out, " lines of output)");
            out
        } else {
            let mut out = to_chars("✓ ");
            extend_chars(&mut out, text.as_slice());
            out
        }
    } else if same_str(name, "run_shell_command") || same_str(name, "run_lint") {
        let lower = to_chars("error");
        let upper = to_chars("Error");
        if has(text.as_slice(), lower.as_slice()) || has(text.as_slice(), upper.as_slice()) {
            to_chars("✓ Done")
        } else {
            to_chars("✓ Command completed successfully")
        }
    } else {
        let size = byte_length(result);
        if size > 200 {
            let mut out = to_chars("✓ Done (output: ");
            let number = decimal_chars(size as u64);
            extend_chars(&mut out, number.as_slice());
            extend_str(&mut out, " chars)");
            out
        } else {
            let mut out = to_chars("✓ ");
            extend_chars(&mut out, text.as_slice());
            out
        }
    };
    from_chars(chars.as_slice())
}

} // verus!
