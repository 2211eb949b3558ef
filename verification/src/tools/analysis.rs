//! The tools that look into errors and logs, and the linter.

use vstd::prelude::*;
use crate::text::{
    byte_len, byte_length, extend_chars, extend_str, from_chars, rows, split_words, to_chars,
    words,
};
use crate::tools::builtin::{DebugCode, RunLint};

verus! {

/// The lines that name the searches for the keywords among the given words:
/// one for each word of more than three bytes.
pub open spec fn keyword_searches(all: Seq<Seq<char>>) -> Seq<char>
    decreases all.len(),
{
    if all.len() == 0 {
        seq![]
    } else if byte_len(all.last()) > 3 {
        keyword_searches(all.drop_last()) + "Search for '"@ + all.last() + "' in codebase\n"@
    } else {
        keyword_searches(all.drop_last())
    }
}

/// The result of looking into an error message.
pub open spec fn debug_result(error_message: Seq<char>) -> Seq<char> {
    "Debug analysis for error: "@ + error_message + "\n"@ + keyword_searches(
        words(error_message),
    ) + "\nUse this to suggest fixes."@
}

impl DebugCode {
    /// Looks into an error message: names a search of the codebase for each
    /// of its words of more than three bytes. A call without a message looks
    /// into the empty message.
    pub fn execute(&self, error_message: Option<&str>) -> (text: String)
        ensures
            text@ == debug_result(
                match error_message {
                    Some(m) => m@,
                    None => Seq::empty(),
                },
            ),
    {
        let message = match error_message {
            Some(m) => m,
            None => "",
        };
        proof {
            reveal_strlit("");
            assert(""@ =~= Seq::<char>::empty());
        }
        let chars = to_chars(message);
        let all = split_words(chars.as_slice());
        let mut searches: Vec<char> = Vec::new();
        let ghost list = rows(all@);
        let mut i: usize = 0;
        assert(list.take(0) =~= Seq::<Seq<char>>::empty());
        while i < all.len()
            invariant
                i <= all.len(),
                list == rows(all@),
                searches@ == keyword_searches(list.take(i as int)),
            decreases all.len() - i,
        {
            proof {
                let next = list.take(i + 1);
                assert(next.drop_last() =~= list.take(i as int));
                assert(next.last() == all@[i as int]@);
            }
            let word = from_chars(all[i].as_slice());
            if byte_length(word.as_str()) > 3 {
                extend_str(&mut searches, "Search for '");
                extend_chars(&mut searches, all[i].as_slice());
                extend_str(&mut searches, "' in codebase\n");
            }
            i += 1;
        }
        assert(list.take(all.len() as int) =~= list);
        let mut out = to_chars("Debug analysis for error: ");
        extend_chars(&mut out, chars.as_slice());
        extend_str(&mut out, "\n");
        extend_chars(&mut out, searches.as_slice());
        extend_str(&mut out, "\nUse this to suggest fixes.");
        from_chars(out.as_slice())
    }
}

impl RunLint {
    /// The command that the linter is run with.
    pub fn command(&self, fix: Option<bool>) -> (command: &'static str)
        ensures
            fix == Some(true) ==> command@ == "cargo clippy --fix"@,
            fix != Some(true) ==> command@ == "cargo clippy"@,
    {
        match fix {
            Some(true) => "cargo clippy --fix",
            _ => "cargo clippy",
        }
    }
}

} // verus!
