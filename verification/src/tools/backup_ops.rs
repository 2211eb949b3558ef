//! The tools that list the backups of a file and remove old ones.

use vstd::prelude::*;
use crate::backup::{
    backup_views, lemma_newest_first, newest_first, sort_backups, BackupInfo, BackupView,
};
use crate::text::{
    concat, concat3, decimal, decimal_chars, extend_chars, extend_str, from_chars, owned,
    to_chars,
};
use crate::tools::builtin::{CleanBackups, ListBackups};

verus! {

/// The lines that show backups.
pub open spec fn backup_lines(items: Seq<BackupView>) -> Seq<char>
    decreases items.len(),
{
    if items.len() == 0 {
        seq![]
    } else {
        backup_lines(items.drop_last()) + "  "@ + items.last().path + " - "@ + decimal(
            items.last().size as nat,
        ) + " bytes - "@ + items.last().created_text + "\n"@
    }
}

/// The result of a listing of backups: the backups with the newest first,
/// or a note that there are none.
pub open spec fn backups_result(path: Seq<char>, items: Seq<BackupView>) -> Seq<char> {
    if items.len() == 0 {
        "No backups found for "@ + path
    } else {
        "Backups for "@ + path + ":\n"@ + backup_lines(newest_first(items))
    }
}

impl ListBackups {
    /// The result of a listing of the backups of a file.
    pub fn listing(&self, path: &str, backups: Vec<BackupInfo>) -> (text: String)
        ensures
            text@ == backups_result(path@, backup_views(backups@)),
    {
        if backups.len() == 0 {
            return concat("No backups found for ", path);
        }
        let ghost given = backup_views(backups@);
        let ordered = sort_backups(backups);
        proof {
            lemma_newest_first(given);
        }
        let mut out = to_chars("Backups for ");
        extend_str(&mut out, path);
        extend_str(&mut out, ":\n");
        let ghost head = out@;
        let ghost all = backup_views(ordered@);
        let mut i: usize = 0;
        assert(all.take(0) =~= Seq::<BackupView>::empty());
        assert(out@ =~= head + backup_lines(all.take(0)));
        while i < ordered.len()
            invariant
                i <= ordered.len(),
                all == backup_views(ordered@),
                out@ == head + backup_lines(all.take(i as int)),
            decreases ordered.len() - i,
        {
            let b = &ordered[i];
            proof {
                let next = all.take(i + 1);
                assert(next.drop_last() =~= all.take(i as int));
                assert(next.last() == b@);
            }
            let mut line = to_chars("  ");
            extend_str(&mut line, b.path.as_str());
            extend_str(&mut line, " - ");
            let size = decimal_chars(b.size);
            extend_chars(&mut line, size.as_slice());
            extend_str(&mut line, " bytes - ");
            extend_str(&mut line, b.created_text.as_str());
            extend_str(&mut line, "\n");
            extend_chars(&mut out, line.as_slice());
            assert(out@ =~= head + (backup_lines(all.take(i as int)) + "  "@ + b@.path + " - "@
                + decimal(b@.size as nat) + " bytes - "@ + b@.created_text + "\n"@));
            i += 1;
        }
        assert(all.take(ordered.len() as int) =~= all);
        from_chars(out.as_slice())
    }

    /// The result of a listing that failed.
    pub fn failure(&self, reason: &str) -> (text: String)
        ensures
            text@ == "Error listing backups: "@ + reason@,
    {
        concat("Error listing backups: ", reason)
    }
}

/// What is cleaned: the backups of the whole project, or those of one file.
#[derive(Clone, Copy, Debug, PartialEq, Eq, Structural)]
pub enum CleanScope {
    Project,
    File,
}

impl CleanBackups {
    /// What a call cleans: the whole project where `all` is set, one file
    /// otherwise.
    pub fn scope(&self, all: Option<bool>) -> (scope: CleanScope)
        ensures
            scope == if all == Some(true) {
                CleanScope::Project
            } else {
                CleanScope::File
            },
    {
        match all {
            Some(true) => CleanScope::Project,
            _ => CleanScope::File,
        }
    }

    /// The result of a call for one file that names no file.
    pub fn missing_path(&self) -> (text: String)
        ensures
            text@ == "Error: Either 'path' parameter or 'all' flag is required"@,
    {
        owned("Error: Either 'path' parameter or 'all' flag is required")
    }

    /// The question that asks the user whether backups may be removed; the
    /// path is read for one file only.
    pub fn question(&self, scope: CleanScope, path: &str) -> (text: String)
        ensures
            text@ == match scope {
                CleanScope::Project => "clean all old backups in the project"@,
                CleanScope::File => "clean old backups for "@ + path@,
            },
    {
        match scope {
            CleanScope::Project => owned("clean all old backups in the project"),
            CleanScope::File => concat("clean old backups for ", path),
        }
    }

    /// The result of a call that cleans nothing: because the user refused,
    /// or because tools only describe what they would do. `None` says: clean.
    pub fn answer_without_cleaning(
        &self,
        scope: CleanScope,
        path: &str,
        confirmed: bool,
        dry_run: bool,
    ) -> (out: Option<String>)
        ensures
            !confirmed ==> out.deep_view() == Some("Cleanup not confirmed."@),
            confirmed && dry_run ==> out.deep_view() == Some(
                match scope {
                    CleanScope::Project => "Dry-run: Would clean all old backups in the project"@,
                    CleanScope::File => "Dry-run: Would clean old backups for "@ + path@,
                },
            ),
            confirmed && !dry_run ==> out is None,
    {
        if !confirmed {
            Some(owned("Cleanup not confirmed."))
        } else if dry_run {
            match scope {
                CleanScope::Project => Some(
                    owned("Dry-run: Would clean all old backups in the project"),
                ),
                CleanScope::File => Some(concat("Dry-run: Would clean old backups for ", path)),
            }
        } else {
            None
        }
    }

    /// The result of a cleaning that removed `removed` backups.
    pub fn result(&self, scope: CleanScope, path: &str, removed: usize) -> (text: String)
        ensures
            text@ == match scope {
                CleanScope::Project => "Cleaned up "@ + decimal(removed as nat)
                    + " old backup(s) from the project"@,
                CleanScope::File => if removed == 0 {
                    "No old backups to clean for "@ + path@
                } else {
                    "Cleaned up "@ + decimal(removed as nat) + " old backup(s) for "@ + path@
                },
            },
    {
        let number = from_chars(decimal_chars(removed as u64).as_slice());
        match scope {
            CleanScope::Project => concat3(
                "Cleaned up ",
                number.as_str(),
                " old backup(s) from the project",
            ),
            CleanScope::File => if removed == 0 {
                concat("No old backups to clean for ", path)
            } else {
                let head = concat3("Cleaned up ", number.as_str(), " old backup(s) for ");
                concat(head.as_str(), path)
            },
        }
    }

    /// The result of a cleaning that failed.
    pub fn failure(&self, reason: &str) -> (text: String)
        ensures
            text@ == "Error cleaning backups: "@ + reason@,
    {
        concat("Error cleaning backups: ", reason)
    }
}

} // verus!
