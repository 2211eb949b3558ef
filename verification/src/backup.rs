//! Backups of files that tools change: how a backup is named, which files
//! are backups of a file, and when a backup is old enough to be removed.

use vstd::prelude::*;
use crate::text::{
    begins_with, ends_with, extend_str, finishes_with, from_chars, parse_u64, parsed_u64,
    starts_with, to_chars, views,
};

verus! {

/// The days that backups are kept where nothing else is said.
pub const DEFAULT_RETENTION_DAYS: u64 = 7;

/// The seconds of a day.
pub const SECONDS_PER_DAY: u64 = 86400;

/// The days that backups are kept: what is given; else what the environment
/// names, where that is a number; else seven.
pub open spec fn retention(given: Option<u64>, environment: Option<Seq<char>>) -> u64 {
    match given {
        Some(days) => days,
        None => match environment {
            Some(text) => match parsed_u64(text) {
                Some(days) => days,
                None => DEFAULT_RETENTION_DAYS,
            },
            None => DEFAULT_RETENTION_DAYS,
        },
    }
}

/// The name of a backup: the name of the file, a dot, the time stamp, and
/// `.bak`.
pub open spec fn backup_name_of(file_name: Seq<char>, timestamp: Seq<char>) -> Seq<char> {
    file_name + "."@ + timestamp + ".bak"@
}

/// A name is that of a backup of a file: it begins with the name of the file
/// and a dot, and ends in `.bak`.
pub open spec fn names_backup(name: Seq<char>, file_name: Seq<char>) -> bool {
    starts_with(name, file_name + "."@) && ends_with(name, ".bak"@)
}

/// A backup of the given age is older than the days say. Zero days keep
/// every backup.
pub open spec fn outlived(retention_days: u64, age_seconds: u64, age_nanos: u32) -> bool {
    retention_days > 0 && (age_seconds > retention_days * SECONDS_PER_DAY || (age_seconds
        == retention_days * SECONDS_PER_DAY && age_nanos > 0))
}

/// Makes backups of files and removes those that are too old.
#[derive(Clone, Copy, Debug)]
pub struct BackupManager {
    retention_days: u64,
}

impl BackupManager {
    /// The days that backups are kept; zero keeps them for ever.
    pub closed spec fn spec_retention_days(&self) -> u64 {
        self.retention_days
    }

    /// A manager that keeps backups for the given days; without them, for
    /// the days that the environment names; without those, for seven.
    pub fn new(retention_days: Option<u64>, environment: Option<&str>) -> (manager: Self)
        ensures
            manager.spec_retention_days() == retention(
                retention_days,
                match environment {
                    Some(t) => Some(t@),
                    None => None,
                },
            ),
    {
        let days = match retention_days {
            Some(days) => days,
            None => match environment {
                Some(text) => {
                    let chars = to_chars(text);
                    match parse_u64(chars.as_slice()) {
                        Some(days) => days,
                        None => DEFAULT_RETENTION_DAYS,
                    }
                },
                None => DEFAULT_RETENTION_DAYS,
            },
        };
        BackupManager { retention_days: days }
    }

    /// The days that backups are kept.
    pub fn retention_days(&self) -> (days: u64)
        ensures
            days == self.spec_retention_days(),
    {
        self.retention_days
    }

    /// Whether old backups are removed at all.
    pub fn cleans_up(&self) -> (b: bool)
        ensures
            b == (self.spec_retention_days() > 0),
    {
        self.retention_days > 0
    }

    /// The name of the backup of a file that is made at the time of the
    /// stamp.
    pub fn generate_backup_name(&self, file_name: &str, timestamp: &str) -> (name: String)
        ensures
            name@ == backup_name_of(file_name@, timestamp@),
    {
        let mut out = to_chars(file_name);
        extend_str(&mut out, ".");
        extend_str(&mut out, timestamp);
        extend_str(&mut out, ".bak");
        from_chars(out.as_slice())
    }

    /// Whether a name is that of a backup of the file.
    pub fn is_backup_of(&self, name: &str, file_name: &str) -> (b: bool)
        ensures
            b == names_backup(name@, file_name@),
    {
        let n = to_chars(name);
        let mut prefix = to_chars(file_name);
        extend_str(&mut prefix, ".");
        let suffix = to_chars(".bak");
        begins_with(n.as_slice(), prefix.as_slice()) && finishes_with(
            n.as_slice(),
            suffix.as_slice(),
        )
    }

    /// Whether a backup of the given age is removed.
    pub fn is_outdated(&self, age_seconds: u64, age_nanos: u32) -> (b: bool)
        ensures
            b == outlived(self.spec_retention_days(), age_seconds, age_nanos),
    {
        if self.retention_days == 0 {
            return false;
        }
        let limit: u128 = (self.retention_days as u128) * 86400u128;
        let age: u128 = age_seconds as u128;
        age > limit || (age == limit && age_nanos > 0)
    }
}

impl Default for BackupManager {
    fn default() -> (manager: Self)
        ensures
            manager.spec_retention_days() == DEFAULT_RETENTION_DAYS,
    {
        BackupManager::new(None, None)
    }
}

/// A backup of a file.
#[derive(Clone, Debug)]
pub struct BackupInfo {
    /// The place of the backup.
    pub path: String,
    /// The time of the backup, in seconds since the epoch.
    pub created: i64,
    /// The time of the backup as it is shown.
    pub created_text: String,
    /// The size of the backup in bytes.
    pub size: u64,
}

/// A backup as contracts see it.
pub struct BackupView {
    pub path: Seq<char>,
    pub created: i64,
    pub created_text: Seq<char>,
    pub size: u64,
}

impl View for BackupInfo {
    type V = BackupView;

    open spec fn view(&self) -> BackupView {
        BackupView {
            path: self.path@,
            created: self.created,
            created_text: self.created_text@,
            size: self.size,
        }
    }
}

/// The views of a list of backups.
pub open spec fn backup_views(items: Seq<BackupInfo>) -> Seq<BackupView> {
    items.map_values(|b: BackupInfo| b@)
}

/// The position at which a backup joins a list that has the newest first:
/// behind every backup that is not older.
pub open spec fn newest_position(s: Seq<BackupView>, x: BackupView) -> int
    decreases s.len(),
{
    if s.len() == 0 {
        0
    } else if s[0].created < x.created {
        0
    } else {
        1 + newest_position(s.drop_first(), x)
    }
}

/// The backups with the newest first; backups of the same time keep their
/// order.
pub open spec fn newest_first(s: Seq<BackupView>) -> Seq<BackupView>
    decreases s.len(),
{
    if s.len() == 0 {
        seq![]
    } else {
        let front = newest_first(s.drop_last());
        front.insert(newest_position(front, s.last()), s.last())
    }
}

/// No backup is newer than one before it.
pub open spec fn is_newest_first(s: Seq<BackupView>) -> bool {
    forall|i: int, j: int|
        0 <= i < j < s.len() ==> (#[trigger] s[i]).created >= (#[trigger] s[j]).created
}

/// The position at which a backup joins is within the list, no backup
/// before it is older than the backup, and the one at it is.
pub proof fn lemma_newest_position(s: Seq<BackupView>, x: BackupView)
    ensures
        0 <= newest_position(s, x) <= s.len(),
        forall|k: int| 0 <= k < newest_position(s, x) ==> (#[trigger] s[k]).created >= x.created,
        newest_position(s, x) < s.len() ==> s[newest_position(s, x)].created < x.created,
    decreases s.len(),
{
    if s.len() > 0 && s[0].created >= x.created {
        let rest = s.drop_first();
        lemma_newest_position(rest, x);
        assert forall|k: int| 0 <= k < newest_position(s, x) implies (#[trigger] s[k]).created
            >= x.created by {
            if k > 0 {
                assert(s[k] == rest[k - 1]);
            }
        }
        if newest_position(s, x) < s.len() {
            assert(s[newest_position(s, x)] == rest[newest_position(rest, x)]);
        }
    }
}

/// Ordering puts the newest first and keeps every backup, each as often as
/// it occurs.
pub proof fn lemma_newest_first(s: Seq<BackupView>)
    ensures
        is_newest_first(newest_first(s)),
        newest_first(s).to_multiset() == s.to_multiset(),
        newest_first(s).len() == s.len(),
    decreases s.len(),
{
    broadcast use vstd::seq_lib::group_to_multiset_ensures;

    if s.len() > 0 {
        let front = newest_first(s.drop_last());
        let x = s.last();
        let p = newest_position(front, x);
        let out = front.insert(p, x);
        lemma_newest_first(s.drop_last());
        lemma_newest_position(front, x);
        assert forall|i: int, j: int| 0 <= i < j < out.len() implies (#[trigger] out[i]).created
            >= (#[trigger] out[j]).created by {
            let a = if i < p { i } else { i - 1 };
            let b = if j < p { j } else { j - 1 };
            if i != p {
                assert(out[i] == front[a]);
            }
            if j != p {
                assert(out[j] == front[b]);
            }
            if i == p && j - 1 > p {
                assert(front[p].created >= front[j - 1].created);
            }
        }
        assert(s =~= s.drop_last().push(x));
        vstd::seq_lib::to_multiset_insert(front, p, x);
        assert(s.drop_last().push(x).to_multiset() =~= s.drop_last().to_multiset().insert(x));
    }
}

/// The backups with the newest first.
pub fn sort_backups(items: Vec<BackupInfo>) -> (out: Vec<BackupInfo>)
    ensures
        backup_views(out@) == newest_first(backup_views(items@)),
{
    let mut items = items;
    let ghost all = backup_views(items@);
    let mut reversed: Vec<BackupInfo> = Vec::new();
    while items.len() > 0
        invariant
            backup_views(items@) == all.take(items@.len() as int),
            reversed@.len() == all.len() - items@.len(),
            forall|k: int|
                0 <= k < reversed@.len() ==> (#[trigger] reversed@[k])@ == all[all.len() - 1 - k],
        decreases items.len(),
    {
        let ghost n = items@.len();
        let ghost before = backup_views(items@);
        match items.pop() {
            Some(item) => {
                assert(before[n - 1] == item@);
                reversed.push(item);
                assert(backup_views(items@) =~= all.take(n - 1));
            },
            None => {},
        }
    }
    let mut out: Vec<BackupInfo> = Vec::new();
    assert(all.take(0) =~= Seq::<BackupView>::empty());
    assert(backup_views(out@) =~= Seq::<BackupView>::empty());
    while reversed.len() > 0
        invariant
            reversed@.len() <= all.len(),
            forall|k: int|
                0 <= k < reversed@.len() ==> (#[trigger] reversed@[k])@ == all[all.len() - 1 - k],
            backup_views(out@) == newest_first(all.take(all.len() - reversed@.len())),
        decreases reversed.len(),
    {
        let ghost done = (all.len() - reversed@.len()) as int;
        let ghost front = backup_views(out@);
        match reversed.pop() {
            Some(item) => {
                assert(item@ == all[done]);
                let mut p: usize = 0;
                assert(front.skip(0) =~= front);
                while p < out.len() && out[p].created >= item.created
                    invariant
                        p <= out.len(),
                        front == backup_views(out@),
                        newest_position(front, item@) == p + newest_position(
                            front.skip(p as int),
                            item@,
                        ),
                    decreases out.len() - p,
                {
                    let ghost rest = front.skip(p as int);
                    assert(rest[0] == out@[p as int]@);
                    assert(rest.drop_first() =~= front.skip(p + 1));
                    p += 1;
                }
                proof {
                    let rest = front.skip(p as int);
                    if p < out.len() {
                        assert(rest[0] == out@[p as int]@);
                    }
                    let next = all.take(done + 1);
                    assert(next.drop_last() =~= all.take(done));
                    assert(next.last() == item@);
                }
                let ghost shown = item@;
                out.insert(p, item);
                assert(backup_views(out@) =~= front.insert(p as int, shown));
            },
            None => {},
        }
    }
    assert(all.take(all.len() as int) =~= all);
    out
}

/// A file of a directory, as far as it may be a backup: its place, its name,
/// and the time since it was last changed (seconds and nanoseconds), where
/// that is known.
#[derive(Clone, Debug)]
pub struct DirectoryEntry {
    pub path: String,
    pub name: String,
    pub age: Option<(u64, u32)>,
}

/// A file of a directory that may be a backup, with what is shown of it.
#[derive(Clone, Debug)]
pub struct BackupCandidate {
    pub name: String,
    pub info: BackupInfo,
}

/// The places of the backups of a file that outlived the retention, in the
/// order of the directory.
pub open spec fn stale_paths(retention_days: u64, file_name: Seq<char>, entries: Seq<DirectoryEntry>)
    -> Seq<Seq<char>>
    decreases entries.len(),
{
    if entries.len() == 0 {
        seq![]
    } else {
        let e = entries.last();
        let front = stale_paths(retention_days, file_name, entries.drop_last());
        let age = e.age->0;
        if names_backup(e.name@, file_name) && e.age is Some && outlived(
            retention_days,
            age.0,
            age.1,
        ) {
            front.push(e.path@)
        } else {
            front
        }
    }
}

/// The backups of a file among the files of a directory, in the order of
/// the directory.
pub open spec fn backups_among(file_name: Seq<char>, candidates: Seq<BackupCandidate>) -> Seq<
    BackupView,
>
    decreases candidates.len(),
{
    if candidates.len() == 0 {
        seq![]
    } else {
        let front = backups_among(file_name, candidates.drop_last());
        if names_backup(candidates.last().name@, file_name) {
            front.push(candidates.last().info@)
        } else {
            front
        }
    }
}

impl BackupManager {
    /// The backups of a file, among the files of its directory, that are
    /// removed: those that outlived the retention. Nothing is removed where
    /// backups are kept for ever, nor a file whose age is not known.
    pub fn cleanup_old_backups(&self, file_name: &str, entries: &[DirectoryEntry]) -> (out: Vec<
        String,
    >)
        ensures
            views(out@) == stale_paths(self.spec_retention_days(), file_name@, entries@),
    {
        let mut out: Vec<String> = Vec::new();
        let mut i: usize = 0;
        assert(entries@.take(0) =~= Seq::<DirectoryEntry>::empty());
        assert(views(out@) =~= Seq::<Seq<char>>::empty());
        while i < entries.len()
            invariant
                i <= entries.len(),
                views(out@) == stale_paths(
                    self.spec_retention_days(),
                    file_name@,
                    entries@.take(i as int),
                ),
            decreases entries.len() - i,
        {
            let e = &entries[i];
            proof {
                let next = entries@.take(i + 1);
                assert(next.drop_last() =~= entries@.take(i as int));
                assert(next.last() == *e);
            }
            let stale = match e.age {
                Some((seconds, nanos)) => self.is_backup_of(e.name.as_str(), file_name)
                    && self.is_outdated(seconds, nanos),
                None => false,
            };
            if stale {
                let ghost before = views(out@);
                out.push(e.path.clone());
                assert(views(out@) =~= before.push(e.path@));
            }
            i += 1;
        }
        assert(entries@.take(entries.len() as int) =~= entries@);
        out
    }

    /// The backups of a file among the files of its directory, with the
    /// newest first.
    pub fn list_backups(&self, file_name: &str, candidates: Vec<BackupCandidate>) -> (out: Vec<
        BackupInfo,
    >)
        ensures
            backup_views(out@) == newest_first(backups_among(file_name@, candidates@)),
    {
        let mut kept: Vec<BackupInfo> = Vec::new();
        let mut i: usize = 0;
        assert(candidates@.take(0) =~= Seq::<BackupCandidate>::empty());
        assert(backup_views(kept@) =~= Seq::<BackupView>::empty());
        while i < candidates.len()
            invariant
                i <= candidates.len(),
                backup_views(kept@) == backups_among(file_name@, candidates@.take(i as int)),
            decreases candidates.len() - i,
        {
            let c = &candidates[i];
            proof {
                let next = candidates@.take(i + 1);
                assert(next.drop_last() =~= candidates@.take(i as int));
                assert(next.last() == *c);
            }
            if self.is_backup_of(c.name.as_str(), file_name) {
                let ghost before = backup_views(kept@);
                kept.push(
                    BackupInfo {
                        path: c.info.path.clone(),
                        created: c.info.created,
                        created_text: c.info.created_text.clone(),
                        size: c.info.size,
                    },
                );
                assert(backup_views(kept@) =~= before.push(c.info@));
            }
            i += 1;
        }
        assert(candidates@.take(candidates.len() as int) =~= candidates@);
        sort_backups(kept)
    }
}

} // verus!
