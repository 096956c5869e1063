//! Working-directory status: entry classification and the four-way
//! partition (staged / unstaged / untracked / conflicted) that the status
//! screen displays.

use vstd::prelude::*;
use crate::git::diff::{sat_add, sat_usize};

verus! {

/// Status of a file in the working directory.
#[derive(Debug, Clone, Copy, PartialEq, Eq, Structural)]
pub enum EntryStatus {
    /// File is new in the index.
    IndexNew,
    /// File is modified in the index.
    IndexModified,
    /// File is deleted in the index.
    IndexDeleted,
    /// File is renamed in the index.
    IndexRenamed,
    /// File is type-changed in the index.
    IndexTypeChange,
    /// File is new in the working tree.
    WorktreeNew,
    /// File is modified in the working tree.
    WorktreeModified,
    /// File is deleted in the working tree.
    WorktreeDeleted,
    /// File is renamed in the working tree.
    WorktreeRenamed,
    /// File is type-changed in the working tree.
    WorktreeTypeChange,
    /// File is ignored.
    Ignored,
    /// File is conflicted.
    Conflicted,
}

pub open spec fn is_staged_spec(s: EntryStatus) -> bool {
    s == EntryStatus::IndexNew || s == EntryStatus::IndexModified || s == EntryStatus::IndexDeleted
        || s == EntryStatus::IndexRenamed || s == EntryStatus::IndexTypeChange
}

pub open spec fn is_unstaged_spec(s: EntryStatus) -> bool {
    s == EntryStatus::WorktreeNew || s == EntryStatus::WorktreeModified || s
        == EntryStatus::WorktreeDeleted || s == EntryStatus::WorktreeRenamed || s
        == EntryStatus::WorktreeTypeChange
}

impl EntryStatus {
    /// Whether this status represents a staged change.
    pub fn is_staged(&self) -> (r: bool)
        ensures
            r == is_staged_spec(*self),
    {
        matches!(
            self,
            EntryStatus::IndexNew
                | EntryStatus::IndexModified
                | EntryStatus::IndexDeleted
                | EntryStatus::IndexRenamed
                | EntryStatus::IndexTypeChange
        )
    }

    /// Whether this status represents an unstaged change.
    pub fn is_unstaged(&self) -> (r: bool)
        ensures
            r == is_unstaged_spec(*self),
    {
        matches!(
            self,
            EntryStatus::WorktreeNew
                | EntryStatus::WorktreeModified
                | EntryStatus::WorktreeDeleted
                | EntryStatus::WorktreeRenamed
                | EntryStatus::WorktreeTypeChange
        )
    }

    /// The two-letter short status code, as `git status --short` writes it.
    pub fn short_code(&self) -> (r: &'static str)
        ensures
            r@ == short_code_spec(*self),
    {
        match self {
            EntryStatus::IndexNew => "A ",
            EntryStatus::IndexModified => "M ",
            EntryStatus::IndexDeleted => "D ",
            EntryStatus::IndexRenamed => "R ",
            EntryStatus::IndexTypeChange => "T ",
            EntryStatus::WorktreeNew => "??",
            EntryStatus::WorktreeModified => " M",
            EntryStatus::WorktreeDeleted => " D",
            EntryStatus::WorktreeRenamed => " R",
            EntryStatus::WorktreeTypeChange => " T",
            EntryStatus::Ignored => "!!",
            EntryStatus::Conflicted => "UU",
        }
    }

    /// A one-word description of the status.
    pub fn description(&self) -> (r: &'static str)
        ensures
            r@ == description_spec(*self),
    {
        match self {
            EntryStatus::IndexNew => "new file",
            EntryStatus::IndexModified => "modified",
            EntryStatus::IndexDeleted => "deleted",
            EntryStatus::IndexRenamed => "renamed",
            EntryStatus::IndexTypeChange => "typechange",
            EntryStatus::WorktreeNew => "untracked",
            EntryStatus::WorktreeModified => "modified",
            EntryStatus::WorktreeDeleted => "deleted",
            EntryStatus::WorktreeRenamed => "renamed",
            EntryStatus::WorktreeTypeChange => "typechange",
            EntryStatus::Ignored => "ignored",
            EntryStatus::Conflicted => "conflicted",
        }
    }
}

pub open spec fn short_code_spec(s: EntryStatus) -> Seq<char> {
    match s {
        EntryStatus::IndexNew => "A "@,
        EntryStatus::IndexModified => "M "@,
        EntryStatus::IndexDeleted => "D "@,
        EntryStatus::IndexRenamed => "R "@,
        EntryStatus::IndexTypeChange => "T "@,
        EntryStatus::WorktreeNew => "??"@,
        EntryStatus::WorktreeModified => " M"@,
        EntryStatus::WorktreeDeleted => " D"@,
        EntryStatus::WorktreeRenamed => " R"@,
        EntryStatus::WorktreeTypeChange => " T"@,
        EntryStatus::Ignored => "!!"@,
        EntryStatus::Conflicted => "UU"@,
    }
}

pub open spec fn description_spec(s: EntryStatus) -> Seq<char> {
    match s {
        EntryStatus::IndexNew => "new file"@,
        EntryStatus::IndexModified => "modified"@,
        EntryStatus::IndexDeleted => "deleted"@,
        EntryStatus::IndexRenamed => "renamed"@,
        EntryStatus::IndexTypeChange => "typechange"@,
        EntryStatus::WorktreeNew => "untracked"@,
        EntryStatus::WorktreeModified => "modified"@,
        EntryStatus::WorktreeDeleted => "deleted"@,
        EntryStatus::WorktreeRenamed => "renamed"@,
        EntryStatus::WorktreeTypeChange => "typechange"@,
        EntryStatus::Ignored => "ignored"@,
        EntryStatus::Conflicted => "conflicted"@,
    }
}

/// A single status entry.
#[derive(Debug, PartialEq)]
pub struct StatusEntry {
    pub path: String,
    pub status: EntryStatus,
    pub index_to_workdir: bool,
}

impl StatusEntry {
    pub fn new(path: String, status: EntryStatus, index_to_workdir: bool) -> (r: Self)
        ensures
            r == (StatusEntry { path, status, index_to_workdir }),
    {
        StatusEntry { path, status, index_to_workdir }
    }
}

impl Clone for StatusEntry {
    fn clone(&self) -> (r: Self)
        ensures
            r == *self,
    {
        StatusEntry {
            path: self.path.clone(),
            status: self.status,
            index_to_workdir: self.index_to_workdir,
        }
    }
}

/// The raw per-entry flags reported by the backend for one path, as plain
/// booleans. The backend hands one of these per status entry.
#[derive(Debug, Clone, Copy, PartialEq, Eq, Structural)]
pub struct StatusFlags {
    pub conflicted: bool,
    pub index_new: bool,
    pub index_modified: bool,
    pub index_deleted: bool,
    pub index_renamed: bool,
    pub index_typechange: bool,
    pub wt_new: bool,
    pub wt_modified: bool,
    pub wt_deleted: bool,
    pub wt_renamed: bool,
    pub wt_typechange: bool,
    pub ignored: bool,
}

/// One optional element: the given status when the flag is set.
pub open spec fn flag_elem(set: bool, s: EntryStatus) -> Seq<EntryStatus> {
    if set {
        seq![s]
    } else {
        Seq::empty()
    }
}

/// The entry statuses that one set of flags denotes, in display order.
/// A conflict shadows everything else.
pub open spec fn parse_flags_spec(f: StatusFlags) -> Seq<EntryStatus> {
    if f.conflicted {
        seq![EntryStatus::Conflicted]
    } else {
        Seq::empty() + flag_elem(f.index_new, EntryStatus::IndexNew) + flag_elem(
            f.index_modified,
            EntryStatus::IndexModified,
        ) + flag_elem(f.index_deleted, EntryStatus::IndexDeleted) + flag_elem(
            f.index_renamed,
            EntryStatus::IndexRenamed,
        ) + flag_elem(f.index_typechange, EntryStatus::IndexTypeChange) + flag_elem(
            f.wt_new,
            EntryStatus::WorktreeNew,
        ) + flag_elem(f.wt_modified, EntryStatus::WorktreeModified) + flag_elem(
            f.wt_deleted,
            EntryStatus::WorktreeDeleted,
        ) + flag_elem(f.wt_renamed, EntryStatus::WorktreeRenamed) + flag_elem(
            f.wt_typechange,
            EntryStatus::WorktreeTypeChange,
        ) + flag_elem(f.ignored, EntryStatus::Ignored)
    }
}

/// Pushes `s` exactly when `set` holds.
fn push_if(statuses: &mut Vec<EntryStatus>, set: bool, s: EntryStatus)
    ensures
        final(statuses)@ == old(statuses)@ + flag_elem(set, s),
{
    if set {
        statuses.push(s);
    }
    assert(statuses@ =~= old(statuses)@ + flag_elem(set, s));
}

/// Expands one set of backend flags into the entry statuses it denotes.
pub fn parse_status_flags(flags: StatusFlags) -> (r: Vec<EntryStatus>)
    ensures
        r@ == parse_flags_spec(flags),
{
    let mut statuses: Vec<EntryStatus> = Vec::new();
    if flags.conflicted {
        statuses.push(EntryStatus::Conflicted);
        assert(statuses@ =~= parse_flags_spec(flags));
        return statuses;
    }
    push_if(&mut statuses, flags.index_new, EntryStatus::IndexNew);
    push_if(&mut statuses, flags.index_modified, EntryStatus::IndexModified);
    push_if(&mut statuses, flags.index_deleted, EntryStatus::IndexDeleted);
    push_if(&mut statuses, flags.index_renamed, EntryStatus::IndexRenamed);
    push_if(&mut statuses, flags.index_typechange, EntryStatus::IndexTypeChange);
    push_if(&mut statuses, flags.wt_new, EntryStatus::WorktreeNew);
    push_if(&mut statuses, flags.wt_modified, EntryStatus::WorktreeModified);
    push_if(&mut statuses, flags.wt_deleted, EntryStatus::WorktreeDeleted);
    push_if(&mut statuses, flags.wt_renamed, EntryStatus::WorktreeRenamed);
    push_if(&mut statuses, flags.wt_typechange, EntryStatus::WorktreeTypeChange);
    push_if(&mut statuses, flags.ignored, EntryStatus::Ignored);
    statuses
}

/// Repository status information, partitioned for display.
#[derive(Debug, Clone, PartialEq)]
pub struct Status {
    pub staged: Vec<StatusEntry>,
    pub unstaged: Vec<StatusEntry>,
    pub untracked: Vec<StatusEntry>,
    pub conflicted: Vec<StatusEntry>,
}

/// Which bucket one entry status lands in: staged changes, untracked files,
/// other unstaged changes, or none at all (ignored entries are dropped).
pub open spec fn staged_bucket(s: EntryStatus) -> bool {
    is_staged_spec(s)
}

pub open spec fn untracked_bucket(s: EntryStatus) -> bool {
    !is_staged_spec(s) && s == EntryStatus::WorktreeNew
}

pub open spec fn unstaged_bucket(s: EntryStatus) -> bool {
    !is_staged_spec(s) && s != EntryStatus::WorktreeNew && is_unstaged_spec(s)
}

/// The entries, in order, that a status list contributes to one bucket.
pub open spec fn bucket_entries(
    statuses: Seq<EntryStatus>,
    path: String,
    in_bucket: spec_fn(EntryStatus) -> bool,
) -> Seq<StatusEntry>
    decreases statuses.len(),
{
    if statuses.len() == 0 {
        Seq::empty()
    } else {
        bucket_entries(statuses.drop_last(), path, in_bucket) + (if in_bucket(statuses.last()) {
            seq![StatusEntry { path: path, status: statuses.last(), index_to_workdir: false }]
        } else {
            Seq::empty()
        })
    }
}

impl Status {
    pub fn new() -> (r: Self)
        ensures
            r.staged@ == Seq::<StatusEntry>::empty(),
            r.unstaged@ == Seq::<StatusEntry>::empty(),
            r.untracked@ == Seq::<StatusEntry>::empty(),
            r.conflicted@ == Seq::<StatusEntry>::empty(),
    {
        Status {
            staged: Vec::new(),
            unstaged: Vec::new(),
            untracked: Vec::new(),
            conflicted: Vec::new(),
        }
    }

    /// Total count of changes, stopping at usize::MAX.
    pub fn total_count(&self) -> (r: usize)
        ensures
            r == sat_usize(
                self.staged@.len() + self.unstaged@.len() + self.untracked@.len()
                    + self.conflicted@.len() as int,
            ),
    {
        sat_add(
            sat_add(sat_add(self.staged.len(), self.unstaged.len()), self.untracked.len()),
            self.conflicted.len(),
        )
    }

    /// Whether there are any changes at all.
    pub fn has_changes(&self) -> (r: bool)
        ensures
            r == (self.staged@.len() > 0 || self.unstaged@.len() > 0 || self.untracked@.len() > 0
                || self.conflicted@.len() > 0),
    {
        !self.staged.is_empty() || !self.unstaged.is_empty() || !self.untracked.is_empty()
            || !self.conflicted.is_empty()
    }

    /// Files one backend status report for `path` under the right headings:
    /// a conflict goes to the conflicted list alone; otherwise index
    /// changes go to staged, a new worktree file to untracked, and other
    /// worktree changes to unstaged. Ignored entries are dropped.
    pub fn record(&mut self, path: String, flags: StatusFlags)
        ensures
            flags.conflicted ==> {
                &&& final(self).conflicted@ == old(self).conflicted@.push(
                    (StatusEntry {
                        path: path,
                        status: EntryStatus::Conflicted,
                        index_to_workdir: false,
                    }),
                )
                &&& final(self).staged@ == old(self).staged@
                &&& final(self).unstaged@ == old(self).unstaged@
                &&& final(self).untracked@ == old(self).untracked@
            },
            !flags.conflicted ==> {
                &&& final(self).conflicted@ == old(self).conflicted@
                &&& final(self).staged@ == old(self).staged@ + bucket_entries(
                    parse_flags_spec(flags),
                    path,
                    |s: EntryStatus| staged_bucket(s),
                )
                &&& final(self).untracked@ == old(self).untracked@ + bucket_entries(
                    parse_flags_spec(flags),
                    path,
                    |s: EntryStatus| untracked_bucket(s),
                )
                &&& final(self).unstaged@ == old(self).unstaged@ + bucket_entries(
                    parse_flags_spec(flags),
                    path,
                    |s: EntryStatus| unstaged_bucket(s),
                )
            },
    {
        let statuses = parse_status_flags(flags);
        let ghost all = parse_flags_spec(flags);
        let mut i: usize = 0;
        while i < statuses.len()
            invariant
                0 <= i <= statuses@.len(),
                statuses@ == all,
                flags.conflicted ==> statuses@ =~= seq![EntryStatus::Conflicted],
                flags.conflicted && i >= 1 ==> {
                    &&& self.conflicted@ == old(self).conflicted@.push(
                        (StatusEntry {
                            path: path,
                            status: EntryStatus::Conflicted,
                            index_to_workdir: false,
                        }),
                    )
                    &&& self.staged@ == old(self).staged@
                    &&& self.unstaged@ == old(self).unstaged@
                    &&& self.untracked@ == old(self).untracked@
                },
                flags.conflicted && i == 0 ==> *self == *old(self),
                !flags.conflicted ==> {
                    &&& self.conflicted@ == old(self).conflicted@
                    &&& self.staged@ == old(self).staged@ + bucket_entries(
                        all.take(i as int),
                        path,
                        |s: EntryStatus| staged_bucket(s),
                    )
                    &&& self.untracked@ == old(self).untracked@ + bucket_entries(
                        all.take(i as int),
                        path,
                        |s: EntryStatus| untracked_bucket(s),
                    )
                    &&& self.unstaged@ == old(self).unstaged@ + bucket_entries(
                        all.take(i as int),
                        path,
                        |s: EntryStatus| unstaged_bucket(s),
                    )
                },
            decreases statuses@.len() - i,
        {
            let entry_status = statuses[i];
            let entry = StatusEntry::new(path.clone(), entry_status, false);
            proof {
                assert(all.take(i + 1).drop_last() =~= all.take(i as int));
                assert(all.take(i + 1).last() == all[i as int]);
            }
            if flags.conflicted {
                self.conflicted.push(entry);
            } else if entry_status.is_staged() {
                self.staged.push(entry);
            } else if matches!(entry_status, EntryStatus::WorktreeNew) {
                self.untracked.push(entry);
            } else if entry_status.is_unstaged() {
                self.unstaged.push(entry);
            }
            i += 1;
        }
        proof {
            assert(all.take(all.len() as int) =~= all);
        }
    }
}

impl Default for Status {
    fn default() -> (r: Self)
        ensures
            r.staged@ == Seq::<StatusEntry>::empty(),
            r.unstaged@ == Seq::<StatusEntry>::empty(),
            r.untracked@ == Seq::<StatusEntry>::empty(),
            r.conflicted@ == Seq::<StatusEntry>::empty(),
    {
        Status::new()
    }
}

} // verus!
