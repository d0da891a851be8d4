use vstd::prelude::*;

verus! {

/// Seconds in one day.
pub const SECS_PER_DAY: u64 = 86400;

/// What a directory entry was when it was observed.
#[derive(Clone, Copy, Debug, PartialEq, Eq, Structural)]
pub enum EntryKind {
    File,
    Directory,
    Other,
}

/// What could be read of a file's metadata.
#[derive(Clone, Copy, Debug, PartialEq, Eq, Structural)]
pub struct FileFacts {
    /// Length in bytes.
    pub size: u64,
    /// Last modification, in whole seconds since the Unix epoch, when known.
    pub modified_secs: Option<u64>,
}

/// One observed entry of a directory listing.
#[derive(Clone, Copy, Debug, PartialEq, Eq, Structural)]
pub struct EntryInfo {
    pub kind: EntryKind,
    /// `None` where the metadata could not be read.
    pub facts: Option<FileFacts>,
}

/// What the cleaner does with one entry.
#[derive(Clone, Copy, Debug, PartialEq, Eq, Structural)]
pub enum EntryAction {
    /// Attempt to delete the file, whose size is given.
    DeleteFile { size: u64 },
    /// Clean the subdirectory with the same policy, then try to remove it,
    /// ignoring a failure to do so.
    CleanSubdirectory,
    /// Do nothing.
    Leave,
}

/// The age threshold of one age-filtered pass, fixed once before iterating.
#[derive(Clone, Copy, Debug, PartialEq, Eq, Structural)]
pub struct AgeCutoff {
    /// The time of the snapshot, in seconds since the Unix epoch.
    pub now_secs: u64,
    /// The maximum age that is kept, in seconds.
    pub max_age_secs: u64,
}

/// An entry whose age is strictly greater than the maximum age.
pub open spec fn is_older(c: AgeCutoff, modified_secs: u64) -> bool {
    c.now_secs - modified_secs > c.max_age_secs
}

/// The action of the unconditional cleaner.
pub open spec fn unconditional_action(e: EntryInfo, recursive: bool) -> EntryAction {
    match e.kind {
        EntryKind::File => match e.facts {
            Some(f) => EntryAction::DeleteFile { size: f.size },
            None => EntryAction::Leave,
        },
        EntryKind::Directory => if recursive {
            EntryAction::CleanSubdirectory
        } else {
            EntryAction::Leave
        },
        EntryKind::Other => EntryAction::Leave,
    }
}

/// The action of the age-filtered cleaner: only a file whose modification
/// time is known and older than the cutoff is deleted.
pub open spec fn age_filtered_action(e: EntryInfo, c: AgeCutoff) -> EntryAction {
    match (e.kind, e.facts) {
        (EntryKind::File, Some(f)) => match f.modified_secs {
            Some(m) => if is_older(c, m) {
                EntryAction::DeleteFile { size: f.size }
            } else {
                EntryAction::Leave
            },
            None => EntryAction::Leave,
        },
        _ => EntryAction::Leave,
    }
}

impl AgeCutoff {
    /// The cutoff for files older than `max_age_days` days at time `now_secs`.
    pub fn new(now_secs: u64, max_age_days: u64) -> (r: Self)
        requires
            max_age_days * SECS_PER_DAY <= u64::MAX,
        ensures
            r.now_secs == now_secs,
            r.max_age_secs == max_age_days * SECS_PER_DAY,
    {
        AgeCutoff { now_secs, max_age_secs: max_age_days * SECS_PER_DAY }
    }

    /// Whether a file last modified at `modified_secs` is past the cutoff:
    /// its age is strictly greater than the maximum age. A file modified
    /// after the snapshot has a negative age and is never past it.
    pub fn is_expired(&self, modified_secs: u64) -> (r: bool)
        ensures
            r == is_older(*self, modified_secs),
    {
        modified_secs < self.now_secs && self.now_secs - modified_secs > self.max_age_secs
    }
}

/// Decides what the unconditional cleaner does with one entry.
pub fn decide_unconditional(e: &EntryInfo, recursive: bool) -> (r: EntryAction)
    ensures
        r == unconditional_action(*e, recursive),
{
    match e.kind {
        EntryKind::File => match e.facts {
            Some(f) => EntryAction::DeleteFile { size: f.size },
            None => EntryAction::Leave,
        },
        EntryKind::Directory => if recursive {
            EntryAction::CleanSubdirectory
        } else {
            EntryAction::Leave
        },
        EntryKind::Other => EntryAction::Leave,
    }
}

/// Decides what the age-filtered cleaner does with one entry.
pub fn decide_age_filtered(e: &EntryInfo, c: &AgeCutoff) -> (r: EntryAction)
    ensures
        r == age_filtered_action(*e, *c),
{
    match e.kind {
        EntryKind::File => match e.facts {
            Some(f) => match f.modified_secs {
                Some(m) => if c.is_expired(m) {
                    EntryAction::DeleteFile { size: f.size }
                } else {
                    EntryAction::Leave
                },
                None => EntryAction::Leave,
            },
            None => EntryAction::Leave,
        },
        _ => EntryAction::Leave,
    }
}

/// A file entry whose size and modification time could be read.
pub open spec fn dated_file(size: u64, modified_secs: u64) -> EntryInfo {
    EntryInfo { kind: EntryKind::File, facts: Some(FileFacts { size, modified_secs: Some(modified_secs) }) }
}

/// The age filter deletes a file with known modification time exactly when
/// its age is strictly greater than the maximum age; a file whose age equals
/// the maximum is kept.
pub proof fn law_age_filter_threshold(c: AgeCutoff, size: u64, modified_secs: u64)
    ensures
        c.now_secs - modified_secs > c.max_age_secs ==> age_filtered_action(
            dated_file(size, modified_secs),
            c,
        ) == (EntryAction::DeleteFile { size }),
        c.now_secs - modified_secs <= c.max_age_secs ==> age_filtered_action(
            dated_file(size, modified_secs),
            c,
        ) == EntryAction::Leave,
{
}

/// The age filter never descends into a subdirectory and never touches
/// anything but files.
pub proof fn law_age_filter_never_descends(e: EntryInfo, c: AgeCutoff)
    ensures
        age_filtered_action(e, c) != EntryAction::CleanSubdirectory,
        e.kind != EntryKind::File ==> age_filtered_action(e, c) == EntryAction::Leave,
{
}

/// Without recursion, the unconditional cleaner deletes files only and
/// leaves every subdirectory, with its contents, as it is.
pub proof fn law_non_recursive_deletes_only_files(e: EntryInfo)
    ensures
        e.kind != EntryKind::File ==> unconditional_action(e, false) == EntryAction::Leave,
        unconditional_action(e, false) != EntryAction::CleanSubdirectory,
        (e.kind == EntryKind::File && e.facts.is_some()) ==> unconditional_action(e, false)
            == (EntryAction::DeleteFile { size: e.facts.unwrap().size }),
{
}

/// With recursion, every subdirectory is cleaned and then removed.
pub proof fn law_recursive_cleans_subdirectories(e: EntryInfo)
    ensures
        e.kind == EntryKind::Directory ==> unconditional_action(e, true)
            == EntryAction::CleanSubdirectory,
{
}

} // verus!
