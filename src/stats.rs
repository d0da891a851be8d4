use vstd::prelude::*;

verus! {

/// Aggregate outcome of a cleanup run.
pub struct CleanupStats {
    /// Number of files that were removed.
    pub files_deleted: u64,
    /// Sum of the byte sizes of the removed files.
    pub bytes_freed: u64,
    /// Number of delete attempts that failed.
    pub errors: u64,
}

/// The result of one attempt to delete a file of a known size.
#[derive(Clone, Copy, Debug, PartialEq, Eq, Structural)]
pub struct DeletionOutcome {
    pub size: u64,
    pub removed: bool,
}

/// The counters as mathematical integers.
pub struct StatsModel {
    pub files_deleted: int,
    pub bytes_freed: int,
    pub errors: int,
}

/// The effect of recording one outcome.
pub open spec fn apply_outcome(m: StatsModel, o: DeletionOutcome) -> StatsModel {
    if o.removed {
        StatsModel {
            files_deleted: m.files_deleted + 1,
            bytes_freed: m.bytes_freed + o.size,
            errors: m.errors,
        }
    } else {
        StatsModel { files_deleted: m.files_deleted, bytes_freed: m.bytes_freed, errors: m.errors + 1 }
    }
}

/// The effect of recording the outcomes in order.
pub open spec fn apply_all(m: StatsModel, os: Seq<DeletionOutcome>) -> StatsModel
    decreases os.len(),
{
    if os.len() == 0 {
        m
    } else {
        apply_outcome(apply_all(m, os.drop_last()), os.last())
    }
}

/// How many of the outcomes are successful deletions.
pub open spec fn removed_count(os: Seq<DeletionOutcome>) -> int
    decreases os.len(),
{
    if os.len() == 0 {
        0
    } else {
        removed_count(os.drop_last()) + if os.last().removed { 1int } else { 0int }
    }
}

/// Sum of the sizes of the successfully deleted files.
pub open spec fn removed_bytes(os: Seq<DeletionOutcome>) -> int
    decreases os.len(),
{
    if os.len() == 0 {
        0
    } else {
        removed_bytes(os.drop_last()) + if os.last().removed { os.last().size as int } else { 0int }
    }
}

/// How many of the outcomes are failed delete attempts.
pub open spec fn failed_count(os: Seq<DeletionOutcome>) -> int
    decreases os.len(),
{
    if os.len() == 0 {
        0
    } else {
        failed_count(os.drop_last()) + if os.last().removed { 0int } else { 1int }
    }
}

/// The zero accumulator.
pub open spec fn zero_model() -> StatsModel {
    StatsModel { files_deleted: 0, bytes_freed: 0, errors: 0 }
}

/// Every counter fits in a `u64`.
pub open spec fn fits_u64(m: StatsModel) -> bool {
    0 <= m.files_deleted <= u64::MAX && 0 <= m.bytes_freed <= u64::MAX && 0 <= m.errors <= u64::MAX
}

/// Recording a sequence of outcomes adds the number of successes to the
/// deleted-file count, the sum of their sizes to the freed bytes, and the
/// number of failures to the error count.
pub proof fn lemma_apply_all_closed_form(m: StatsModel, os: Seq<DeletionOutcome>)
    ensures
        apply_all(m, os) == (StatsModel {
            files_deleted: m.files_deleted + removed_count(os),
            bytes_freed: m.bytes_freed + removed_bytes(os),
            errors: m.errors + failed_count(os),
        }),
    decreases os.len(),
{
    if os.len() > 0 {
        lemma_apply_all_closed_form(m, os.drop_last());
    }
}

/// The three tallies of a prefix never exceed those of the whole sequence.
pub proof fn lemma_prefix_tallies(os: Seq<DeletionOutcome>, i: int)
    requires
        0 <= i <= os.len(),
    ensures
        0 <= removed_count(os.take(i)) <= removed_count(os),
        0 <= removed_bytes(os.take(i)) <= removed_bytes(os),
        0 <= failed_count(os.take(i)) <= failed_count(os),
    decreases os.len(),
{
    if i == os.len() {
        assert(os.take(i) =~= os);
        lemma_tallies_nonneg(os);
    } else {
        lemma_prefix_tallies(os.drop_last(), i);
        assert(os.drop_last().take(i) =~= os.take(i));
    }
}

/// The tallies are never negative.
pub proof fn lemma_tallies_nonneg(os: Seq<DeletionOutcome>)
    ensures
        removed_count(os) >= 0,
        removed_bytes(os) >= 0,
        failed_count(os) >= 0,
    decreases os.len(),
{
    if os.len() > 0 {
        lemma_tallies_nonneg(os.drop_last());
    }
}

/// Starting from a fresh accumulator, after recording any sequence of
/// outcomes, the deleted-file count is the number of successful deletions,
/// the freed bytes are the sum of their sizes, and the error count is the
/// number of failures.
pub proof fn law_tally_from_fresh(os: Seq<DeletionOutcome>)
    ensures
        apply_all(zero_model(), os).files_deleted == removed_count(os),
        apply_all(zero_model(), os).bytes_freed == removed_bytes(os),
        apply_all(zero_model(), os).errors == failed_count(os),
{
    lemma_apply_all_closed_form(zero_model(), os);
}

/// Recording an outcome never decreases a counter, and recording a failure
/// leaves the deleted-file count and the freed bytes as they were.
pub proof fn law_recording_is_monotone(m: StatsModel, o: DeletionOutcome)
    ensures
        apply_outcome(m, o).files_deleted >= m.files_deleted,
        apply_outcome(m, o).bytes_freed >= m.bytes_freed,
        apply_outcome(m, o).errors >= m.errors,
        !o.removed ==> apply_outcome(m, o).files_deleted == m.files_deleted,
        !o.removed ==> apply_outcome(m, o).bytes_freed == m.bytes_freed,
{
}

impl CleanupStats {
    pub open spec fn model(&self) -> StatsModel {
        StatsModel {
            files_deleted: self.files_deleted as int,
            bytes_freed: self.bytes_freed as int,
            errors: self.errors as int,
        }
    }

    /// A fresh accumulator with every counter at zero.
    pub fn new() -> (r: Self)
        ensures
            r.model() == zero_model(),
            r.files_deleted == 0,
            r.bytes_freed == 0,
            r.errors == 0,
    {
        CleanupStats { files_deleted: 0, bytes_freed: 0, errors: 0 }
    }

    /// Records the successful deletion of a file of `size` bytes.
    pub fn add_file(&mut self, size: u64)
        requires
            old(self).files_deleted < u64::MAX,
            old(self).bytes_freed + size <= u64::MAX,
        ensures
            final(self).model() == apply_outcome(old(self).model(), DeletionOutcome { size, removed: true }),
            final(self).files_deleted == old(self).files_deleted + 1,
            final(self).bytes_freed == old(self).bytes_freed + size,
            final(self).errors == old(self).errors,
    {
        self.files_deleted = self.files_deleted + 1;
        self.bytes_freed = self.bytes_freed + size;
    }

    /// Records a failed delete attempt.
    pub fn add_error(&mut self)
        requires
            old(self).errors < u64::MAX,
        ensures
            final(self).model() == apply_outcome(old(self).model(), DeletionOutcome { size: 0, removed: false }),
            final(self).files_deleted == old(self).files_deleted,
            final(self).bytes_freed == old(self).bytes_freed,
            final(self).errors == old(self).errors + 1,
    {
        self.errors = self.errors + 1;
    }

    /// Records the outcome of one delete attempt: a success adds the file and
    /// its size, a failure adds an error.
    pub fn record(&mut self, o: DeletionOutcome)
        requires
            fits_u64(apply_outcome(old(self).model(), o)),
        ensures
            final(self).model() == apply_outcome(old(self).model(), o),
    {
        if o.removed {
            self.add_file(o.size);
        } else {
            self.add_error();
        }
    }

    /// Whether recording `os` keeps every counter within `u64`.
    pub fn can_record(&self, os: &Vec<DeletionOutcome>) -> (r: bool)
        ensures
            r == fits_u64(apply_all(self.model(), os@)),
    {
        let ghost start = self.model();
        proof {
            lemma_apply_all_closed_form(start, os@);
            lemma_tallies_nonneg(os@);
        }
        let mut files: u64 = self.files_deleted;
        let mut bytes: u64 = self.bytes_freed;
        let mut errors: u64 = self.errors;
        let mut i: usize = 0;
        while i < os.len()
            invariant
                0 <= i <= os.len(),
                start == self.model(),
                apply_all(start, os@) == (StatsModel {
                    files_deleted: start.files_deleted + removed_count(os@),
                    bytes_freed: start.bytes_freed + removed_bytes(os@),
                    errors: start.errors + failed_count(os@),
                }),
                (StatsModel { files_deleted: files as int, bytes_freed: bytes as int, errors: errors as int })
                    == apply_all(start, os@.take(i as int)),
            decreases os.len() - i,
        {
            let ghost next = os@.take(i as int + 1);
            proof {
                assert(next.drop_last() =~= os@.take(i as int));
                lemma_apply_all_closed_form(start, next);
                lemma_apply_all_closed_form(start, os@.take(i as int));
                lemma_prefix_tallies(os@, i as int + 1);
            }
            let o = os[i];
            if o.removed {
                if files == u64::MAX || bytes > u64::MAX - o.size {
                    return false;
                }
                files = files + 1;
                bytes = bytes + o.size;
            } else {
                if errors == u64::MAX {
                    return false;
                }
                errors = errors + 1;
            }
            i = i + 1;
        }
        assert(os@.take(os.len() as int) =~= os@);
        true
    }

    /// Records the outcomes in order.
    pub fn record_all(&mut self, os: &Vec<DeletionOutcome>)
        requires
            fits_u64(apply_all(old(self).model(), os@)),
        ensures
            final(self).model() == apply_all(old(self).model(), os@),
            final(self).files_deleted == old(self).files_deleted + removed_count(os@),
            final(self).bytes_freed == old(self).bytes_freed + removed_bytes(os@),
            final(self).errors == old(self).errors + failed_count(os@),
    {
        let ghost start = self.model();
        proof {
            lemma_apply_all_closed_form(start, os@);
        }
        let mut i: usize = 0;
        while i < os.len()
            invariant
                0 <= i <= os.len(),
                start == old(self).model(),
                fits_u64(apply_all(start, os@)),
                apply_all(start, os@) == (StatsModel {
                    files_deleted: start.files_deleted + removed_count(os@),
                    bytes_freed: start.bytes_freed + removed_bytes(os@),
                    errors: start.errors + failed_count(os@),
                }),
                self.model() == apply_all(start, os@.take(i as int)),
            decreases os.len() - i,
        {
            proof {
                let next = os@.take(i as int + 1);
                assert(next.drop_last() =~= os@.take(i as int));
                lemma_apply_all_closed_form(start, next);
                lemma_prefix_tallies(os@, i as int + 1);
            }
            self.record(os[i]);
            i = i + 1;
        }
        assert(os@.take(os.len() as int) =~= os@);
        proof {
            lemma_apply_all_closed_form(start, os@);
        }
    }
}

} // verus!
