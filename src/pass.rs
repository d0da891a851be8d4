use vstd::prelude::*;
use crate::policy::{
    age_filtered_action, decide_age_filtered, decide_unconditional, unconditional_action,
    AgeCutoff, EntryAction, EntryInfo, EntryKind,
};
use crate::stats::{apply_all, DeletionOutcome, StatsModel};

verus! {

/// Which of the two cleaners runs over a directory.
#[derive(Clone, Copy, Debug, PartialEq, Eq, Structural)]
pub enum Policy {
    /// Delete every file; with `recursive`, also clean and remove each
    /// subdirectory.
    Unconditional { recursive: bool },
    /// Delete only files older than the cutoff; never descend.
    OlderThan { cutoff: AgeCutoff },
}

/// The action that `p` takes on entry `e`.
pub open spec fn policy_action(p: Policy, e: EntryInfo) -> EntryAction {
    match p {
        Policy::Unconditional { recursive } => unconditional_action(e, recursive),
        Policy::OlderThan { cutoff } => age_filtered_action(e, cutoff),
    }
}

/// A listing as a sequence; `None` where the directory could not be read.
pub open spec fn listing_view(listing: Option<Vec<EntryInfo>>) -> Option<Seq<EntryInfo>> {
    match listing {
        Some(v) => Some(v@),
        None => None,
    }
}

/// The actions of one pass: one per entry, in order, and none at all where
/// the directory could not be enumerated.
pub open spec fn planned(listing: Option<Seq<EntryInfo>>, p: Policy) -> Seq<EntryAction> {
    match listing {
        Some(es) => es.map_values(|e: EntryInfo| policy_action(p, e)),
        None => Seq::empty(),
    }
}

/// The delete attempts of a pass and their results: one outcome for each
/// file deletion in `plan`, with the matching entry of `removed`. The other
/// actions record nothing; in particular a failure to remove a cleaned
/// subdirectory is not an error.
pub open spec fn outcomes_of(plan: Seq<EntryAction>, removed: Seq<bool>) -> Seq<DeletionOutcome>
    decreases plan.len(),
{
    if plan.len() == 0 {
        Seq::empty()
    } else {
        let rest = outcomes_of(plan.drop_last(), removed.take(plan.len() - 1));
        match plan.last() {
            EntryAction::DeleteFile { size } => rest.push(
                DeletionOutcome { size, removed: removed[plan.len() - 1] },
            ),
            _ => rest,
        }
    }
}

impl Policy {
    /// Decides what this policy does with one entry.
    pub fn decide(&self, e: &EntryInfo) -> (r: EntryAction)
        ensures
            r == policy_action(*self, *e),
    {
        match self {
            Policy::Unconditional { recursive } => decide_unconditional(e, *recursive),
            Policy::OlderThan { cutoff } => decide_age_filtered(e, cutoff),
        }
    }
}

/// Plans one pass over a directory listing.
pub fn plan_pass(listing: &Option<Vec<EntryInfo>>, p: &Policy) -> (r: Vec<EntryAction>)
    ensures
        r@ == planned(listing_view(*listing), *p),
{
    let mut r: Vec<EntryAction> = Vec::new();
    match listing {
        Some(es) => {
            let mut i: usize = 0;
            while i < es.len()
                invariant
                    0 <= i <= es.len(),
                    r@ == es@.take(i as int).map_values(|e: EntryInfo| policy_action(*p, e)),
                decreases es.len() - i,
            {
                let a = p.decide(&es[i]);
                r.push(a);
                i = i + 1;
                assert(r@ =~= es@.take(i as int).map_values(|e: EntryInfo| policy_action(*p, e)));
            }
            assert(es@.take(es.len() as int) =~= es@);
        },
        None => {},
    }
    assert(r@ =~= planned(listing_view(*listing), *p));
    r
}

/// Pairs each file deletion of `plan` with its result in `removed`.
pub fn pass_outcomes(plan: &Vec<EntryAction>, removed: &Vec<bool>) -> (r: Vec<DeletionOutcome>)
    requires
        removed.len() == plan.len(),
    ensures
        r@ == outcomes_of(plan@, removed@),
{
    let mut r: Vec<DeletionOutcome> = Vec::new();
    let mut i: usize = 0;
    while i < plan.len()
        invariant
            0 <= i <= plan.len(),
            removed.len() == plan.len(),
            r@ == outcomes_of(plan@.take(i as int), removed@.take(i as int)),
        decreases plan.len() - i,
    {
        let ghost pre = plan@.take(i as int + 1);
        proof {
            assert(pre.drop_last() =~= plan@.take(i as int));
            assert(removed@.take(i as int + 1).take(i as int) =~= removed@.take(i as int));
        }
        match plan[i] {
            EntryAction::DeleteFile { size } => {
                r.push(DeletionOutcome { size, removed: removed[i] });
            },
            _ => {},
        }
        i = i + 1;
    }
    assert(plan@.take(plan.len() as int) =~= plan@);
    assert(removed@.take(plan.len() as int) =~= removed@);
    r
}

/// A directory that cannot be enumerated yields no action and no outcome,
/// and leaves the statistics exactly as they were.
pub proof fn law_unreadable_directory_changes_nothing(p: Policy, m: StatsModel)
    ensures
        planned(None, p) == Seq::<EntryAction>::empty(),
        outcomes_of(planned(None, p), Seq::empty()) == Seq::<DeletionOutcome>::empty(),
        apply_all(m, outcomes_of(planned(None, p), Seq::empty())) == m,
{
    assert(outcomes_of(planned(None, p), Seq::empty()) =~= Seq::<DeletionOutcome>::empty());
}

/// The unconditional cleaner attempts to delete every file of a listing
/// whose size could be read; with recursion it cleans and then removes
/// every subdirectory, without it it leaves them alone.
pub proof fn law_unconditional_pass(es: Seq<EntryInfo>, recursive: bool, i: int)
    requires
        0 <= i < es.len(),
    ensures
        planned(Some(es), Policy::Unconditional { recursive }).len() == es.len(),
        (es[i].kind == EntryKind::File && es[i].facts.is_some()) ==> planned(
            Some(es),
            Policy::Unconditional { recursive },
        )[i] == (EntryAction::DeleteFile { size: es[i].facts.unwrap().size }),
        es[i].kind == EntryKind::Directory && recursive ==> planned(
            Some(es),
            Policy::Unconditional { recursive },
        )[i] == EntryAction::CleanSubdirectory,
        es[i].kind == EntryKind::Directory && !recursive ==> planned(
            Some(es),
            Policy::Unconditional { recursive },
        )[i] == EntryAction::Leave,
{
}

/// The age-filtered cleaner leaves every subdirectory of a listing, and
/// everything in it, untouched.
pub proof fn law_age_filtered_pass(es: Seq<EntryInfo>, cutoff: AgeCutoff, i: int)
    requires
        0 <= i < es.len(),
    ensures
        planned(Some(es), Policy::OlderThan { cutoff }).len() == es.len(),
        es[i].kind != EntryKind::File ==> planned(Some(es), Policy::OlderThan { cutoff })[i]
            == EntryAction::Leave,
{
}

} // verus!
