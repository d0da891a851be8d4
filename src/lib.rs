//! Decision logic of a temporary-file and cache cleaner.
//!
//! The library holds what the cleaner decides and counts: the statistics
//! accumulator, the per-entry policies of the unconditional and the
//! age-filtered directory cleaner, and the planning and recording of one
//! pass over a directory listing. Reading directories and deleting files is
//! left to the caller, which hands the observations in as plain values.

pub mod confirm;
pub mod pass;
pub mod policy;
pub mod stats;
pub mod targets;

pub use confirm::{classify_answer, read_confirmation, Answer};
pub use pass::{pass_outcomes, plan_pass, Policy};
pub use policy::{
    decide_age_filtered, decide_unconditional, AgeCutoff, EntryAction, EntryInfo, EntryKind,
    FileFacts, SECS_PER_DAY,
};
pub use stats::{CleanupStats, DeletionOutcome};
pub use targets::{
    browser_cache_targets, category_policy, cleanup_sequence, CacheTarget, Category, PREFETCH_DIR,
    PREFETCH_MAX_AGE_DAYS, PROFILES_SUBPATH, PROFILE_CACHE_DIR, PROFILE_CACHE_LABEL, SYSTEM_TEMP_DIR,
    THUMBNAIL_SUBPATH,
};
