use vstd::prelude::*;
use crate::pass::Policy;
use crate::policy::{AgeCutoff, SECS_PER_DAY};

verus! {

/// The system-wide temporary directory.
pub const SYSTEM_TEMP_DIR: &'static str = "C:\\Windows\\Temp";

/// The system prefetch directory.
pub const PREFETCH_DIR: &'static str = "C:\\Windows\\Prefetch";

/// Prefetch files younger than this many days are kept.
pub const PREFETCH_MAX_AGE_DAYS: u64 = 30;

/// The directory of browser profiles of the browser whose cache lives under a
/// profile-named subdirectory, relative to the local application data.
pub const PROFILES_SUBPATH: &'static str = "Mozilla/Firefox/Profiles";

/// The cache directory inside each such profile.
pub const PROFILE_CACHE_DIR: &'static str = "cache2";

/// The label shown before cleaning a profile's cache.
pub const PROFILE_CACHE_LABEL: &'static str = "Firefox Cache";

/// The thumbnail cache, relative to the local application data.
pub const THUMBNAIL_SUBPATH: &'static str = "Microsoft/Windows/Explorer";

/// One source of cleanup targets.
#[derive(Clone, Copy, Debug, PartialEq, Eq, Structural)]
pub enum Category {
    Temp,
    BrowserCache,
    Prefetch,
    Thumbnails,
}

/// A fixed cache directory below the local application data, with the name
/// shown when it is cleaned.
#[derive(Clone, Copy, Debug)]
pub struct CacheTarget {
    pub subpath: &'static str,
    pub label: &'static str,
}

/// The policy with which a category is cleaned.
pub open spec fn policy_for(c: Category, now_secs: u64) -> Policy {
    match c {
        Category::Temp => Policy::Unconditional { recursive: false },
        Category::BrowserCache => Policy::Unconditional { recursive: true },
        Category::Prefetch => Policy::OlderThan {
            cutoff: AgeCutoff {
                now_secs,
                max_age_secs: (PREFETCH_MAX_AGE_DAYS * SECS_PER_DAY) as u64,
            },
        },
        Category::Thumbnails => Policy::Unconditional { recursive: false },
    }
}

/// The categories in the order in which a run cleans them.
pub fn cleanup_sequence() -> (r: Vec<Category>)
    ensures
        r@ == seq![Category::Temp, Category::BrowserCache, Category::Prefetch, Category::Thumbnails],
{
    let r = vec![Category::Temp, Category::BrowserCache, Category::Prefetch, Category::Thumbnails];
    assert(r@ =~= seq![Category::Temp, Category::BrowserCache, Category::Prefetch, Category::Thumbnails]);
    r
}

/// The policy of a category: temporary directories and the thumbnail cache
/// are cleaned of files only, browser caches recursively, and prefetch files
/// only when older than the prefetch age limit at `now_secs`.
pub fn category_policy(c: Category, now_secs: u64) -> (r: Policy)
    ensures
        r == policy_for(c, now_secs),
{
    match c {
        Category::Temp => Policy::Unconditional { recursive: false },
        Category::BrowserCache => Policy::Unconditional { recursive: true },
        Category::Prefetch => Policy::OlderThan {
            cutoff: AgeCutoff::new(now_secs, PREFETCH_MAX_AGE_DAYS),
        },
        Category::Thumbnails => Policy::Unconditional { recursive: false },
    }
}

/// The browser cache directories that are cleaned recursively.
pub fn browser_cache_targets() -> (r: Vec<CacheTarget>)
    ensures
        r@.len() == 7,
        r@[0].subpath@ == "Google/Chrome/User Data/Default/Cache"@,
        r@[1].subpath@ == "Google/Chrome/User Data/Default/Code Cache"@,
        r@[2].subpath@ == "Microsoft/Edge/User Data/Default/Cache"@,
        r@[3].subpath@ == "Microsoft/Edge/User Data/Default/Code Cache"@,
        r@[4].subpath@ == "BraveSoftware/Brave-Browser/User Data/Default/Cache"@,
        r@[5].subpath@ == "BraveSoftware/Brave-Browser/User Data/Default/Code Cache"@,
        r@[6].subpath@ == "Opera Software/Opera Stable/Cache"@,
        r@[0].label@ == "Chrome Cache"@,
        r@[1].label@ == "Chrome Code Cache"@,
        r@[2].label@ == "Edge Cache"@,
        r@[3].label@ == "Edge Code Cache"@,
        r@[4].label@ == "Brave Cache"@,
        r@[5].label@ == "Brave Code Cache"@,
        r@[6].label@ == "Opera Cache"@,
{
    vec![
        CacheTarget { subpath: "Google/Chrome/User Data/Default/Cache", label: "Chrome Cache" },
        CacheTarget { subpath: "Google/Chrome/User Data/Default/Code Cache", label: "Chrome Code Cache" },
        CacheTarget { subpath: "Microsoft/Edge/User Data/Default/Cache", label: "Edge Cache" },
        CacheTarget { subpath: "Microsoft/Edge/User Data/Default/Code Cache", label: "Edge Code Cache" },
        CacheTarget { subpath: "BraveSoftware/Brave-Browser/User Data/Default/Cache", label: "Brave Cache" },
        CacheTarget {
            subpath: "BraveSoftware/Brave-Browser/User Data/Default/Code Cache",
            label: "Brave Code Cache",
        },
        CacheTarget { subpath: "Opera Software/Opera Stable/Cache", label: "Opera Cache" },
    ]
}

} // verus!
