use temp_cleaner::{
    browser_cache_targets, category_policy, classify_answer, cleanup_sequence, read_confirmation,
    AgeCutoff, Answer, Category, Policy, PREFETCH_MAX_AGE_DAYS,
};

#[test]
fn confirmation_is_case_insensitive_and_trimmed() {
    assert_eq!(read_confirmation("y"), Answer::Yes);
    assert_eq!(read_confirmation("  Y \n"), Answer::Yes);
    assert_eq!(read_confirmation("N\r\n"), Answer::No);
    assert_eq!(read_confirmation("yes"), Answer::Unrecognized);
    assert_eq!(read_confirmation(""), Answer::Unrecognized);
    assert_eq!(read_confirmation("y n"), Answer::Unrecognized);
}

#[test]
fn classify_exact_letters() {
    assert_eq!(classify_answer("y"), Answer::Yes);
    assert_eq!(classify_answer("n"), Answer::No);
    assert_eq!(classify_answer("Y"), Answer::Unrecognized);
    assert_eq!(classify_answer(" y"), Answer::Unrecognized);
}

#[test]
fn categories_in_order() {
    assert_eq!(
        cleanup_sequence(),
        vec![Category::Temp, Category::BrowserCache, Category::Prefetch, Category::Thumbnails]
    );
}

#[test]
fn category_policies() {
    assert_eq!(category_policy(Category::Temp, 5), Policy::Unconditional { recursive: false });
    assert_eq!(category_policy(Category::BrowserCache, 5), Policy::Unconditional { recursive: true });
    assert_eq!(category_policy(Category::Thumbnails, 5), Policy::Unconditional { recursive: false });
    assert_eq!(
        category_policy(Category::Prefetch, 5_000_000),
        Policy::OlderThan { cutoff: AgeCutoff { now_secs: 5_000_000, max_age_secs: 2_592_000 } }
    );
    assert_eq!(PREFETCH_MAX_AGE_DAYS, 30);
}

#[test]
fn browser_targets_table() {
    let t = browser_cache_targets();
    assert_eq!(t.len(), 7);
    assert_eq!(t[0].subpath, "Google/Chrome/User Data/Default/Cache");
    assert_eq!(t[0].label, "Chrome Cache");
    assert_eq!(t[6].subpath, "Opera Software/Opera Stable/Cache");
    assert_eq!(t[6].label, "Opera Cache");
}
