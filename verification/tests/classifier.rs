use cargo_nnd::debug_info::{classify, DebugInfo, Profile};

#[test]
fn numeric_zero_is_insufficient() {
    assert_eq!(classify(&DebugInfo::N(0)), Some(false));
}

#[test]
fn numeric_one_and_two_are_sufficient() {
    assert_eq!(classify(&DebugInfo::N(1)), Some(true));
    assert_eq!(classify(&DebugInfo::N(2)), Some(true));
}

#[test]
fn boolean_false_is_insufficient() {
    assert_eq!(classify(&DebugInfo::B(false)), Some(false));
}

#[test]
fn boolean_true_is_sufficient() {
    assert_eq!(classify(&DebugInfo::B(true)), Some(true));
}

#[test]
fn string_levels_without_full_line_info_are_insufficient() {
    assert_eq!(classify(&DebugInfo::S("none".to_string())), Some(false));
    assert_eq!(
        classify(&DebugInfo::S("line-directives-only".to_string())),
        Some(false)
    );
    assert_eq!(
        classify(&DebugInfo::S("line-tables-only".to_string())),
        Some(false)
    );
}

#[test]
fn string_levels_limited_and_full_are_sufficient() {
    assert_eq!(classify(&DebugInfo::S("limited".to_string())), Some(true));
    assert_eq!(classify(&DebugInfo::S("full".to_string())), Some(true));
}

#[test]
fn unrecognized_numeric_value_gets_no_verdict() {
    assert_eq!(classify(&DebugInfo::N(3)), None);
    assert_eq!(classify(&DebugInfo::N(u64::MAX)), None);
}

#[test]
fn unrecognized_string_value_gets_no_verdict() {
    assert_eq!(classify(&DebugInfo::S("bogus".to_string())), None);
    assert_eq!(classify(&DebugInfo::S("".to_string())), None);
    assert_eq!(classify(&DebugInfo::S("Full".to_string())), None);
    assert_eq!(classify(&DebugInfo::S("fulll".to_string())), None);
}

#[test]
fn profile_verdict_matches_classifier() {
    let p = Profile {
        debuginfo: DebugInfo::N(1),
    };
    assert!(p.has_enough_debug_info());
    let q = Profile {
        debuginfo: DebugInfo::S("none".to_string()),
    };
    assert!(!q.has_enough_debug_info());
}

#[test]
fn display_renders_the_reported_value() {
    assert_eq!(DebugInfo::N(0).display(), "0");
    assert_eq!(DebugInfo::N(1234567890).display(), "1234567890");
    assert_eq!(DebugInfo::N(u64::MAX).display(), "18446744073709551615");
    assert_eq!(DebugInfo::B(true).display(), "true");
    assert_eq!(DebugInfo::B(false).display(), "false");
    assert_eq!(DebugInfo::S("limited".to_string()).display(), "limited");
}

#[test]
fn debug_info_equality_is_structural() {
    assert_eq!(DebugInfo::N(1), DebugInfo::N(1));
    assert_ne!(DebugInfo::N(1), DebugInfo::N(2));
    assert_ne!(DebugInfo::N(1), DebugInfo::B(true));
    assert_eq!(
        DebugInfo::S("full".to_string()),
        DebugInfo::S("full".to_string())
    );
    assert_ne!(
        DebugInfo::S("full".to_string()),
        DebugInfo::S("none".to_string())
    );
}
