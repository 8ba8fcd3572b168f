use glchecklib::types::CreationError;
use glchecklib::types::Diagnostic;
use glchecklib::types::GLChecker;
use glchecklib::types::GlProfile;
use glchecklib::types::LiveContextInfo;
use glchecklib::types::Robustness;

fn checker(
    major: u8,
    minor: u8,
    profile: GlProfile,
    robustness: Robustness,
    extensions: &[&str],
) -> GLChecker {
    GLChecker {
        major_ver: major,
        minor_ver: minor,
        profile,
        robustness,
        extensions: extensions.iter().map(|s| s.to_string()).collect(),
    }
}

fn strings(names: &[&str]) -> Vec<String> {
    names.iter().map(|s| s.to_string()).collect()
}

fn live(
    major: u8,
    minor: u8,
    is_robust: bool,
    is_core: bool,
    is_compat: bool,
    extensions: &[&str],
) -> LiveContextInfo {
    LiveContextInfo {
        actual_major: major,
        actual_minor: minor,
        is_robust,
        is_core,
        is_compat,
        available_extensions: strings(extensions),
    }
}

#[test]
fn version_equal_major_higher_or_equal_minor_passes() {
    let c = checker(3, 3, GlProfile::Core, Robustness::NotRobust, &[]);
    assert!(c.check_version(3, 3));
    assert!(c.check_version(3, 4));
    assert!(c.check_version(3, 255));
}

#[test]
fn version_higher_major_passes() {
    let c = checker(3, 3, GlProfile::Core, Robustness::NotRobust, &[]);
    assert!(c.check_version(4, 0));
    assert!(c.check_version(255, 0));
}

#[test]
fn version_lower_fails() {
    let c = checker(3, 3, GlProfile::Core, Robustness::NotRobust, &[]);
    assert!(!c.check_version(3, 2));
    assert!(!c.check_version(2, 9));
    assert!(!c.check_version(0, 0));
}

#[test]
fn robustness_table_all_twelve_combinations() {
    let hard_not_robust = [Robustness::NotRobust, Robustness::NoError];
    let hard_robust = [
        Robustness::RobustNoResetNotification,
        Robustness::RobustLoseContextOnReset,
    ];
    let best_effort = [
        Robustness::TryRobustNoResetNotification,
        Robustness::TryRobustLoseContextOnReset,
    ];
    for policy in hard_not_robust {
        let c = checker(3, 3, GlProfile::Core, policy, &[]);
        assert!(c.check_robustness(false));
        assert!(!c.check_robustness(true));
    }
    for policy in hard_robust {
        let c = checker(3, 3, GlProfile::Core, policy, &[]);
        assert!(!c.check_robustness(false));
        assert!(c.check_robustness(true));
    }
    for policy in best_effort {
        let c = checker(3, 3, GlProfile::Core, policy, &[]);
        assert!(c.check_robustness(false));
        assert!(c.check_robustness(true));
    }
}

#[test]
fn profile_both_bits_set_fails_for_either_request() {
    let core = checker(3, 3, GlProfile::Core, Robustness::NotRobust, &[]);
    let compat = checker(3, 3, GlProfile::Compatibility, Robustness::NotRobust, &[]);
    assert!(!core.check_profile(true, true));
    assert!(!compat.check_profile(true, true));
}

#[test]
fn profile_single_bit_matches_request_only() {
    let core = checker(3, 3, GlProfile::Core, Robustness::NotRobust, &[]);
    let compat = checker(3, 3, GlProfile::Compatibility, Robustness::NotRobust, &[]);
    assert!(core.check_profile(true, false));
    assert!(!core.check_profile(false, true));
    assert!(compat.check_profile(false, true));
    assert!(!compat.check_profile(true, false));
    assert!(!core.check_profile(false, false));
    assert!(!compat.check_profile(false, false));
}

#[test]
fn extensions_missing_one_reports_exactly_it() {
    let c = checker(3, 3, GlProfile::Core, Robustness::NotRobust, &["A", "B"]);
    let (ok, diags) = c.check_extensions(&strings(&["A"]));
    assert!(!ok);
    assert_eq!(diags, vec![Diagnostic::MissingExtension { name: "B".to_string() }]);
}

#[test]
fn extensions_superset_passes() {
    let c = checker(3, 3, GlProfile::Core, Robustness::NotRobust, &["A", "B"]);
    let (ok, diags) = c.check_extensions(&strings(&["A", "B", "C"]));
    assert!(ok);
    assert!(diags.is_empty());
}

#[test]
fn extensions_empty_requirement_always_passes() {
    let c = checker(3, 3, GlProfile::Core, Robustness::NotRobust, &[]);
    let (ok, diags) = c.check_extensions(&strings(&[]));
    assert!(ok);
    assert!(diags.is_empty());
    let (ok, diags) = c.check_extensions(&strings(&["X", "Y"]));
    assert!(ok);
    assert!(diags.is_empty());
}

#[test]
fn extensions_reports_every_miss_not_just_first() {
    let c = checker(3, 3, GlProfile::Core, Robustness::NotRobust, &["A", "B", "C"]);
    let (ok, diags) = c.check_extensions(&strings(&["B"]));
    assert!(!ok);
    assert_eq!(
        diags,
        vec![
            Diagnostic::MissingExtension { name: "A".to_string() },
            Diagnostic::MissingExtension { name: "C".to_string() },
        ]
    );
}

#[test]
fn extensions_duplicate_requirement_reports_twice() {
    let c = checker(3, 3, GlProfile::Core, Robustness::NotRobust, &["A", "A"]);
    let (ok, diags) = c.check_extensions(&strings(&[]));
    assert!(!ok);
    assert_eq!(
        diags,
        vec![
            Diagnostic::MissingExtension { name: "A".to_string() },
            Diagnostic::MissingExtension { name: "A".to_string() },
        ]
    );
}

#[test]
fn extension_listing_order_and_duplicates_irrelevant() {
    let c = checker(3, 3, GlProfile::Core, Robustness::NotRobust, &["A", "B"]);
    let (ok, diags) = c.check_extensions(&strings(&["B", "A"]));
    assert!(ok);
    assert!(diags.is_empty());
    let (ok, diags) = c.check_extensions(&strings(&["A", "A", "B", "B"]));
    assert!(ok);
    assert!(diags.is_empty());
}

#[test]
fn sanity_core_below_three_fails() {
    let c = checker(2, 1, GlProfile::Core, Robustness::NotRobust, &[]);
    assert!(!c.check_sanity());
}

#[test]
fn sanity_compatibility_below_three_passes() {
    let c = checker(2, 1, GlProfile::Compatibility, Robustness::NotRobust, &[]);
    assert!(c.check_sanity());
}

#[test]
fn sanity_three_and_up_passes_either_profile() {
    assert!(checker(3, 0, GlProfile::Core, Robustness::NotRobust, &[]).check_sanity());
    assert!(checker(3, 0, GlProfile::Compatibility, Robustness::NotRobust, &[]).check_sanity());
    assert!(checker(4, 6, GlProfile::Core, Robustness::NotRobust, &[]).check_sanity());
}

#[test]
fn insane_requirement_fails_whole_check_before_any_outcome() {
    let c = checker(2, 0, GlProfile::Core, Robustness::NotRobust, &[]);
    let good = live(4, 6, false, true, false, &[]);
    let (ok, diags) = c.check(&Ok(good));
    assert!(!ok);
    assert_eq!(diags, vec![Diagnostic::CoreProfileBeforeVersion3]);
    let (ok, diags) = c.check(&Err(CreationError::NotSupported));
    assert!(!ok);
    assert_eq!(diags, vec![Diagnostic::CoreProfileBeforeVersion3]);
}

#[test]
fn end_to_end_matching_context_passes() {
    let c = checker(
        3,
        3,
        GlProfile::Core,
        Robustness::NotRobust,
        &["GL_ARB_texture_float"],
    );
    let info = live(
        3,
        3,
        false,
        true,
        false,
        &["GL_ARB_depth_clamp", "GL_ARB_texture_float", "GL_ARB_sync"],
    );
    let (ok, diags) = c.check(&Ok(info));
    assert!(ok);
    assert!(diags.is_empty());
}

#[test]
fn end_to_end_missing_extension_fails_and_names_it() {
    let c = checker(
        3,
        3,
        GlProfile::Core,
        Robustness::NotRobust,
        &["GL_ARB_texture_float"],
    );
    let info = live(3, 3, false, true, false, &["GL_ARB_depth_clamp", "GL_ARB_sync"]);
    let (ok, diags) = c.check(&Ok(info));
    assert!(!ok);
    assert_eq!(
        diags,
        vec![Diagnostic::MissingExtension { name: "GL_ARB_texture_float".to_string() }]
    );
}

#[test]
fn end_to_end_version_not_supported_fails_with_requested_version() {
    let c = checker(
        3,
        3,
        GlProfile::Core,
        Robustness::NotRobust,
        &["GL_ARB_texture_float"],
    );
    let (ok, diags) = c.check(&Err(CreationError::VersionNotSupported));
    assert!(!ok);
    assert_eq!(diags, vec![Diagnostic::VersionNotAvailable { major: 3, minor: 3 }]);
}

#[test]
fn creation_error_classification_covers_every_kind() {
    let c = checker(4, 1, GlProfile::Core, Robustness::NotRobust, &[]);
    assert_eq!(
        c.handle_creation_error(&CreationError::OsError("boom".to_string())),
        Diagnostic::OsError { message: "boom".to_string(), major: 4, minor: 1 }
    );
    assert_eq!(
        c.handle_creation_error(&CreationError::NotSupported),
        Diagnostic::NotAvailable
    );
    assert_eq!(
        c.handle_creation_error(&CreationError::NoBackendAvailable),
        Diagnostic::NotAvailable
    );
    assert_eq!(
        c.handle_creation_error(&CreationError::RobustnessNotSupported),
        Diagnostic::RobustnessNotAvailable
    );
    assert_eq!(
        c.handle_creation_error(&CreationError::VersionNotSupported),
        Diagnostic::VersionNotAvailable { major: 4, minor: 1 }
    );
    assert_eq!(
        c.handle_creation_error(&CreationError::NoAvailablePixelFormat),
        Diagnostic::NoPixelFormat
    );
}

#[test]
fn creation_error_goes_through_check_as_single_diagnostic() {
    let c = checker(3, 2, GlProfile::Compatibility, Robustness::NotRobust, &[]);
    let (ok, diags) = c.check(&Err(CreationError::OsError("no display".to_string())));
    assert!(!ok);
    assert_eq!(
        diags,
        vec![Diagnostic::OsError { message: "no display".to_string(), major: 3, minor: 2 }]
    );
    let (ok, diags) = c.check(&Err(CreationError::RobustnessNotSupported));
    assert!(!ok);
    assert_eq!(diags, vec![Diagnostic::RobustnessNotAvailable]);
    let (ok, diags) = c.check(&Err(CreationError::NoAvailablePixelFormat));
    assert!(!ok);
    assert_eq!(diags, vec![Diagnostic::NoPixelFormat]);
}

#[test]
fn live_checks_run_in_fixed_order_and_stop_at_first_failure() {
    let c = checker(3, 3, GlProfile::Core, Robustness::NotRobust, &["A"]);
    // Everything is wrong at once; only the robustness mismatch is reported.
    let info = live(2, 0, true, false, true, &[]);
    let (ok, diags) = c.check_context(&info);
    assert!(!ok);
    assert_eq!(diags, vec![Diagnostic::WrongRobustness]);
    // Robustness in order; the profile mismatch is next.
    let info = live(2, 0, false, false, true, &[]);
    let (ok, diags) = c.check_context(&info);
    assert!(!ok);
    assert_eq!(diags, vec![Diagnostic::WrongProfile { wanted: GlProfile::Core }]);
    // Profile in order too; the version shortfall is next, extensions unvisited.
    let info = live(2, 0, false, true, false, &[]);
    let (ok, diags) = c.check_context(&info);
    assert!(!ok);
    assert_eq!(
        diags,
        vec![Diagnostic::VersionTooLow {
            actual_major: 2,
            actual_minor: 0,
            required_major: 3,
            required_minor: 3,
        }]
    );
}

#[test]
fn higher_major_version_warns_but_passes() {
    let c = checker(3, 3, GlProfile::Core, Robustness::NotRobust, &[]);
    let info = live(4, 0, false, true, false, &[]);
    let (ok, diags) = c.check(&Ok(info));
    assert!(ok);
    assert_eq!(
        diags,
        vec![Diagnostic::VersionWarning {
            requested_major: 3,
            requested_minor: 3,
            actual_major: 4,
            actual_minor: 0,
        }]
    );
}

#[test]
fn warning_precedes_extension_diagnostics() {
    let c = checker(3, 3, GlProfile::Core, Robustness::NotRobust, &["A", "B"]);
    let info = live(4, 2, false, true, false, &["B"]);
    let (ok, diags) = c.check(&Ok(info));
    assert!(!ok);
    assert_eq!(
        diags,
        vec![
            Diagnostic::VersionWarning {
                requested_major: 3,
                requested_minor: 3,
                actual_major: 4,
                actual_minor: 2,
            },
            Diagnostic::MissingExtension { name: "A".to_string() },
        ]
    );
}

#[test]
fn from_raw_decodes_flag_and_mask_bits() {
    let info = LiveContextInfo::from_raw(4, 6, 0x4, 0x1, strings(&["E"]));
    assert_eq!(info.actual_major, 4);
    assert_eq!(info.actual_minor, 6);
    assert!(info.is_robust);
    assert!(info.is_core);
    assert!(!info.is_compat);
    assert_eq!(info.available_extensions, strings(&["E"]));

    let info = LiveContextInfo::from_raw(3, 1, 0, 0x2, strings(&[]));
    assert!(!info.is_robust);
    assert!(!info.is_core);
    assert!(info.is_compat);

    // A driver may set both profile bits; the snapshot keeps them both and
    // the profile rule then rejects the contradiction.
    let info = LiveContextInfo::from_raw(3, 1, 0xffff_fffb, 0x3, strings(&[]));
    assert!(!info.is_robust);
    assert!(info.is_core);
    assert!(info.is_compat);
}

#[test]
fn both_profile_bits_from_raw_fail_the_check() {
    let c = checker(3, 3, GlProfile::Core, Robustness::NotRobust, &[]);
    let info = LiveContextInfo::from_raw(3, 3, 0, 0x3, strings(&[]));
    let (ok, diags) = c.check(&Ok(info));
    assert!(!ok);
    assert_eq!(diags, vec![Diagnostic::WrongProfile { wanted: GlProfile::Core }]);
}
