use scap::{
    get_main_display, get_scale_factor, get_targets, is_supported, version_at_least, DisplayInfo,
    EnvError, Target, TargetType, WindowInfo,
};

#[test]
fn version_exact_minimum_is_supported() {
    let host: Vec<u8> = b"12.3\n".to_vec();
    assert!(version_at_least(&host));
}

#[test]
fn version_below_minimum_is_not_supported() {
    let host: Vec<u8> = b"12.2\n".to_vec();
    assert!(!version_at_least(&host));
}

#[test]
fn version_above_minimum_is_supported() {
    let host: Vec<u8> = b"12.4\n".to_vec();
    assert!(version_at_least(&host));
    let host2: Vec<u8> = b"13.0\n".to_vec();
    assert!(version_at_least(&host2));
}

#[test]
fn version_without_trailing_newline_compares_below() {
    // "12.3" is a proper prefix of "12.3\n", so raw lexical comparison
    // puts it below the minimum even though the numeric version matches.
    let host: Vec<u8> = b"12.3".to_vec();
    assert!(!version_at_least(&host));
}

#[test]
fn version_comparison_is_lexical_not_numeric() {
    // Raw byte order: '9' > '1', so "9.0\n" counts as at least "12.3\n".
    let host: Vec<u8> = b"9.0\n".to_vec();
    assert!(version_at_least(&host));
}

#[test]
fn empty_version_is_not_supported() {
    let host: Vec<u8> = Vec::new();
    assert!(!version_at_least(&host));
}

#[test]
fn scale_factor_is_integer_quotient() {
    assert_eq!(get_scale_factor(3840, 1920), 2);
}

#[test]
fn scale_factor_truncates_fractional_ratio() {
    assert_eq!(get_scale_factor(2560, 1920), 1);
}

#[test]
fn scale_factor_of_equal_widths_is_one() {
    assert_eq!(get_scale_factor(1920, 1920), 1);
}

#[test]
fn targets_lists_displays_then_active_windows() {
    let displays = vec![DisplayInfo { id: 1 }, DisplayInfo { id: 42 }];
    let windows = vec![
        WindowInfo { id: 10, title: Some(String::from("Safari")), is_active: true },
        WindowInfo { id: 11, title: None, is_active: true },
        WindowInfo { id: 12, title: Some(String::from("Notes")), is_active: false },
        WindowInfo { id: 13, title: Some(String::new()), is_active: true },
    ];
    let targets = get_targets(&displays, &windows);
    assert_eq!(targets.len(), 5);

    assert_eq!(targets[0].id, 1);
    assert_eq!(targets[0].title, "Display 1");
    assert_eq!(targets[0].target_type, TargetType::Display);

    assert_eq!(targets[1].id, 42);
    assert_eq!(targets[1].title, "Display 42");
    assert_eq!(targets[1].target_type, TargetType::Display);

    assert_eq!(targets[2].id, 10);
    assert_eq!(targets[2].title, "Safari");
    assert_eq!(targets[2].target_type, TargetType::Window);

    assert_eq!(targets[3].id, 11);
    assert_eq!(targets[3].title, "Unknown window");
    assert_eq!(targets[3].target_type, TargetType::Window);

    assert_eq!(targets[4].id, 13);
    assert_eq!(targets[4].title, "Unknown window");
    assert_eq!(targets[4].target_type, TargetType::Window);
}

#[test]
fn inactive_windows_never_appear() {
    let displays: Vec<DisplayInfo> = Vec::new();
    let windows = vec![
        WindowInfo { id: 20, title: Some(String::from("hidden")), is_active: false },
        WindowInfo { id: 21, title: None, is_active: false },
    ];
    let targets = get_targets(&displays, &windows);
    assert!(targets.is_empty());
}

#[test]
fn window_titles_are_never_empty() {
    let displays: Vec<DisplayInfo> = Vec::new();
    let windows = vec![
        WindowInfo { id: 30, title: None, is_active: true },
        WindowInfo { id: 31, title: Some(String::new()), is_active: true },
        WindowInfo { id: 32, title: Some(String::from("x")), is_active: true },
    ];
    let targets = get_targets(&displays, &windows);
    assert_eq!(targets.len(), 3);
    for t in &targets {
        assert!(!t.title.is_empty());
    }
    assert_eq!(targets[0].title, "Unknown window");
    assert_eq!(targets[1].title, "Unknown window");
    assert_eq!(targets[2].title, "x");
}

#[test]
fn empty_enumeration_gives_no_targets() {
    let displays: Vec<DisplayInfo> = Vec::new();
    let windows: Vec<WindowInfo> = Vec::new();
    let targets: Vec<Target> = get_targets(&displays, &windows);
    assert!(targets.is_empty());
}

#[test]
fn display_title_edge_identifiers() {
    let displays = vec![DisplayInfo { id: 0 }, DisplayInfo { id: 4294967295 }];
    let windows: Vec<WindowInfo> = Vec::new();
    let targets = get_targets(&displays, &windows);
    assert_eq!(targets[0].title, "Display 0");
    assert_eq!(targets[1].title, "Display 4294967295");
}

#[test]
fn main_display_found_when_present() {
    let displays = vec![DisplayInfo { id: 1 }, DisplayInfo { id: 2 }, DisplayInfo { id: 3 }];
    let r = get_main_display(2, &displays);
    assert_eq!(r, Ok(DisplayInfo { id: 2 }));
}

#[test]
fn missing_main_display_is_environment_fault() {
    let displays = vec![DisplayInfo { id: 1 }, DisplayInfo { id: 3 }];
    let r = get_main_display(2, &displays);
    assert_eq!(r, Err(EnvError::MainDisplayMissing));
}

#[test]
fn main_display_fault_on_empty_enumeration() {
    let displays: Vec<DisplayInfo> = Vec::new();
    let r = get_main_display(0, &displays);
    assert_eq!(r, Err(EnvError::MainDisplayMissing));
}

#[test]
fn is_supported_answers_on_this_host() {
    // The host's version string is whatever the OS reports; the call must
    // come back with either a verdict or the version-unreadable fault.
    let r = is_supported();
    match r {
        Ok(_) => {}
        Err(e) => assert_eq!(e, EnvError::VersionUnreadable),
    }
}
