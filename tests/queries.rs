use desktop_shell::platform::{platform, Platform};
use desktop_shell::version::{app_version, APP_VERSION};

const ALL: [Platform; 10] = [
    Platform::Linux,
    Platform::Macos,
    Platform::Ios,
    Platform::Freebsd,
    Platform::Dragonfly,
    Platform::Netbsd,
    Platform::Openbsd,
    Platform::Solaris,
    Platform::Android,
    Platform::Windows,
];

#[test]
fn app_version_is_configured_release() {
    assert_eq!(app_version(), "0.1.0");
    assert_eq!(app_version(), APP_VERSION);
}

#[test]
fn app_version_repeats() {
    assert_eq!(app_version(), app_version());
}

#[test]
fn app_version_has_three_numbers() {
    let v = app_version();
    let parts: Vec<&str> = v.split('.').collect();
    assert_eq!(parts.len(), 3);
    for part in parts {
        assert!(!part.is_empty());
        assert!(part.chars().all(|c| c.is_ascii_digit()));
    }
}

#[test]
fn platform_reports_host_identifier() {
    assert_eq!(platform(Platform::Linux), "linux");
    assert_eq!(platform(Platform::Macos), "macos");
    assert_eq!(platform(Platform::Windows), "windows");
    assert_eq!(platform(Platform::Android), "android");
    assert_eq!(platform(Platform::Ios), "ios");
}

#[test]
fn platform_repeats() {
    for p in ALL {
        assert_eq!(platform(p), platform(p));
    }
}

#[test]
fn identifiers_are_nonempty_and_distinct() {
    for (i, p) in ALL.iter().enumerate() {
        assert!(!p.identifier().is_empty());
        for q in &ALL[i + 1..] {
            assert_ne!(p.identifier(), q.identifier());
        }
    }
}

#[test]
fn identifier_round_trip() {
    for p in ALL {
        assert_eq!(Platform::from_identifier(&p.identifier()), Some(p));
    }
    assert_eq!(Platform::from_identifier("freebsd"), Some(Platform::Freebsd));
    assert_eq!(Platform::from_identifier("dragonfly"), Some(Platform::Dragonfly));
}

#[test]
fn unknown_identifier_is_rejected() {
    assert_eq!(Platform::from_identifier("plan9"), None);
    assert_eq!(Platform::from_identifier(""), None);
    assert_eq!(Platform::from_identifier("Linux"), None);
    assert_eq!(Platform::from_identifier("linux "), None);
    assert_eq!(Platform::from_identifier("linu"), None);
}
