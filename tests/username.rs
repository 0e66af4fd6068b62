use modem::fingerprint::OsFingerprint;
use modem::username::{parse_username, ParseUsernameError};

#[test]
fn plain_user_keeps_default_fingerprint() {
    let (user, fp) = parse_username("modem", OsFingerprint::Windows).unwrap();
    assert_eq!(user, "modem");
    assert_eq!(fp, OsFingerprint::Windows);
}

#[test]
fn fingerprint_suffix_selects_profile() {
    let (user, fp) = parse_username("modem-fingerprint-Linux", OsFingerprint::Windows).unwrap();
    assert_eq!(user, "modem");
    assert_eq!(fp, OsFingerprint::Linux);
}

#[test]
fn every_tag_in_any_case() {
    let cases = [
        ("WINDOWS", OsFingerprint::Windows),
        ("linux", OsFingerprint::Linux),
        ("Android", OsFingerprint::Android),
        ("macOS", OsFingerprint::MacOS),
        ("iOS", OsFingerprint::IOS),
    ];
    for (tag, expected) in cases {
        let input = format!("Modem-fingerprint-{}", tag);
        let (user, fp) = parse_username(&input, OsFingerprint::Linux).unwrap();
        assert_eq!(user, "Modem");
        assert_eq!(fp, expected);
    }
}

#[test]
fn unknown_tag_is_reported_lower_cased() {
    let err = parse_username("modem-fingerprint-BeOS", OsFingerprint::Windows).unwrap_err();
    assert_eq!(err, ParseUsernameError::InvalidFingerprint("beos".to_string()));
    assert_eq!(err.message(), "invalid fingerprint value: beos");
}

#[test]
fn empty_tag_is_invalid() {
    let err = parse_username("modem-fingerprint-", OsFingerprint::Windows).unwrap_err();
    assert_eq!(err, ParseUsernameError::InvalidFingerprint(String::new()));
}

#[test]
fn first_separator_splits() {
    let err = parse_username("a-fingerprint-linux-fingerprint-ios", OsFingerprint::Windows).unwrap_err();
    assert_eq!(err, ParseUsernameError::InvalidFingerprint("linux-fingerprint-ios".to_string()));
}

#[test]
fn round_trip_on_concrete_users() {
    for user in ["", "modem", "a-b", "fingerprint", "x-fingerprint-", "用户"] {
        if user.contains("-fingerprint-") {
            continue;
        }
        let input = format!("{}-fingerprint-android", user);
        let (u, fp) = parse_username(&input, OsFingerprint::Windows).unwrap();
        assert_eq!(u, user);
        assert_eq!(fp, OsFingerprint::Android);
    }
}

#[test]
fn round_trip_fails_where_separator_starts_inside_user() {
    let err = parse_username("x-fingerprint-fingerprint-linux", OsFingerprint::Windows).unwrap_err();
    assert_eq!(err, ParseUsernameError::InvalidFingerprint("fingerprint-linux".to_string()));
}

#[test]
fn non_ascii_user_is_kept() {
    let (user, fp) = parse_username("Ünïcode-fingerprint-IOS", OsFingerprint::Windows).unwrap();
    assert_eq!(user, "Ünïcode");
    assert_eq!(fp, OsFingerprint::IOS);
}

#[test]
fn profile_values() {
    assert_eq!((OsFingerprint::Windows.ttl(), OsFingerprint::Windows.buffer_size()), (128, 65536));
    assert_eq!((OsFingerprint::Linux.ttl(), OsFingerprint::Linux.buffer_size()), (64, 29200));
    assert_eq!((OsFingerprint::Android.ttl(), OsFingerprint::Android.buffer_size()), (64, 44800));
    assert_eq!((OsFingerprint::MacOS.ttl(), OsFingerprint::MacOS.buffer_size()), (64, 65536));
    assert_eq!((OsFingerprint::IOS.ttl(), OsFingerprint::IOS.buffer_size()), (64, 32768));
    assert_eq!(OsFingerprint::MacOS.tag().into_iter().collect::<String>(), "macos");
}
