use dynamic_hibernate::dbus::notifier::{notification_body, title_for_kind};
use dynamic_hibernate::error::{ErrorKind, ErrorSignal, HibernateError, IntoHibernateError};
use dynamic_hibernate::text::{
    contains_str, decimal_string, parse_u64_str, signed_decimal_string, split_lines,
    split_whitespace, trimmed,
};

#[test]
fn error_codes_follow_declaration_order() {
    assert_eq!(ErrorKind::RequiresRoot.as_u32(), 0);
    assert_eq!(ErrorKind::SwapfileCreationFailed.as_u32(), 3);
    assert_eq!(ErrorKind::ProbeFailed.as_u32(), 10);
    assert_eq!(ErrorKind::ToolNotFound.as_u32(), 11);
    assert_eq!(ErrorKind::Unknown.as_u32(), 12);
}

#[test]
fn error_prints_kind_and_message() {
    let e = HibernateError::new(ErrorKind::ProbeFailed, "failed to read /proc/meminfo".to_string());
    assert_eq!(e.to_display_string(), "[ProbeFailed] failed to read /proc/meminfo");
}

#[test]
fn signal_body_carries_code_and_message() {
    let e = HibernateError::new(ErrorKind::CleanupFailed, "remove swapfile".to_string());
    let sig: ErrorSignal = e.to_signal();
    assert_eq!(sig.kind, ErrorKind::CleanupFailed);
    assert_eq!(sig.as_dbus_body(), (6, "remove swapfile"));
}

#[test]
fn results_gain_an_error_kind() {
    let ok: Result<u8, String> = Ok(7);
    assert_eq!(ok.hibernate_err(ErrorKind::Unknown).unwrap(), 7);
    let bad: Result<u8, String> = Err("permission denied".to_string());
    let e = bad.clone().hibernate_err(ErrorKind::MetadataWriteFailed).unwrap_err();
    assert_eq!(e.kind, ErrorKind::MetadataWriteFailed);
    assert_eq!(e.message, "permission denied");
    let e = bad.hibernate_err_ctx(ErrorKind::CleanupFailed, "open metadata").unwrap_err();
    assert_eq!(e.kind, ErrorKind::CleanupFailed);
    assert_eq!(e.message, "open metadata");
}

#[test]
fn trimming_removes_unicode_whitespace() {
    assert_eq!(trimmed("  lzo\n"), "lzo");
    assert_eq!(trimmed("\u{a0}\u{3000}x y\t"), "x y");
    assert_eq!(trimmed(" \n\t "), "");
}

#[test]
fn words_are_split_on_whitespace_runs() {
    assert_eq!(
        split_whitespace("  /dev/sda2\tpartition   8388604 0  -2 "),
        vec!["/dev/sda2", "partition", "8388604", "0", "-2"]
    );
    assert!(split_whitespace("   ").is_empty());
}

#[test]
fn lines_split_at_line_feeds() {
    assert_eq!(split_lines("a\nb\n"), vec!["a", "b", ""]);
    assert_eq!(split_lines(""), vec![""]);
}

#[test]
fn numbers_parse_as_u64_from_str_does() {
    assert_eq!(parse_u64_str("42"), Some(42));
    assert_eq!(parse_u64_str("+42"), Some(42));
    assert_eq!(parse_u64_str("18446744073709551615"), Some(u64::MAX));
    assert_eq!(parse_u64_str("18446744073709551616"), None);
    assert_eq!(parse_u64_str(""), None);
    assert_eq!(parse_u64_str("+"), None);
    assert_eq!(parse_u64_str("-1"), None);
    assert_eq!(parse_u64_str("12a"), None);
    assert_eq!(parse_u64_str(" 1"), None);
    for s in ["0", "7", "1234567", "+99"] {
        assert_eq!(parse_u64_str(s), s.parse::<u64>().ok());
    }
}

#[test]
fn decimal_formatting_matches_to_string() {
    for n in [0u64, 9, 10, 1234, u64::MAX] {
        assert_eq!(decimal_string(n), n.to_string());
    }
    for n in [0i64, -1, 42, i64::MIN, i64::MAX] {
        assert_eq!(signed_decimal_string(n), n.to_string());
    }
}

#[test]
fn substring_search() {
    assert!(contains_str("/dev/zram0", "/dev/zram"));
    assert!(!contains_str("/dev/sda2", "/dev/zram"));
    assert!(contains_str("abc", ""));
    assert!(!contains_str("ab", "abc"));
}

#[test]
fn notification_titles_follow_codes() {
    assert_eq!(title_for_kind(0), "Hibernate: Root Privileges Required");
    assert_eq!(title_for_kind(3), "Hibernate: Swapfile Creation Failed");
    assert_eq!(title_for_kind(11), "Hibernate: Required Tool Not Found");
    assert_eq!(title_for_kind(12), "Hibernate: Unexpected Error");
    assert_eq!(title_for_kind(99), "Hibernate: Unexpected Error");
    for k in [ErrorKind::RequiresRoot, ErrorKind::ProbeFailed, ErrorKind::Unknown] {
        let t = title_for_kind(k.as_u32());
        assert!(t.starts_with("Hibernate: "));
    }
}

#[test]
fn notification_body_falls_back_on_blank_messages() {
    assert_eq!(notification_body("disk full"), "disk full");
    assert_eq!(
        notification_body("  \n"),
        "Check 'journalctl -u dynamic-hibernate-prepare' for details."
    );
    assert_eq!(
        notification_body(""),
        "Check 'journalctl -u dynamic-hibernate-prepare' for details."
    );
}

#[test]
fn every_kind_has_its_own_title() {
    let kinds = [
        ErrorKind::RequiresRoot,
        ErrorKind::DiskSpaceInsufficient,
        ErrorKind::SwapfileActivationFailed,
        ErrorKind::SwapfileCreationFailed,
        ErrorKind::ResumeConfigFailed,
        ErrorKind::MetadataWriteFailed,
        ErrorKind::CleanupFailed,
        ErrorKind::DeviceLookupFailed,
        ErrorKind::CompressorMismatch,
        ErrorKind::SubvolumePreparationFailed,
        ErrorKind::ProbeFailed,
        ErrorKind::ToolNotFound,
        ErrorKind::Unknown,
    ];
    let titles: Vec<&str> = kinds.iter().map(|k| title_for_kind(k.as_u32())).collect();
    for i in 0..titles.len() {
        assert_eq!(kinds[i].as_u32(), i as u32);
        for j in 0..i {
            assert_ne!(titles[i], titles[j]);
        }
    }
}
