use webbboot_companion::device::{verify_device, VerificationError};
use webbboot_companion::text::{decimal_text, hex4_text, parse_u64, split_text, text_equals, trim_text};

#[test]
fn report_with_mount_point() {
    let d = verify_device("/dev/sdb".to_string(), true, Some("8004304896 vfat /media/usb\n".to_string())).unwrap();
    assert_eq!(d.path, "/dev/sdb");
    assert_eq!(d.size, 8004304896);
    assert_eq!(d.filesystem.as_deref(), Some("vfat"));
    assert!(d.is_mounted);
    assert_eq!(d.mount_points, vec!["/media/usb".to_string()]);
}

#[test]
fn report_without_filesystem() {
    let d = verify_device("/dev/sdc".to_string(), true, Some("4000000000  \n".to_string())).unwrap();
    assert_eq!(d.size, 4000000000);
    assert_eq!(d.filesystem, None);
    assert!(!d.is_mounted);
    assert!(d.mount_points.is_empty());
}

#[test]
fn empty_filesystem_column_does_not_shift_the_mount_point() {
    let d = verify_device("/dev/sdc".to_string(), true, Some("4000000000  /mnt/x\n".to_string())).unwrap();
    assert_eq!(d.filesystem, None);
    assert_eq!(d.mount_points, vec!["/mnt/x".to_string()]);
    assert!(d.is_mounted);
}

#[test]
fn mounted_partitions_make_the_device_mounted() {
    let report = "8004304896  \n4000000000 vfat /media/a\n4004304896 ext4 \n100 vfat /media/b\n";
    let d = verify_device("/dev/sdb".to_string(), true, Some(report.to_string())).unwrap();
    assert_eq!(d.size, 8004304896);
    assert_eq!(d.filesystem, None);
    assert!(d.is_mounted);
    assert_eq!(d.mount_points, vec!["/media/a".to_string(), "/media/b".to_string()]);
}

#[test]
fn empty_report_is_unusable() {
    let e = verify_device("/dev/sdb".to_string(), true, Some(String::new())).unwrap_err();
    assert_eq!(e, VerificationError::InfoUnavailable);
    let e = verify_device("/dev/sdb".to_string(), true, Some("\n".to_string())).unwrap_err();
    assert_eq!(e, VerificationError::InfoUnavailable);
}

#[test]
fn report_size_may_carry_a_plus_sign() {
    let d = verify_device("/dev/sdb".to_string(), true, Some("+5 vfat \n".to_string())).unwrap();
    assert_eq!(d.size, 5);
    assert_eq!(d.filesystem.as_deref(), Some("vfat"));
    assert!(!d.is_mounted);
}

#[test]
fn verification_errors() {
    let e = verify_device("/dev/sdb".to_string(), false, Some("1".to_string())).unwrap_err();
    assert_eq!(e, VerificationError::DeviceNotFound);
    assert_eq!(e.message(), "Device does not exist");
    let e = verify_device("/dev/sdb".to_string(), true, None).unwrap_err();
    assert_eq!(e, VerificationError::InfoUnavailable);
    assert_eq!(e.message(), "Unable to get device information");
    let e = verify_device("/dev/sdb".to_string(), true, Some("vfat 100".to_string())).unwrap_err();
    assert_eq!(e, VerificationError::InfoUnavailable);
}

#[test]
fn u64_parsing() {
    assert_eq!(parse_u64("0"), Some(0));
    assert_eq!(parse_u64("8004304896"), Some(8004304896));
    assert_eq!(parse_u64("18446744073709551615"), Some(u64::MAX));
    assert_eq!(parse_u64("18446744073709551616"), None);
    assert_eq!(parse_u64(""), None);
    assert_eq!(parse_u64("12a"), None);
    assert_eq!(parse_u64("-1"), None);
    assert_eq!(parse_u64("+5"), Some(5));
    assert_eq!(parse_u64("+"), None);
    assert_eq!(parse_u64("++5"), None);
    assert_eq!(parse_u64("+18446744073709551615"), Some(u64::MAX));
}

#[test]
fn trimming_and_splitting() {
    assert_eq!(trim_text("  a b \t\n"), "a b");
    assert_eq!(trim_text("\u{3000}x\u{a0}"), "x");
    assert_eq!(trim_text("   "), "");
    assert_eq!(split_text("a  b", ' '), vec!["a".to_string(), "".to_string(), "b".to_string()]);
    assert_eq!(split_text("", '\n'), vec!["".to_string()]);
    assert_eq!(split_text("x\n", '\n'), vec!["x".to_string(), "".to_string()]);
    assert!(text_equals("abc", "abc"));
    assert!(!text_equals("abc", "abd"));
}

#[test]
fn number_rendering() {
    assert_eq!(decimal_text(0), "0");
    assert_eq!(decimal_text(7), "7");
    assert_eq!(decimal_text(55), "55");
    assert_eq!(decimal_text(100), "100");
    assert_eq!(decimal_text(255), "255");
    assert_eq!(hex4_text(0x0781), "0781");
    assert_eq!(hex4_text(0xabcd), "abcd");
    assert_eq!(hex4_text(0), "0000");
}
