use anx7625::c_compat::{
    assert_failure_message, c_str_bytes, isupper_compat, printk_level, printk_record,
    str_len, strcopy_compat, LogLevel, BIOS_DEBUG, BIOS_ERR, BIOS_INFO, BIOS_SPEW,
    BIOS_WARNING, PRINTK_BUFFER_SIZE,
};

#[test]
fn str_len_stops_at_nul() {
    assert_eq!(str_len(b"hello\0world\0"), 5);
}

#[test]
fn str_len_of_empty_string() {
    assert_eq!(str_len(b"\0abc"), 0);
}

#[test]
fn str_len_is_capped() {
    let long = vec![b'x'; 400];
    assert_eq!(str_len(&long), PRINTK_BUFFER_SIZE);
}

#[test]
fn str_len_nul_at_cap() {
    let mut buf = vec![b'y'; 300];
    buf[254] = 0;
    assert_eq!(str_len(&buf), 254);
    buf[254] = b'y';
    buf[255] = 0;
    assert_eq!(str_len(&buf), 255);
}

#[test]
fn strcopy_copies_without_terminator() {
    let mut dst = [9u8; 8];
    strcopy_compat(&mut dst, b"abc\0def");
    assert_eq!(dst, [b'a', b'b', b'c', 9, 9, 9, 9, 9]);
}

#[test]
fn strcopy_empty_leaves_dst() {
    let mut dst = [7u8; 3];
    strcopy_compat(&mut dst, b"\0");
    assert_eq!(dst, [7, 7, 7]);
}

#[test]
fn isupper_range() {
    assert_eq!(isupper_compat(b'A'), 1);
    assert_eq!(isupper_compat(b'M'), 1);
    assert_eq!(isupper_compat(b'Z'), 1);
    assert_eq!(isupper_compat(b'@'), 0);
    assert_eq!(isupper_compat(b'['), 0);
    assert_eq!(isupper_compat(b'a'), 0);
    assert_eq!(isupper_compat(0xc0), 0);
}

#[test]
fn isupper_agrees_with_std_on_all_bytes() {
    for c in 0..=255u8 {
        let expected = if (c as char).is_ascii_uppercase() { 1 } else { 0 };
        assert_eq!(isupper_compat(c), expected);
    }
}

#[test]
fn c_str_bytes_prefix() {
    assert_eq!(c_str_bytes(b"panel\0junk"), b"panel".to_vec());
}

#[test]
fn assert_failure_message_cases() {
    assert_eq!(assert_failure_message(true, b"never read"), None);
    assert_eq!(assert_failure_message(false, b"bad edid\0"), Some(b"bad edid".to_vec()));
}

#[test]
fn printk_levels() {
    assert_eq!(printk_level(BIOS_SPEW), Some(LogLevel::Trace));
    assert_eq!(printk_level(BIOS_DEBUG), Some(LogLevel::Debug));
    assert_eq!(printk_level(BIOS_INFO), Some(LogLevel::Info));
    assert_eq!(printk_level(BIOS_WARNING), Some(LogLevel::Warn));
    assert_eq!(printk_level(BIOS_ERR), Some(LogLevel::Error));
    assert_eq!(printk_level(3), None);
    assert_eq!(printk_level(6), None);
    assert_eq!(printk_level(u32::MAX), None);
}

#[test]
fn printk_record_cases() {
    assert_eq!(
        printk_record(BIOS_WARNING, b"link lost\0"),
        Some((LogLevel::Warn, b"link lost".to_vec()))
    );
    assert_eq!(printk_record(3, b"dropped\0"), None);
}
