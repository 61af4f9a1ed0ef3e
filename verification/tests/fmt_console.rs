use rcore_core::console::{print, utf8_check, Console};
use rcore_core::fmt::{push_dec, push_dec_signed, push_hex};

#[test]
fn dec_formats_exact_values() {
    let cases: Vec<(u64, &str)> = vec![
        (0, "0"),
        (7, "7"),
        (10, "10"),
        (12345, "12345"),
        (u64::MAX, "18446744073709551615"),
    ];
    for (n, expect) in cases {
        let mut out: Vec<u8> = Vec::new();
        push_dec(&mut out, n);
        assert_eq!(out, expect.as_bytes().to_vec());
    }
}

#[test]
fn dec_signed_formats_exact_values() {
    let cases: Vec<(i64, &str)> = vec![(0, "0"), (-1, "-1"), (-42, "-42"), (2147483647, "2147483647"), (-2147483648, "-2147483648")];
    for (n, expect) in cases {
        let mut out: Vec<u8> = Vec::new();
        push_dec_signed(&mut out, n);
        assert_eq!(out, expect.as_bytes().to_vec());
    }
}

#[test]
fn hex_formats_exact_values() {
    let cases: Vec<(u64, &str)> = vec![
        (0, "0x0"),
        (9, "0x9"),
        (10, "0xa"),
        (0x80400000, "0x80400000"),
        (0xdeadbeef, "0xdeadbeef"),
        (u64::MAX, "0xffffffffffffffff"),
    ];
    for (n, expect) in cases {
        let mut out: Vec<u8> = Vec::new();
        push_hex(&mut out, n);
        assert_eq!(out, expect.as_bytes().to_vec());
    }
}

#[test]
fn dec_appends_after_existing_bytes() {
    let mut out: Vec<u8> = vec![b'x'];
    push_dec(&mut out, 99);
    assert_eq!(out, b"x99".to_vec());
}

#[test]
fn console_records_bytes_in_order() {
    let mut con = Console::new();
    assert!(con.bytes.is_empty());
    con.write_bytes(b"abc");
    con.write_bytes(b"");
    con.write_line(b"def");
    print(&mut con, b"tail");
    assert_eq!(con.bytes, b"abcdef\ntail".to_vec());
}

#[test]
fn utf8_check_accepts_what_std_accepts() {
    let valid: Vec<&[u8]> = vec![
        b"",
        b"hello",
        "héllo".as_bytes(),
        "\u{7ff}\u{800}\u{ffff}".as_bytes(),
        "\u{10000}\u{10ffff}".as_bytes(),
        &[0xf4, 0x8f, 0xbf, 0xbf],
    ];
    for buf in valid {
        assert!(utf8_check(buf), "{:?}", buf);
        assert!(std::str::from_utf8(buf).is_ok());
    }
}

#[test]
fn utf8_check_rejects_what_std_rejects() {
    let invalid: Vec<&[u8]> = vec![
        &[0x80],
        &[0xc0, 0xaf],
        &[0xc1, 0x80],
        &[0xc2],
        &[0xe0, 0x80, 0x80],
        &[0xe2, 0x82],
        &[0xed, 0xa0, 0x80],
        &[0xf0, 0x80, 0x80, 0x80],
        &[0xf4, 0x90, 0x80, 0x80],
        &[0xf8, 0x88, 0x80, 0x80],
        &[0xff],
        b"ok\xffbad",
    ];
    for buf in invalid {
        assert!(!utf8_check(buf), "{:?}", buf);
        assert!(std::str::from_utf8(buf).is_err());
    }
}
