use mesh2ww::numeral::{is_decimal_text, read_u32, read_u8};

#[test]
fn whole_numbers_are_read() {
    assert_eq!(read_u32("14"), Some(14));
    assert_eq!(read_u32("+14"), Some(14));
    assert_eq!(read_u32("0014"), Some(14));
    assert_eq!(read_u32("-0"), Some(0));
    assert_eq!(read_u32("4294967295"), Some(u32::MAX));
    assert_eq!(read_u8("255"), Some(255));
}

#[test]
fn malformed_whole_numbers_are_refused() {
    assert_eq!(read_u32(""), None);
    assert_eq!(read_u32("+"), None);
    assert_eq!(read_u32("-1"), None);
    assert_eq!(read_u32("4294967296"), None);
    assert_eq!(read_u32("99999999999999999999999999"), None);
    assert_eq!(read_u32("1_000"), None);
    assert_eq!(read_u32(" 1"), None);
    assert_eq!(read_u32("1.0"), None);
    assert_eq!(read_u8("256"), None);
}

#[test]
fn whole_numbers_agree_with_std() {
    let samples = [
        "", "0", "7", "+7", "-7", "-0", "+0", "00", "12a", "a12", "4294967295", "4294967296",
        "9223372036854775807", "9223372036854775808", "-9223372036854775809", "++1", "+-1", "1 ",
        "１２",
    ];
    for s in samples {
        let std = s.parse::<i64>().ok().and_then(|v| u32::try_from(v).ok());
        assert_eq!(read_u32(s), std, "{s:?}");
        let std = s.parse::<i64>().ok().and_then(|v| u8::try_from(v).ok());
        assert_eq!(read_u8(s), std, "{s:?}");
    }
}

#[test]
fn decimals_agree_with_std() {
    let samples = [
        "0.7", "1.0", "1", "1.", ".5", ".", "", "+", "-", "+.5", "-.5e3", "5.e3", ".e3", "e3",
        "1e", "1e+", "1e-5", "1E5", "1e+05", "1e5.0", "1.2.3", "inf", "-inf", "+infinity", "INF",
        "Infinity", "nan", "NaN", "-nan", "infinit", "infinityy", "in", "na", "0x10", "1_0", " 1",
        "1 ", "--1", "+-1", "0.15", "0.65", "1e٣", "١", "1f", "1.0f64", "i", "n", "1ee5", "1e5e5",
        "٠.٧", "1..0", "12345678901234567890.12345678901234567890e-12345",
    ];
    for s in samples {
        assert_eq!(is_decimal_text(s), s.parse::<f64>().is_ok(), "{s:?}");
    }
}
