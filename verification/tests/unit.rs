use mesh2ww::unit::is_one_text;

const ONES: [&str; 24] = [
    "1", "1.0", "1.", "01", "001.000", "+1", "+1.0", "1e0", "1E0", "1e+0", "1e-0", "10e-1",
    "100e-2", "0.1e1", "0.01e2", ".1e1", "0.001E+3", "1.00e0", "10.0e-1", "0010.00e-01",
    "1000000000000000000000e-21", "0.000000000000000000001e21", "1e00000000000000000000000000",
    "00000000000000000000000001.00000000000000000000000000",
];

const OTHERS: [&str; 44] = [
    "", "-1", "-1.0", "0", "0.0", "00", "0e0", "1.1", "1.01", "2", "9", "0.1", "10", "11", "1e1",
    "1e-1", "10e1", "0.1e2", "0.1e0", "inf", "nan", "+inf", "1e", "e0", ".", "1.0.0", "1 ", " 1",
    "one", "+", "++1", "+-1", "1e99999999999999999999999", "1e-99999999999999999999999",
    "10e-99999999999999999999999", "100e-1", "0.01e1", "19e-1", "2e0", "0.5e1", "1e+1", "1_0e-1",
    "1e0.0", "１",
];

#[test]
fn texts_for_one_are_told() {
    for s in ONES {
        assert!(is_one_text(s), "{s:?}");
        assert_eq!(s.parse::<f64>(), Ok(1.0), "{s:?}");
    }
}

#[test]
fn texts_for_other_numbers_are_told() {
    for s in OTHERS {
        assert!(!is_one_text(s), "{s:?}");
        assert_ne!(s.parse::<f64>().ok(), Some(1.0), "{s:?}");
    }
}

#[test]
fn a_number_that_only_rounds_to_one_is_not_one() {
    for s in ["1.00000000000000000000001", "0.99999999999999999999999", "100000000000000000000001e-23"] {
        assert_eq!(s.parse::<f64>(), Ok(1.0), "{s:?}");
        assert!(!is_one_text(s), "{s:?}");
        let factor: f64 = s.parse().unwrap();
        for w in [0.0, 0.25, 3.5e-7, 1.0, f64::MAX, f64::MIN_POSITIVE] {
            assert_eq!(w * factor, w);
        }
    }
}
