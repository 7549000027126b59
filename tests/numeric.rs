use gnucash_sys::numeric::checked_lcm;
use gnucash_sys::{gcd, lcm, Guid, Numeric, ValueKind};

#[test]
fn test_gcd() {
    assert_eq!(gcd(12, 8), 4);
    assert_eq!(gcd(100, 25), 25);
    assert_eq!(gcd(17, 13), 1);
}

#[test]
fn test_lcm() {
    assert_eq!(lcm(4, 6), 12);
    assert_eq!(lcm(100, 100), 100);
}

#[test]
fn gcd_of_negative_and_zero_values() {
    assert_eq!(gcd(-12, 8), 4);
    assert_eq!(gcd(0, 7), 7);
    assert_eq!(gcd(7, 0), 7);
    assert_eq!(gcd(0, 0), 0);
    assert_eq!(gcd(i64::MIN, 6), 2);
}

#[test]
fn lcm_divisible_by_both_arguments() {
    for (a, b) in [(4i64, 6i64), (-4, 6), (9, -12), (7, 1), (100, 30), (0, 5)] {
        let l = lcm(a, b);
        assert!(l >= 0);
        if a != 0 {
            assert_eq!(l % a, 0);
        }
        if b != 0 {
            assert_eq!(l % b, 0);
        }
    }
    assert_eq!(lcm(-4, 6), 12);
    assert_eq!(lcm(0, 5), 0);
}

#[test]
fn lcm_that_does_not_fit_is_refused() {
    assert_eq!(checked_lcm(i64::MAX, i64::MAX - 1), None);
    assert_eq!(checked_lcm(1 << 40, 3 << 40), Some(3 << 40));
}

#[test]
fn finite_zero_and_sign_tests() {
    let z = Numeric::new(0, 5);
    assert!(z.is_zero());
    assert!(!z.is_negative());
    assert!(!z.is_positive());
    let n = Numeric::new(-3, 4);
    assert!(!n.is_zero());
    assert!(n.is_negative());
    assert!(!n.is_positive());
    let both_negative = Numeric::new(-3, -4);
    assert!(!both_negative.is_negative());
    assert!(both_negative.is_positive());
    let neg_denom = Numeric::new(3, -4);
    assert!(neg_denom.is_negative());
}

#[test]
fn negation_undoes_itself() {
    for (n, d) in [(5i64, 7i64), (-5, 7), (0, 1), (i64::MAX, 3), (12, -5)] {
        let x = Numeric::new(n, d);
        let y = x.neg();
        assert_eq!(y.num(), -n);
        assert_eq!(y.denom(), d);
        assert_eq!(y.neg(), x);
    }
}

#[test]
fn absolute_value_takes_both_magnitudes() {
    let a = Numeric::new(-5, -100).abs();
    assert_eq!(a.num(), 5);
    assert_eq!(a.denom(), 100);
    let b = Numeric::new(7, -3).abs();
    assert_eq!(b, Numeric::new(7, 3));
}

#[test]
fn zero_and_whole_numbers() {
    assert_eq!(Numeric::zero(), Numeric::new(0, 1));
    assert_eq!(Numeric::from_int(42), Numeric::new(42, 1));
    assert!(Numeric::zero().is_zero());
}

#[test]
fn non_finite_encodings() {
    assert_eq!(Numeric::new(0, 0).kind(), ValueKind::NaN);
    assert!(Numeric::new(0, 0).is_nan());
    assert_eq!(Numeric::new(5, 0).kind(), ValueKind::PositiveInfinity);
    assert!(Numeric::new(5, 0).is_infinite());
    assert_eq!(Numeric::new(-5, 0).kind(), ValueKind::NegativeInfinity);
    assert!(Numeric::new(-5, 0).is_infinite());
    assert_eq!(Numeric::new(1, 3).kind(), ValueKind::Finite);
    assert!(!Numeric::new(0, 0).is_zero());
}

#[test]
fn equality_compares_the_stored_pair() {
    assert_ne!(Numeric::new(1, 2), Numeric::new(2, 4));
    assert_eq!(Numeric::new(1, 2), Numeric::new(1, 2));
}

#[test]
fn guid_bytes_and_null() {
    let mut bytes = [0u8; 16];
    bytes[3] = 9;
    let g = Guid::from_bytes(bytes);
    assert_eq!(g.as_bytes(), &bytes);
    assert_eq!(g.as_ffi().reserved, bytes);
    assert!(!g.is_null());
    assert!(Guid::null().is_null());
    assert!(Guid::from_record(None).is_null());
    assert_eq!(Guid::from_record(Some(bytes)).as_bytes(), &bytes);
}

#[test]
fn guid_order_is_lexicographic() {
    let a = Guid::from_bytes([1u8; 16]);
    let mut hb = [1u8; 16];
    hb[15] = 2;
    let b = Guid::from_bytes(hb);
    assert_eq!(a.compare(&b), -1);
    assert_eq!(b.compare(&a), 1);
    assert_eq!(a.compare(&a), 0);
}

#[test]
fn numeric_text() {
    assert_eq!(Numeric::new(42, 1).to_string(), "42");
    assert_eq!(Numeric::new(-5000, 100).to_string(), "-5000/100");
    assert_eq!(Numeric::new(3, -4).to_string(), "3/-4");
    assert_eq!(Numeric::new(0, 0).to_string(), "NaN");
    assert_eq!(Numeric::new(7, 0).to_string(), "inf");
    assert_eq!(Numeric::new(-7, 0).to_string(), "-inf");
    assert_eq!(Numeric::new(i64::MIN, 1).to_string(), "-9223372036854775808");
    assert_eq!(Numeric::zero().to_string(), "0");
}

#[test]
fn guid_text_round_trip() {
    let mut bytes = [0u8; 16];
    for (i, b) in bytes.iter_mut().enumerate() {
        *b = (i as u8) * 17;
    }
    let g = Guid::from_bytes(bytes);
    let text = g.to_string();
    assert_eq!(text, "00112233445566778899aabbccddeeff");
    let back = Guid::parse(&text).expect("valid");
    assert_eq!(back.as_bytes(), &bytes);
    let upper = Guid::parse("00112233445566778899AABBCCDDEEFF").expect("valid");
    assert_eq!(upper.as_bytes(), &bytes);
}

#[test]
fn guid_parse_rejects_bad_text() {
    assert!(Guid::parse("0011").is_none());
    assert!(Guid::parse("00112233445566778899aabbccddeefg").is_none());
    assert!(Guid::parse("00112233445566778899aabbccddeeff0").is_none());
    assert!(Guid::parse("").is_none());
}
