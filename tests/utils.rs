use ddcore_rs::utils::{byte_array_to_string, decode_hex, md5_to_string, md5_to_string_lower, HexError, Version};

#[test]
fn version() {
    let a = Version::new("0.6.9.1");
    let b = Version::new("0.6.8.1");
    let c = Version::new("0.6.9.1");
    let d = Version::new("0.7.1.1");

    assert!(a > b);
    assert!(a != b);
    assert!(b < a);
    assert!(a == c);
    assert!(a < d);
    assert!(d >= a);
}

#[test]
fn byte_array_to_string_stops_at_nul() {
    assert_eq!(byte_array_to_string(&[0x41, 0x42, 0x00, 0x43]).unwrap(), "AB");
    assert_eq!(byte_array_to_string(&[0x41, 0x42]).unwrap(), "AB");
    assert_eq!(byte_array_to_string(&[]).unwrap(), "");
    assert!(byte_array_to_string(&[0xff, 0x00]).is_err());
}

#[test]
fn decode_hex_pairs() {
    assert_eq!(decode_hex("FF00A1").unwrap(), vec![0xFF, 0x00, 0xA1]);
    assert_eq!(decode_hex("ff00a1").unwrap(), vec![0xFF, 0x00, 0xA1]);
    assert_eq!(decode_hex("").unwrap(), Vec::<u8>::new());
    assert_eq!(decode_hex("ABC"), Err(HexError::OddLength));
    assert_eq!(decode_hex("0G"), Err(HexError::InvalidDigit(1)));
}

#[test]
fn md5_hex_cases() {
    let d = [0x00, 0x0f, 0xa0, 0xff];
    assert_eq!(md5_to_string(&d), "000FA0FF");
    assert_eq!(md5_to_string_lower(&d), "000fa0ff");
}

#[test]
fn version_ordering_laws() {
    let v = Version::new("1.2.3.4");
    assert_eq!(v.partial_cmp(&Version::new("1.2.3.4")), Some(std::cmp::Ordering::Equal));
    let hi = Version::new("2.0.0.0");
    let mid = Version::new("1.10.0.0");
    let lo = Version::new("1.9.9.9");
    assert!(hi > mid && mid < hi);
    assert!(mid > lo && lo < mid);
    assert!(hi > lo);
    assert_eq!(Version::new("1.2.3").partial_cmp(&v), None);
    assert_eq!(Version::new("1.x.3.4").partial_cmp(&v), None);
}

#[test]
fn version_orders_by_numbers() {
    let a = Version::new("1.0.0.0");
    let b = Version::new("01.0.0.0");
    assert_eq!(a.partial_cmp(&b), Some(std::cmp::Ordering::Equal));
    assert_eq!(b.partial_cmp(&a), Some(std::cmp::Ordering::Equal));
    assert!(a == b);
    assert!(!(a < b) && !(b < a));
    let c = Version::new("1.0.0.1");
    assert!(a < c && b < c);
    let odd = Version::new("x");
    assert!(odd == Version::new("x"));
    assert_eq!(odd.partial_cmp(&a), None);
}
