use shadow_auth::DeviceInfo;

fn sample() -> DeviceInfo {
    DeviceInfo::new("host1".to_string(), 8, 3600, "Linux".to_string(), "5.4.0".to_string())
}

#[test]
fn feature_string_layout() {
    assert_eq!(sample().feature_string(1600000000), "Linux host1 5.4.0 SMP #8@3600 TIME 1600000000");
    let zero = DeviceInfo::new(String::new(), 0, 0, String::new(), String::new());
    assert_eq!(zero.feature_string(0), "   SMP #0@0 TIME 0");
    let big = DeviceInfo::new("h".to_string(), u32::MAX, u64::MAX, "o".to_string(), "r".to_string());
    assert_eq!(
        big.feature_string(u64::MAX),
        "o h r SMP #4294967295@18446744073709551615 TIME 18446744073709551615"
    );
}

#[test]
fn hash_is_upper_hex_sha3_of_features() {
    assert_eq!(
        sample().hash(1600000000),
        "A015233C46009328A34003E810C2650F2616DBFB1BDFB7122C7A4D832F082B94"
    );
}

#[test]
fn hash_changes_with_time() {
    let a = sample().hash(1600000000);
    let b = sample().hash(1600000001);
    assert_eq!(a.len(), 64);
    assert_eq!(b.len(), 64);
    assert_ne!(a, b);
    assert!(b.chars().all(|c| c.is_ascii_digit() || ('A'..='F').contains(&c)));
}
