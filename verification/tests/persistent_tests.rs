use vector_tile_services::config::S3Config;
use vector_tile_services::persistent::{
    generate_s3_key, parse_u64_dec, s3_read_decision, tile_content_type, u64_to_dec,
    PersistentTier, ReadDecision,
};

fn test_config() -> S3Config {
    S3Config {
        bucket: String::from("tiles-cache"),
        prefix: String::from("vector-tiles"),
        ttl_seconds: 86400,
    }
}

#[test]
fn decimal_rendering() {
    assert_eq!(u64_to_dec(0), "0");
    assert_eq!(u64_to_dec(7), "7");
    assert_eq!(u64_to_dec(10), "10");
    assert_eq!(u64_to_dec(86400), "86400");
    assert_eq!(u64_to_dec(u64::MAX), "18446744073709551615");
}

#[test]
fn decimal_parsing() {
    assert_eq!(parse_u64_dec("0"), Some(0));
    assert_eq!(parse_u64_dec("86400"), Some(86400));
    assert_eq!(parse_u64_dec("18446744073709551615"), Some(u64::MAX));
    // one past the 64-bit maximum
    assert_eq!(parse_u64_dec("18446744073709551616"), None);
    assert_eq!(parse_u64_dec(""), None);
    assert_eq!(parse_u64_dec("12a"), None);
    assert_eq!(parse_u64_dec("-1"), None);
    assert_eq!(parse_u64_dec("+5"), None);
    assert_eq!(parse_u64_dec(" 5"), None);
}

#[test]
fn decimal_round_trip() {
    for n in [0u64, 1, 9, 10, 99, 100, 12345, 1700000000, u64::MAX] {
        assert_eq!(parse_u64_dec(&u64_to_dec(n)), Some(n));
    }
}

#[test]
fn s3_key_scheme() {
    let config = test_config();
    assert_eq!(
        generate_s3_key(&config, "roads", 10, 512, 340),
        "vector-tiles/roads/10/512/340.pbf"
    );
    assert_eq!(generate_s3_key(&config, "water", 0, 0, 0), "vector-tiles/water/0/0/0.pbf");
}

#[test]
fn content_type_is_binary_tile() {
    assert_eq!(tile_content_type(), "application/x-protobuf");
}

#[test]
fn read_decision_expiry() {
    let deadline = String::from("1000");
    // strictly after the deadline: delete on read
    assert_eq!(s3_read_decision(Some(&deadline), 1001), ReadDecision::DeleteExpired);
    // at or before the deadline: deliver
    assert_eq!(s3_read_decision(Some(&deadline), 1000), ReadDecision::Deliver);
    assert_eq!(s3_read_decision(Some(&deadline), 999), ReadDecision::Deliver);
    // no deadline, or an unreadable one: deliver
    assert_eq!(s3_read_decision(None, u64::MAX), ReadDecision::Deliver);
    let garbled = String::from("not-a-number");
    assert_eq!(s3_read_decision(Some(&garbled), u64::MAX), ReadDecision::Deliver);
}

#[test]
fn disabled_tier_plans_nothing() {
    let tier = PersistentTier::new(test_config(), false);
    assert!(tier.read_plan("roads", 1, 2, 3).is_none());
    assert!(tier.put_plan("roads", 1, 2, 3, 1000).is_none());
    assert!(tier.delete_plan("roads", 1, 2, 3).is_none());
}

#[test]
fn enabled_tier_plans_key_and_deadline() {
    let tier = PersistentTier::new(test_config(), true);
    assert_eq!(tier.read_plan("roads", 10, 512, 340).unwrap(), "vector-tiles/roads/10/512/340.pbf");
    let plan = tier.put_plan("roads", 10, 512, 340, 1000).unwrap();
    assert_eq!(plan.key, "vector-tiles/roads/10/512/340.pbf");
    assert_eq!(plan.expires_at, 1000 + 86400);
    assert_eq!(plan.expires_at_text, "87400");
    assert_eq!(plan.source, "roads");
    assert_eq!(
        tier.delete_plan("roads", 10, 512, 340).unwrap(),
        "vector-tiles/roads/10/512/340.pbf"
    );
}
