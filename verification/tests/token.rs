use icloud_auth::token::{
    expiry_from_now, parse_pet_fields, parse_token_fields, resolve_expiry, FetchedToken,
    ParsedToken, TokenStore, TtlPosition, ABSOLUTE_TTL_THRESHOLD, DEFAULT_PET_TTL_SECS,
    DEFAULT_TTL_SECS,
};

const NOW: u64 = 1_690_000_000_000;

fn token_of(id: &str, token: &str, expiration: u128) -> ParsedToken {
    ParsedToken {
        id: id.to_string(),
        token: FetchedToken { token: token.to_string(), expiration },
    }
}

#[test]
fn threshold_is_forty_years_of_milliseconds() {
    assert_eq!(ABSOLUTE_TTL_THRESHOLD, 1_261_440_000_000);
    assert_eq!(ABSOLUTE_TTL_THRESHOLD, 40 * 365 * 24 * 3600 * 1000);
    assert_eq!(DEFAULT_TTL_SECS, 365 * 24 * 3600);
    assert_eq!(DEFAULT_PET_TTL_SECS, 300);
}

#[test]
fn large_ttl_is_absolute_epoch_milliseconds() {
    assert_eq!(resolve_expiry(1_700_000_000_000, NOW), 1_700_000_000_000);
    assert_eq!(resolve_expiry(1_700_000_000_000, 0), 1_700_000_000_000);
    assert_eq!(
        resolve_expiry(ABSOLUTE_TTL_THRESHOLD + 1, NOW),
        (ABSOLUTE_TTL_THRESHOLD + 1) as u128
    );
    assert_eq!(resolve_expiry(u64::MAX, NOW), u64::MAX as u128);
}

#[test]
fn small_ttl_is_seconds_from_now() {
    assert_eq!(resolve_expiry(3600, NOW), NOW as u128 + 3_600_000);
    assert_eq!(resolve_expiry(0, NOW), NOW as u128);
    assert_eq!(
        resolve_expiry(ABSOLUTE_TTL_THRESHOLD - 1, NOW),
        NOW as u128 + (ABSOLUTE_TTL_THRESHOLD as u128 - 1) * 1000
    );
}

#[test]
fn ttl_exactly_at_the_threshold_does_not_exceed_it() {
    assert_eq!(
        resolve_expiry(ABSOLUTE_TTL_THRESHOLD, NOW),
        NOW as u128 + ABSOLUTE_TTL_THRESHOLD as u128 * 1000
    );
}

#[test]
fn expiry_never_overflows() {
    assert_eq!(
        resolve_expiry(ABSOLUTE_TTL_THRESHOLD, u64::MAX),
        u64::MAX as u128 + ABSOLUTE_TTL_THRESHOLD as u128 * 1000
    );
    assert_eq!(expiry_from_now(u64::MAX, u64::MAX), u64::MAX as u128 * 1001);
}

#[test]
fn token_is_valid_strictly_before_its_expiration() {
    let token = FetchedToken { token: "t".to_string(), expiration: 1000 };
    assert!(token.is_valid(999));
    assert!(!token.is_valid(1000));
    assert!(!token.is_valid(1001));
}

#[test]
fn token_fields_with_ttl_in_third_position() {
    let parsed = parse_token_fields("svc:tok:3600", TtlPosition::Third, NOW).unwrap();
    assert_eq!(parsed.id, "svc");
    assert_eq!(parsed.token.token, "tok");
    assert_eq!(parsed.token.expiration, NOW as u128 + 3_600_000);
    let absolute = parse_token_fields("svc:tok:1700000000000", TtlPosition::Third, NOW).unwrap();
    assert_eq!(absolute.token.expiration, 1_700_000_000_000);
    let extra = parse_token_fields("svc:tok:100:1700000000000", TtlPosition::Third, NOW).unwrap();
    assert_eq!(extra.token.expiration, NOW as u128 + 100_000);
}

#[test]
fn token_fields_with_ttl_in_fourth_position() {
    let parsed = parse_token_fields("svc:tok:100:1700000000000", TtlPosition::Fourth, NOW).unwrap();
    assert_eq!(parsed.id, "svc");
    assert_eq!(parsed.token.token, "tok");
    assert_eq!(parsed.token.expiration, 1_700_000_000_000);
    let three = parse_token_fields("svc:tok:100", TtlPosition::Fourth, NOW).unwrap();
    assert_eq!(three.token.expiration, NOW as u128 + 100_000);
}

#[test]
fn token_fields_without_ttl_live_one_year() {
    for position in [TtlPosition::Third, TtlPosition::Fourth] {
        let parsed = parse_token_fields("svc:tok", position, NOW).unwrap();
        assert_eq!(parsed.token.expiration, NOW as u128 + 31_536_000_000);
    }
}

#[test]
fn malformed_token_fields_are_rejected() {
    assert!(parse_token_fields("only", TtlPosition::Third, NOW).is_none());
    assert!(parse_token_fields("", TtlPosition::Third, NOW).is_none());
    assert!(parse_token_fields("svc:tok:abc", TtlPosition::Third, NOW).is_none());
    assert!(parse_token_fields("svc:tok:", TtlPosition::Third, NOW).is_none());
    assert!(parse_token_fields("svc:tok:1:x", TtlPosition::Fourth, NOW).is_none());
    assert!(parse_token_fields("svc:tok:x:1", TtlPosition::Fourth, NOW).is_some());
    assert!(parse_token_fields("svc:tok:x:1", TtlPosition::Third, NOW).is_none());
}

#[test]
fn pet_fields() {
    let pet = parse_pet_fields("12345:abcDEF:300", NOW).unwrap();
    assert_eq!(pet.token, "abcDEF");
    assert_eq!(pet.expiration, NOW as u128 + 300_000);
    let short = parse_pet_fields("12345:abcDEF", NOW).unwrap();
    assert_eq!(short.token, "abcDEF");
    assert_eq!(short.expiration, NOW as u128 + 300_000);
    let long = parse_pet_fields("12345:abcDEF:1700000000000", NOW).unwrap();
    assert_eq!(long.expiration, NOW as u128 + 1_700_000_000_000_000);
    assert!(parse_pet_fields("12345", NOW).is_none());
    assert!(parse_pet_fields("12345:abcDEF:soon", NOW).is_none());
}

#[test]
fn store_filters_on_expiration() {
    let mut store = TokenStore::new();
    assert!(store.is_empty());
    store.insert("a".to_string(), FetchedToken { token: "ta".to_string(), expiration: 2000 });
    assert!(!store.is_empty());
    assert_eq!(store.get("a", 1999), Some("ta".to_string()));
    assert_eq!(store.get("a", 2000), None);
    assert_eq!(store.get("b", 0), None);
    assert_eq!(store.find("a").map(|t| t.token.clone()), Some("ta".to_string()));
    assert!(store.find("b").is_none());
}

#[test]
fn store_insert_replaces_the_token_of_a_service() {
    let mut store = TokenStore::new();
    store.insert("a".to_string(), FetchedToken { token: "old".to_string(), expiration: 10 });
    store.insert("b".to_string(), FetchedToken { token: "tb".to_string(), expiration: 10 });
    store.insert("a".to_string(), FetchedToken { token: "new".to_string(), expiration: 20 });
    assert_eq!(store.get("a", 15), Some("new".to_string()));
    assert_eq!(store.get("b", 5), Some("tb".to_string()));
    assert_eq!(store.get("b", 15), None);
}

#[test]
fn store_from_parsed_lets_the_later_token_win() {
    let store = TokenStore::from_parsed(vec![
        token_of("a", "first", 100),
        token_of("b", "tb", 100),
        token_of("a", "second", 200),
    ]);
    assert_eq!(store.get("a", 150), Some("second".to_string()));
    assert_eq!(store.get("b", 50), Some("tb".to_string()));
    assert!(TokenStore::from_parsed(vec![]).is_empty());
}
