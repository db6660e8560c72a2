use core::str::FromStr;
use safety_level::SafetyLevel;

#[test]
fn test_safety_level_from_str_valid() {
    assert_eq!(SafetyLevel::from_str("finalized").unwrap(), SafetyLevel::Finalized);
    assert_eq!(SafetyLevel::from_str("safe").unwrap(), SafetyLevel::Safe);
    assert_eq!(SafetyLevel::from_str("local-safe").unwrap(), SafetyLevel::LocalSafe);
    assert_eq!(SafetyLevel::from_str("localsafe").unwrap(), SafetyLevel::LocalSafe);
    assert_eq!(SafetyLevel::from_str("cross-unsafe").unwrap(), SafetyLevel::CrossUnsafe);
    assert_eq!(SafetyLevel::from_str("crossunsafe").unwrap(), SafetyLevel::CrossUnsafe);
    assert_eq!(SafetyLevel::from_str("unsafe").unwrap(), SafetyLevel::Unsafe);
    assert_eq!(SafetyLevel::from_str("invalid").unwrap(), SafetyLevel::Invalid);
}

#[test]
fn test_safety_level_from_str_invalid() {
    assert!(SafetyLevel::from_str("unknown").is_err());
    assert!(SafetyLevel::from_str("123").is_err());
    assert!(SafetyLevel::from_str("").is_err());
    assert!(SafetyLevel::from_str("safe ").is_err());
}

const ALL_LEVELS: [SafetyLevel; 6] = [
    SafetyLevel::Finalized,
    SafetyLevel::Safe,
    SafetyLevel::LocalSafe,
    SafetyLevel::CrossUnsafe,
    SafetyLevel::Unsafe,
    SafetyLevel::Invalid,
];

#[test]
fn test_display_exact_tokens() {
    assert_eq!(SafetyLevel::Finalized.to_display_string(), "finalized");
    assert_eq!(SafetyLevel::Safe.to_display_string(), "safe");
    assert_eq!(SafetyLevel::LocalSafe.to_display_string(), "local-safe");
    assert_eq!(SafetyLevel::CrossUnsafe.to_display_string(), "cross-unsafe");
    assert_eq!(SafetyLevel::Unsafe.to_display_string(), "unsafe");
    assert_eq!(SafetyLevel::Invalid.to_display_string(), "invalid");
}

#[test]
fn test_parse_round_trip_every_level() {
    for level in ALL_LEVELS {
        let token = level.to_display_string();
        assert_eq!(SafetyLevel::parse(&token).unwrap(), level);
    }
}

#[test]
fn test_parse_case_insensitive() {
    assert_eq!(SafetyLevel::parse("FINALIZED").unwrap(), SafetyLevel::Finalized);
    assert_eq!(SafetyLevel::parse("Finalized").unwrap(), SafetyLevel::Finalized);
    assert_eq!(SafetyLevel::parse("sAfE").unwrap(), SafetyLevel::Safe);
    assert_eq!(SafetyLevel::parse("LOCAL-SAFE").unwrap(), SafetyLevel::LocalSafe);
    assert_eq!(SafetyLevel::parse("LocalSafe").unwrap(), SafetyLevel::LocalSafe);
    assert_eq!(SafetyLevel::parse("CROSS-UNSAFE").unwrap(), SafetyLevel::CrossUnsafe);
    assert_eq!(SafetyLevel::parse("CrossUnsafe").unwrap(), SafetyLevel::CrossUnsafe);
    assert_eq!(SafetyLevel::parse("UNSAFE").unwrap(), SafetyLevel::Unsafe);
    assert_eq!(SafetyLevel::parse("Invalid").unwrap(), SafetyLevel::Invalid);
}

#[test]
fn test_parse_alias_equivalence() {
    assert_eq!(
        SafetyLevel::parse("local-safe").unwrap(),
        SafetyLevel::parse("localsafe").unwrap()
    );
    assert_eq!(
        SafetyLevel::parse("cross-unsafe").unwrap(),
        SafetyLevel::parse("crossunsafe").unwrap()
    );
}

#[test]
fn test_parse_no_trimming() {
    assert_eq!(SafetyLevel::parse("safe").unwrap(), SafetyLevel::Safe);
    assert!(SafetyLevel::parse("safe ").is_err());
    assert!(SafetyLevel::parse(" safe").is_err());
    assert!(SafetyLevel::parse(" safe ").is_err());
}

#[test]
fn test_parse_error_carries_original_input() {
    let err = SafetyLevel::parse("UNKNOWN").unwrap_err();
    assert_eq!(err.0, "UNKNOWN");
    let err = SafetyLevel::parse("").unwrap_err();
    assert_eq!(err.0, "");
}

#[test]
fn test_decode_token_canonical() {
    assert_eq!(SafetyLevel::decode_token("finalized").unwrap(), SafetyLevel::Finalized);
    for level in ALL_LEVELS {
        let token = level.to_display_string();
        assert_eq!(SafetyLevel::decode_token(&token).unwrap(), level);
    }
}

#[test]
fn test_decode_token_rejects_other_tokens() {
    assert!(SafetyLevel::decode_token("failed").is_err());
    // The structured-data path is case-sensitive and accepts no aliases.
    assert!(SafetyLevel::decode_token("Finalized").is_err());
    assert!(SafetyLevel::decode_token("localsafe").is_err());
    assert!(SafetyLevel::decode_token("crossunsafe").is_err());
    assert!(SafetyLevel::decode_token("").is_err());
    let err = SafetyLevel::decode_token("failed").unwrap_err();
    assert_eq!(err.0, "failed");
}
