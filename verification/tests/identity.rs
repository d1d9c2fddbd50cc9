use ota_signer::identity::{compose_identity, mint_identity};
use ota_signer::text::decimal_string;

const TOKEN: &str = "67e55044-10b1-426f-9247-bb680e5fe0c8";

fn is_token(text: &str) -> bool {
    text.len() == 36
        && text.char_indices().all(|(i, c)| match i {
            8 | 13 | 18 | 23 => c == '-',
            _ => matches!(c, '0'..='9' | 'a'..='f'),
        })
}

#[test]
fn decimal_of_small_numbers() {
    assert_eq!(decimal_string(0), "0");
    assert_eq!(decimal_string(7), "7");
    assert_eq!(decimal_string(10), "10");
    assert_eq!(decimal_string(100), "100");
    assert_eq!(decimal_string(1234567890), "1234567890");
}

#[test]
fn decimal_of_negative_numbers() {
    assert_eq!(decimal_string(-1), "-1");
    assert_eq!(decimal_string(-10), "-10");
    assert_eq!(decimal_string(-1700000000000), "-1700000000000");
}

#[test]
fn decimal_at_the_limits() {
    assert_eq!(decimal_string(i64::MAX), "9223372036854775807");
    assert_eq!(decimal_string(i64::MIN), "-9223372036854775808");
}

#[test]
fn decimal_agrees_with_the_standard_formatting() {
    for value in [0, 1, 9, 11, 99, 101, 999_999, -5, -99, 1_700_000_000_123, i64::MAX - 1] {
        assert_eq!(decimal_string(value), format!("{}", value));
    }
}

#[test]
fn identity_joins_its_four_parts() {
    assert_eq!(
        compose_identity(1700000000123, TOKEN, "DEVICE-1", "My_App_ipa"),
        "1700000000123_67e55044-10b1-426f-9247-bb680e5fe0c8_DEVICE-1_My_App_ipa.ipa"
    );
}

#[test]
fn identity_with_empty_parts() {
    assert_eq!(compose_identity(0, "", "", ""), "0___.ipa");
}

#[test]
fn identities_differ_where_tokens_differ() {
    let other = "67e55044-10b1-426f-9247-bb680e5fe0c9";
    assert_ne!(
        compose_identity(5, TOKEN, "DEVICE-1", "app_ipa"),
        compose_identity(5, other, "DEVICE-1", "app_ipa")
    );
}

#[test]
fn minted_identity_has_the_shape_of_an_identity() {
    let identity = mint_identity("DEVICE-1", "app_ipa");
    assert!(identity.ends_with("_DEVICE-1_app_ipa.ipa"));
    let head = &identity[..identity.len() - "_DEVICE-1_app_ipa.ipa".len()];
    let (timestamp, token) = match head.split_once('_') {
        Some(parts) => parts,
        None => panic!("no separator in {:?}", head),
    };
    assert!(is_token(token), "{:?} is no token", token);
    assert!(!timestamp.is_empty());
    assert!(timestamp.chars().all(|c| c.is_ascii_digit()));
}

#[test]
fn two_uploads_of_the_same_file_get_distinct_identities() {
    let first = mint_identity("DEVICE-1", "app_ipa");
    let second = mint_identity("DEVICE-1", "app_ipa");
    assert_ne!(first, second);
}

#[test]
fn many_minted_identities_are_pairwise_distinct() {
    let mut seen = std::collections::HashSet::new();
    for _ in 0..200 {
        assert!(seen.insert(mint_identity("D", "f")));
    }
}
