use std::collections::hash_map::DefaultHasher;
use std::hash::{Hash, Hasher};

use openai_rs::models::hash::calculate_hash;
use openai_rs::models::strings::{str_eq, u64_to_decimal};

fn std_hash(key: &String) -> String {
    let mut hasher = DefaultHasher::new();
    key.hash(&mut hasher);
    hasher.finish().to_string()
}

#[test]
fn decimal_numerals_are_those_of_the_standard_library() {
    for n in [0u64, 1, 9, 10, 11, 99, 100, 101, 1234567890, u64::MAX - 1, u64::MAX] {
        assert_eq!(u64_to_decimal(n), n.to_string());
    }
    assert_eq!(u64_to_decimal(0), "0");
    assert_eq!(u64_to_decimal(18446744073709551615), "18446744073709551615");
}

#[test]
fn string_equality_goes_by_characters() {
    assert!(str_eq("", ""));
    assert!(str_eq("gpt-4", "gpt-4"));
    assert!(!str_eq("gpt-4", "gpt-4 "));
    assert!(!str_eq("gpt-4", "gpt-5"));
    assert!(!str_eq("a", ""));
    assert!(str_eq("héllo ☃", "héllo ☃"));
    assert!(!str_eq("héllo ☃", "hello ☃"));
}

#[test]
fn key_hash_is_the_default_hash_of_the_string() {
    for key in ["", "Chat: What's the deal with airplane food?", "Meta: x", "títle: ¿qué?"] {
        let key = key.to_string();
        assert_eq!(calculate_hash(&key), std_hash(&key));
    }
}

#[test]
fn key_hash_is_stable_and_tells_keys_apart() {
    let a = "Chat: a".to_string();
    let b = "Chat: b".to_string();
    assert_eq!(calculate_hash(&a), calculate_hash(&a.clone()));
    assert_ne!(calculate_hash(&a), calculate_hash(&b));
    assert_ne!(calculate_hash(&a), a);
    assert!(calculate_hash(&a).chars().all(|c| c.is_ascii_digit()));
}
