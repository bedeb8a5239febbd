use idiom_patterns::hashing::{one_shot_128, one_shot_64, Xxh3Hasher128};
use std::hash::{Hash, Hasher};

#[test]
fn hashes_strings() {
    let a = one_shot_128(&"hello");
    let b = one_shot_128(&"hello");
    let c = one_shot_128(&"world");
    assert_eq!(a, b);
    assert_ne!(a, c);
}

#[derive(Hash)]
struct S {
    x: u32,
    y: String,
}

#[test]
fn hashes_structs() {
    let h1 = one_shot_128(&S { x: 1, y: "a".into() });
    let h2 = one_shot_128(&S { x: 1, y: "a".into() });
    assert_eq!(h1, h2);
}

#[test]
fn short_digest_is_low_half_of_long_digest() {
    let long = one_shot_128(&"hello");
    let short = one_shot_64(&"hello");
    assert_eq!(short, long as u64);
    assert_ne!(one_shot_64(&"hello"), one_shot_64(&"world"));
}

#[test]
fn streaming_matches_one_shot() {
    let mut h = Xxh3Hasher128::default();
    "hello".hash(&mut h);
    let short = h.finish();
    assert_eq!(h.finish_u128(), one_shot_128(&"hello"));
    assert_eq!(short, one_shot_64(&"hello"));
}

#[test]
fn digest_of_nothing_is_xxh3_of_empty_input() {
    let h = Xxh3Hasher128::default();
    assert_eq!(h.finish_u128(), 0x99aa06d3014798d86001c324468d497f);
}
