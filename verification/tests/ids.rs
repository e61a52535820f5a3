//! Correlation ids.

use resonite_link::controller::IdGenerator;
use resonite_link::text::{push_decimal, push_upper_hex, same_text};
use std::collections::HashSet;

#[test]
fn generates_two_unique() {
    let mut id_gen = IdGenerator::default();
    assert_ne!(id_gen.next(), id_gen.next());
}

#[test]
fn ids_count_up_under_their_prefix() {
    let mut ids = IdGenerator::new_with_prefix("abc");
    assert_eq!(ids.sequence(), 0);
    assert_eq!(ids.next(), "abc_0");
    assert_eq!(ids.next(), "abc_1");
    for _ in 2..10 {
        ids.next();
    }
    assert_eq!(ids.next(), "abc_10");
    assert_eq!(ids.sequence(), 11);
}

#[test]
fn the_prefix_of_a_seed_is_its_hex() {
    assert_eq!(IdGenerator::with_seed(0xBEF4_3B49).next(), "RS_REPL_BEF43B49_0");
    assert_eq!(IdGenerator::with_seed(0).next(), "RS_REPL_0_0");
    assert_eq!(IdGenerator::with_seed(u32::MAX).next(), "RS_REPL_FFFFFFFF_0");
}

#[test]
fn a_random_prefix_is_hex_too() {
    let id = IdGenerator::default().next();
    let hex = id.strip_prefix("RS_REPL_").unwrap().strip_suffix("_0").unwrap();
    assert!(!hex.is_empty() && hex.len() <= 8);
    assert!(hex.chars().all(|c| c.is_ascii_digit() || ('A'..='F').contains(&c)));
    assert_eq!(format!("{:X}", u32::from_str_radix(hex, 16).unwrap()), hex);
}

#[test]
fn a_thousand_ids_are_a_thousand() {
    let mut ids = IdGenerator::new_with_prefix("p");
    let seen: HashSet<String> = (0..1000).map(|_| ids.next()).collect();
    assert_eq!(seen.len(), 1000);
}

#[test]
fn numbers_are_written_as_std_writes_them() {
    for n in [0u64, 7, 9, 10, 99, 100, 255, 4096, 1 << 32, u64::MAX] {
        let mut text = String::from("n=");
        push_decimal(&mut text, n);
        assert_eq!(text, format!("n={n}"));
        let mut text = String::new();
        push_upper_hex(&mut text, n);
        assert_eq!(text, format!("{n:X}"));
    }
}

#[test]
fn text_is_compared_by_its_characters() {
    assert!(same_text("float?", "float?"));
    assert!(!same_text("float?", "float"));
    assert!(!same_text("", " "));
}
