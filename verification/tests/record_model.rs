use std::collections::HashSet;
use surrealdb_bench::ident::parse_id_into_resource;
use surrealdb_bench::ident::KEY_LEN;
use surrealdb_bench::records::Large;
use surrealdb_bench::records::Medium;
use surrealdb_bench::records::Small;

fn assert_is_identifier(id: &str, table: &str) {
    let prefix = format!("{}:", table);
    assert!(id.starts_with(&prefix), "identifier {} lacks prefix {}", id, prefix);
    assert_eq!(id.len(), table.len() + 1 + KEY_LEN);
    let key = &id[prefix.len()..];
    assert!(key.chars().all(|c| c.is_ascii_alphanumeric()));
}

fn assert_small_shape(small: &Small) {
    assert_is_identifier(small.id.as_ref().unwrap(), "small");
    assert!(!small.string.is_empty());
    let _int: u32 = small.int;
}

fn assert_medium_shape(medium: &Medium) {
    assert_is_identifier(medium.id.as_ref().unwrap(), "medium");
    assert_eq!(medium.nested_smalls.len(), 5);
    for small in &medium.nested_smalls {
        assert_small_shape(small);
    }
    assert_eq!(medium.array.len(), 30);
    for s in &medium.array {
        assert!(!s.is_empty());
    }
    assert!(!medium.opt_string.as_ref().unwrap().is_empty());
    let _opt_int: u32 = medium.opt_int.unwrap();
    let opt_vec = medium.opt_vec.as_ref().unwrap();
    assert_eq!(opt_vec.len(), 20);
    for s in opt_vec {
        assert!(!s.is_empty());
    }
    assert_is_identifier(&medium.linked_thing, "small");
}

fn assert_large_shape(large: &Large) {
    assert_is_identifier(large.id.as_ref().unwrap(), "large");
    assert_eq!(large.nested_mediums.len(), 20);
    for medium in &large.nested_mediums {
        assert_medium_shape(medium);
    }
    let object = large.opt_object.as_ref().unwrap();
    assert!(object.len() <= 255);
    for (k, v) in object {
        assert!(!k.is_empty());
        assert!(!v.is_empty());
    }
    assert!(large.nested_array_in_object.len() <= 255);
    for (k, v) in &large.nested_array_in_object {
        assert!(!k.is_empty());
        assert_eq!(v.len(), 10);
        for s in v {
            assert!(!s.is_empty());
        }
    }
    let _opt_int: u32 = large.opt_int.unwrap();
    let strings = [
        &large.string1,
        &large.string2,
        &large.string3,
        &large.string4,
        &large.string5,
        &large.string6,
        &large.string7,
        &large.string8,
        &large.string9,
        &large.string10,
        &large.string11,
        &large.string12,
        &large.string13,
        &large.string14,
        &large.string15,
        &large.string16,
        &large.string17,
        &large.string18,
        &large.string19,
        &large.string20,
    ];
    for s in strings {
        assert!(!s.is_empty());
    }
    assert!(!large.opt_string.as_ref().unwrap().is_empty());
}

#[test]
fn generated_small_is_well_shaped() {
    for _ in 0..50 {
        let small = Small::generate();
        assert_small_shape(&small);
    }
}

#[test]
fn generated_small_string_length_varies_within_bounds() {
    let mut lengths = HashSet::new();
    for _ in 0..200 {
        let small = Small::generate();
        assert!((5..20).contains(&small.string.len()));
        lengths.insert(small.string.len());
    }
    assert!(lengths.len() > 1, "string lengths never varied");
}

#[test]
fn generated_medium_is_well_shaped() {
    for _ in 0..10 {
        let medium = Medium::generate();
        assert_medium_shape(&medium);
    }
}

#[test]
fn generated_large_is_well_shaped() {
    for _ in 0..3 {
        let large = Large::generate();
        assert_large_shape(&large);
    }
}

#[test]
fn generated_identifiers_are_distinct() {
    let mut ids = HashSet::new();
    for _ in 0..100 {
        ids.insert(Small::generate().id.unwrap());
    }
    for _ in 0..50 {
        ids.insert(Medium::generate().id.unwrap());
    }
    assert_eq!(ids.len(), 150);
}

#[test]
fn identifiers_of_distinct_tables_never_collide() {
    let small_id = Small::generate().id.unwrap();
    let medium_id = Medium::generate().id.unwrap();
    let large_id = Large::generate().id.unwrap();
    assert_ne!(small_id, medium_id);
    assert_ne!(small_id, large_id);
    assert_ne!(medium_id, large_id);
}

#[test]
fn parse_splits_at_the_first_colon() {
    let (table, key) = parse_id_into_resource("small:abc123");
    assert_eq!(table, "small");
    assert_eq!(key, "abc123");
    let (table, key) = parse_id_into_resource("a:b:c");
    assert_eq!(table, "a");
    assert_eq!(key, "b:c");
    let (table, key) = parse_id_into_resource(":key");
    assert_eq!(table, "");
    assert_eq!(key, "key");
}

#[test]
fn parse_rebuilds_a_generated_identifier() {
    let small = Small::generate();
    let id = small.id.as_ref().unwrap();
    let (table, key) = parse_id_into_resource(id);
    assert_eq!(table, "small");
    assert_eq!(key.len(), KEY_LEN);
    assert_eq!(format!("{}:{}", table, key), *id);
}
