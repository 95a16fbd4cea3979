use sycamore_query::key::{as_slices, matches_any_prefix, same_key, starts_with};
use sycamore_query::{hash_key, AsKeys};

#[test]
fn a_text_gives_one_segment_its_fnv_hash() {
    assert_eq!("user".as_keys(), vec![0x42281071628b6e17]);
    assert_eq!("post".as_keys(), vec![0xcaf6ba35761fcfa8]);
    assert_eq!("".as_keys(), vec![0xaf64724c8602eb6e]);
}

#[test]
fn a_string_and_its_slice_give_the_same_key() {
    let owned = String::from("user");
    assert_eq!(owned.as_keys(), "user".as_keys());
    assert_eq!(AsKeys::as_keys(owned.as_str()), "user".as_keys());
}

#[test]
fn hash_key_of_a_text_is_its_segment() {
    assert_eq!(hash_key("user"), 0x42281071628b6e17);
    assert_eq!(vec![hash_key("a")], "a".as_keys());
    assert_ne!(hash_key("a"), hash_key("b"));
}

#[test]
fn a_tuple_gives_one_segment_for_each_member() {
    let key = ("user", 3).as_keys();
    assert_eq!(key.len(), 2);
    assert_eq!(key[0], "user".as_keys()[0]);
    assert_eq!(key[1], hash_key(3));
    assert_eq!(("a", "b", "c").as_keys(), vec![hash_key("a"), hash_key("b"), hash_key("c")]);
    assert_eq!((1, 2, 3, 4, 5, 6, 7, 8, 9, 10, 11, 12).as_keys().len(), 12);
}

#[test]
fn tuples_with_the_same_first_member_share_their_first_segment() {
    let a = ("user", 3).as_keys();
    let b = ("user", 4, "x").as_keys();
    let c = ("post", 3).as_keys();
    assert_eq!(a[0], b[0]);
    assert_ne!(a[0], c[0]);
    assert!(starts_with(&a, &"user".as_keys()));
    assert!(starts_with(&b, &"user".as_keys()));
    assert!(!starts_with(&c, &"user".as_keys()));
}

#[test]
fn starts_with_compares_leading_segments() {
    assert!(starts_with(&[1, 2, 3], &[1, 2]));
    assert!(starts_with(&[1, 2, 3], &[1, 2, 3]));
    assert!(starts_with(&[1, 2, 3], &[]));
    assert!(starts_with(&[], &[]));
    assert!(!starts_with(&[1, 2], &[1, 2, 3]));
    assert!(!starts_with(&[1, 2, 3], &[2]));
    assert!(!starts_with(&[1, 2, 3], &[1, 3]));
}

#[test]
fn same_key_compares_every_segment() {
    assert!(same_key(&[1, 2], &[1, 2]));
    assert!(same_key(&[], &[]));
    assert!(!same_key(&[1, 2], &[1]));
    assert!(!same_key(&[1, 2], &[1, 3]));
}

#[test]
fn matches_any_prefix_looks_at_every_prefix() {
    let one: &[u64] = &[1];
    let two: &[u64] = &[2, 2];
    assert!(matches_any_prefix(&[1, 5], &[one, two]));
    assert!(matches_any_prefix(&[2, 2, 5], &[one, two]));
    assert!(!matches_any_prefix(&[2, 5], &[one, two]));
    assert!(!matches_any_prefix(&[1, 5], &[]));
}

#[test]
fn as_slices_keeps_keys_and_order() {
    let keys = vec![vec![1, 2], vec![], vec![3]];
    let slices = as_slices(&keys);
    let one: &[u64] = &[1, 2];
    let two: &[u64] = &[];
    let three: &[u64] = &[3];
    assert_eq!(slices, vec![one, two, three]);
}
