use std::rc::Rc;
use sycamore_query::registry::{assemble, is_listed, select_matching};
use sycamore_query::QueryRegistry;

type Registry = QueryRegistry<String, u8, &'static str>;

#[test]
fn assemble_needs_all_three() {
    let data = Rc::new(1u8);
    let status = Rc::new(2u8);
    let fetcher = Rc::new(3u8);
    let found = assemble(Some(data.clone()), Some(status.clone()), Some(fetcher.clone())).unwrap();
    assert!(Rc::ptr_eq(&found.data, &data));
    assert!(Rc::ptr_eq(&found.status, &status));
    assert!(Rc::ptr_eq(&found.fetcher, &fetcher));
    assert!(assemble(None::<Rc<u8>>, Some(status.clone()), Some(fetcher.clone())).is_none());
    assert!(assemble(Some(data.clone()), None::<Rc<u8>>, Some(fetcher.clone())).is_none());
    assert!(assemble(Some(data.clone()), Some(status.clone()), None::<Rc<u8>>).is_none());
    assert!(assemble(None::<Rc<u8>>, None::<Rc<u8>>, None::<Rc<u8>>).is_none());
}

#[test]
fn is_listed_compares_whole_keys() {
    let keys = vec![vec![1, 2], vec![], vec![3]];
    assert!(is_listed(&keys, &[1, 2]));
    assert!(is_listed(&keys, &[]));
    assert!(is_listed(&keys, &[3]));
    assert!(!is_listed(&keys, &[1]));
    assert!(!is_listed(&keys, &[1, 2, 3]));
    assert!(!is_listed(&vec![], &[]));
}

#[test]
fn select_matching_keeps_order_and_repeats() {
    let keys = vec![vec![2, 1], vec![1, 1], vec![3], vec![1], vec![1, 1]];
    let one: &[u64] = &[1];
    let three: &[u64] = &[3];
    assert_eq!(select_matching(&keys, &[one]), vec![vec![1, 1], vec![1], vec![1, 1]]);
    assert_eq!(
        select_matching(&keys, &[three, one]),
        vec![vec![1, 1], vec![3], vec![1], vec![1, 1]]
    );
    assert!(select_matching(&keys, &[]).is_empty());
    assert!(select_matching(&vec![], &[one]).is_empty());
}

#[test]
fn register_then_find() {
    let mut registry = Registry::new();
    assert!(registry.find(&[1]).is_none());
    assert!(registry.fetcher(&[1]).is_none());
    let data = Rc::new("data".to_string());
    let status = Rc::new(0u8);
    registry.register(vec![1], data.clone(), status.clone(), Rc::new("fetcher"));
    let found = registry.find(&[1]).unwrap();
    assert!(Rc::ptr_eq(&found.data, &data));
    assert!(Rc::ptr_eq(&found.status, &status));
    assert_eq!(*found.fetcher, "fetcher");
    assert_eq!(registry.fetcher(&[1]).as_deref(), Some(&"fetcher"));
}

#[test]
fn the_fetcher_outlives_the_containers_until_it_is_reaped() {
    let mut registry = Registry::new();
    let data = Rc::new("data".to_string());
    let status = Rc::new(0u8);
    registry.register(vec![1], data.clone(), status.clone(), Rc::new("fetcher"));
    drop(data);
    drop(status);
    assert!(registry.find(&[1]).is_none());
    assert!(registry.fetcher(&[1]).is_some());
    registry.reap_orphaned_fetchers();
    assert!(registry.fetcher(&[1]).is_none());
}

#[test]
fn reaping_goes_by_the_status_container() {
    let mut registry = Registry::new();
    let data_one = Rc::new("one".to_string());
    let status_one = Rc::new(1u8);
    let data_two = Rc::new("two".to_string());
    let status_two = Rc::new(2u8);
    registry.register(vec![1], data_one.clone(), status_one.clone(), Rc::new("one"));
    registry.register(vec![2], data_two.clone(), status_two.clone(), Rc::new("two"));
    drop(data_one);
    drop(status_two);
    registry.reap_orphaned_fetchers();
    assert!(registry.fetcher(&[1]).is_some());
    assert!(registry.fetcher(&[2]).is_none());
    registry.reap_orphaned_fetchers();
    assert!(registry.fetcher(&[1]).is_some());
}

#[test]
fn retain_fetchers_keeps_exactly_the_listed_keys() {
    let mut registry = Registry::new();
    for key in 1..=4u64 {
        registry.register(vec![key], Rc::new(String::new()), Rc::new(0), Rc::new("f"));
    }
    registry.retain_fetchers(&vec![vec![2], vec![4], vec![5], vec![2]]);
    assert!(registry.fetcher(&[1]).is_none());
    assert!(registry.fetcher(&[2]).is_some());
    assert!(registry.fetcher(&[3]).is_none());
    assert!(registry.fetcher(&[4]).is_some());
    assert!(registry.fetcher(&[5]).is_none());
    registry.retain_fetchers(&vec![]);
    assert!(registry.fetcher(&[2]).is_none());
}
