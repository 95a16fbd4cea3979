use std::rc::Rc;
use sycamore_query::keymap::KeyMap;
use sycamore_query::{QueryData, Status};

#[test]
fn from_result_is_never_loading() {
    let fetched: QueryData<u8, &str> = QueryData::from_result(Ok(1));
    assert!(matches!(fetched, QueryData::Fetched(1)));
    let failed: QueryData<u8, &str> = QueryData::from_result(Err("no"));
    assert!(matches!(failed, QueryData::Failed("no")));
}

#[test]
fn get_data_shares_value_and_error() {
    let value = Rc::new("v".to_string());
    let fetched: QueryData<Rc<String>, Rc<String>> = QueryData::Fetched(value.clone());
    match fetched.get_data() {
        QueryData::Fetched(shared) => assert!(Rc::ptr_eq(&shared, &value)),
        _ => panic!("fetched data stays fetched"),
    }
    let failed: QueryData<Rc<String>, Rc<String>> = QueryData::Failed(value.clone());
    match failed.get_data() {
        QueryData::Failed(shared) => assert!(Rc::ptr_eq(&shared, &value)),
        _ => panic!("an error stays an error"),
    }
    let loading: QueryData<Rc<String>, Rc<String>> = QueryData::Loading;
    assert!(matches!(loading.get_data(), QueryData::Loading));
}

#[test]
fn status_values_differ() {
    assert_ne!(Status::Fetching, Status::Success);
    assert_ne!(Status::Success, Status::Idle);
    assert_ne!(Status::Idle, Status::Fetching);
}

#[test]
fn key_map_holds_one_value_for_each_key() {
    let mut map: KeyMap<u32> = KeyMap::new();
    assert_eq!(map.len(), 0);
    assert_eq!(map.insert(vec![1], 10), None);
    assert_eq!(map.insert(vec![2], 20), None);
    assert_eq!(map.insert(vec![1], 11), Some(10));
    assert_eq!(map.len(), 2);
    assert_eq!(map.get(&[1]), Some(&11));
    assert_eq!(map.get(&[2]), Some(&20));
    assert_eq!(map.get(&[3]), None);
    assert!(map.contains_key(&[2]));
    assert_eq!(map.remove(&[2]), Some(20));
    assert_eq!(map.remove(&[2]), None);
    assert_eq!(map.len(), 1);
    let position = map.position(&[1]).unwrap();
    assert_eq!(map.key_at(position), &vec![1]);
    assert_eq!(map.value_at(position), &11);
    let slot = map.remove_at(position);
    assert_eq!((slot.key, slot.value), (vec![1], 11));
    assert_eq!(map.len(), 0);
}
