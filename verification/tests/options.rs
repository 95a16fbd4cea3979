use std::rc::Rc;
use sycamore_query::{ClientOptions, ExponentialBackoff, QueryOptions, RetryDelay};

struct Fixed(u64);

impl RetryDelay for Fixed {
    fn delay(&self, attempt: u32) -> u64 {
        self.0 + attempt as u64
    }
}

const SECOND: u64 = 1_000_000_000;

#[test]
fn default_policy() {
    let options = ClientOptions::default();
    assert_eq!(options.cache_expiration, 300 * SECOND);
    assert_eq!(options.retries, 3);
    assert_eq!(options.retry_delay(0), SECOND);
}

#[test]
fn default_backoff_doubles_from_one_second_up_to_thirty() {
    let backoff = ExponentialBackoff;
    assert_eq!(backoff.delay(0), SECOND);
    assert_eq!(backoff.delay(1), 2 * SECOND);
    assert_eq!(backoff.delay(2), 4 * SECOND);
    assert_eq!(backoff.delay(3), 8 * SECOND);
    assert_eq!(backoff.delay(4), 16 * SECOND);
    assert_eq!(backoff.delay(5), 30 * SECOND);
    assert_eq!(backoff.delay(6), 30 * SECOND);
    assert_eq!(backoff.delay(64), 30 * SECOND);
    assert_eq!(backoff.delay(u32::MAX), 30 * SECOND);
}

#[test]
fn default_query_options_override_nothing() {
    let client = ClientOptions { cache_expiration: 7, retries: 2, retry_fn: Rc::new(Fixed(5)) };
    let merged = client.merge(&QueryOptions::default());
    assert_eq!(merged.cache_expiration, 7);
    assert_eq!(merged.retries, 2);
    assert!(Rc::ptr_eq(&merged.retry_fn, &client.retry_fn));
}

#[test]
fn merge_takes_each_field_that_is_set() {
    let client = ClientOptions { cache_expiration: 7, retries: 2, retry_fn: Rc::new(Fixed(5)) };
    let only_expiration =
        QueryOptions { cache_expiration: Some(9), retries: None, retry_fn: None };
    let merged = client.merge(&only_expiration);
    assert_eq!((merged.cache_expiration, merged.retries, merged.retry_delay(1)), (9, 2, 6));

    let only_retries = QueryOptions { cache_expiration: None, retries: Some(0), retry_fn: None };
    let merged = client.merge(&only_retries);
    assert_eq!((merged.cache_expiration, merged.retries, merged.retry_delay(1)), (7, 0, 6));

    let other = Rc::new(Fixed(100));
    let only_delay =
        QueryOptions { cache_expiration: None, retries: None, retry_fn: Some(other.clone()) };
    let merged = client.merge(&only_delay);
    assert_eq!((merged.cache_expiration, merged.retries, merged.retry_delay(1)), (7, 2, 101));
    assert!(Rc::ptr_eq(&merged.retry_fn, &other));

    let all = QueryOptions { cache_expiration: Some(1), retries: Some(8), retry_fn: Some(other) };
    let merged = client.merge(&all);
    assert_eq!((merged.cache_expiration, merged.retries, merged.retry_delay(0)), (1, 8, 100));
}

#[test]
fn merge_leaves_the_client_policy_as_it_is() {
    let client = ClientOptions { cache_expiration: 7, retries: 2, retry_fn: Rc::new(Fixed(5)) };
    let all = QueryOptions { cache_expiration: Some(1), retries: Some(8), retry_fn: None };
    let _ = client.merge(&all);
    assert_eq!((client.cache_expiration, client.retries), (7, 2));
}

#[test]
fn clone_keeps_every_field() {
    let client = ClientOptions { cache_expiration: 7, retries: 2, retry_fn: Rc::new(Fixed(5)) };
    let copy = client.clone();
    assert_eq!((copy.cache_expiration, copy.retries), (7, 2));
    assert!(Rc::ptr_eq(&copy.retry_fn, &client.retry_fn));
}
