use std::rc::Rc;
use sycamore_query::{
    ClientOptions, ExponentialBackoff, MutationEvent, QueryClient, QueryData, Status,
};

type Client = QueryClient<String, u8, u8, u8, ExponentialBackoff>;

#[test]
fn a_mutation_that_starts_is_fetching() {
    let client: Client = QueryClient::new(ClientOptions::default());
    let step = client.run_mutation::<u8, u8>(MutationEvent::Started);
    assert_eq!(step.status, Status::Fetching);
    assert!(step.data.is_none());
    assert!(step.succeeded.is_none());
}

#[test]
fn a_mutation_that_succeeds_reports_its_output() {
    let client: Client = QueryClient::new(ClientOptions::default());
    let step = client.run_mutation::<&str, u8>(MutationEvent::Settled(Ok("done")));
    assert_eq!(step.status, Status::Success);
    let reported = step.succeeded.expect("the hook is owed a call");
    assert_eq!(*reported, "done");
    match step.data {
        Some(QueryData::Fetched(shown)) => assert!(Rc::ptr_eq(&shown, &reported)),
        _ => panic!("the output should be shown"),
    }
}

#[test]
fn a_mutation_that_fails_shows_its_error_and_calls_no_hook() {
    let client: Client = QueryClient::new(ClientOptions::default());
    let step = client.run_mutation::<u8, &str>(MutationEvent::Settled(Err("no")));
    assert_eq!(step.status, Status::Success);
    assert!(step.succeeded.is_none());
    match step.data {
        Some(QueryData::Failed(shown)) => assert_eq!(*shown, "no"),
        _ => panic!("the error should be shown"),
    }
}
