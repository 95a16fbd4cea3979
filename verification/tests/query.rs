use std::rc::Rc;
use sycamore_query::query::decide;
use sycamore_query::{
    ClientOptions, Decision, ExponentialBackoff, FetchStep, FetchTask, QueryClient, QueryData,
    QueryOptions, RunPlan, Status,
};

type Client = QueryClient<String, u8, u8, u8, ExponentialBackoff>;

fn options(retries: u32) -> ClientOptions<ExponentialBackoff> {
    ClientOptions { cache_expiration: 1_000, retries, retry_fn: Rc::new(ExponentialBackoff) }
}

fn client(retries: u32) -> Client {
    QueryClient::new(options(retries))
}

fn fetch_task(plan: RunPlan<String, u8, u8, u8, ExponentialBackoff>) -> FetchTask<ExponentialBackoff> {
    match plan {
        RunPlan::Fetch(task) => task,
        _ => panic!("a fetch should start"),
    }
}

#[test]
fn decide_table() {
    for status in [Status::Idle, Status::Success, Status::Fetching] {
        assert!(matches!(decide(true, status), Decision::Revalidate));
    }
    assert!(matches!(decide(false, Status::Idle), Decision::Fetch));
    assert!(matches!(decide(false, Status::Success), Decision::Fetch));
    assert!(matches!(decide(false, Status::Fetching), Decision::Wait));
}

#[test]
fn a_miss_starts_a_fetch_with_the_merged_policy() {
    let mut client = client(3);
    let overrides = QueryOptions { cache_expiration: Some(5), retries: None, retry_fn: None };
    let task = fetch_task(client.run_query_at(&[1, 2], Status::Idle, &overrides, 0));
    assert_eq!(task.key, vec![1, 2]);
    assert_eq!(task.attempt, 0);
    assert_eq!(task.options.cache_expiration, 5);
    assert_eq!(task.options.retries, 3);
}

#[test]
fn two_runs_for_one_key_start_one_fetch() {
    let mut client = client(3);
    let defaults = QueryOptions::default();
    let mut status = Status::Idle;
    let mut fetches = 0;
    for _ in 0..2 {
        match client.run_query(&[7], status, &defaults) {
            RunPlan::Fetch(_) => {
                fetches += 1;
                status = Status::Fetching;
            }
            RunPlan::Wait => {}
            RunPlan::Revalidate { .. } => panic!("nothing is cached"),
        }
    }
    assert_eq!(fetches, 1);
    assert_eq!(status, Status::Fetching);
}

#[test]
fn fails_twice_then_succeeds_with_two_retries() {
    let mut client = client(2);
    let defaults = QueryOptions::default();
    let mut data: QueryData<Rc<String>, String> = QueryData::Loading;
    let mut status = Status::Idle;
    let mut seen = vec![format!("{:?}", status)];

    let mut task = fetch_task(client.run_query_at(&[1], status, &defaults, 10));
    status = Status::Fetching;
    seen.push(format!("{:?}", status));
    assert!(matches!(data, QueryData::Loading));

    let outcomes: Vec<Result<Rc<String>, String>> =
        vec![Err("first".into()), Err("second".into()), Ok(Rc::new("X".to_string()))];
    let mut calls = 0;
    let mut waits = Vec::new();
    for outcome in outcomes {
        calls += 1;
        match task.settle(outcome) {
            FetchStep::Retry { attempt } => waits.push(task.options.retry_delay(attempt)),
            FetchStep::Finish(result) => {
                data = result;
                break;
            }
        }
    }
    status = client.finish_fetch_at(&task, &data, 20);
    seen.push(format!("{:?}", status));

    assert_eq!(calls, 3);
    assert_eq!(waits, vec![1_000_000_000, 2_000_000_000]);
    assert_eq!(seen, vec!["Idle", "Fetching", "Success"]);
    match &data {
        QueryData::Fetched(value) => assert_eq!(value.as_str(), "X"),
        _ => panic!("the fetch should have brought a value"),
    }
    assert_eq!(client.query_data_at(&[1], 20).as_deref().map(String::as_str), Some("X"));
}

#[test]
fn fails_once_more_than_retries_ends_in_the_last_error() {
    let mut client = client(2);
    let mut task = fetch_task(client.run_query_at(&[1], Status::Idle, &QueryOptions::default(), 0));
    let first: FetchStep<Rc<String>, &str> = task.settle(Err("first"));
    assert!(matches!(first, FetchStep::Retry { attempt: 0 }));
    let second: FetchStep<Rc<String>, &str> = task.settle(Err("second"));
    assert!(matches!(second, FetchStep::Retry { attempt: 1 }));
    let third: FetchStep<Rc<String>, &str> = task.settle(Err("third"));
    let data = match third {
        FetchStep::Finish(data) => data,
        FetchStep::Retry { .. } => panic!("no retry is left"),
    };
    assert!(matches!(data, QueryData::Failed("third")));
    assert_eq!(task.attempt, 2);
    let status = client.finish_fetch_at(&task, &data, 5);
    assert_eq!(status, Status::Success);
    assert!(client.query_data_at(&[1], 5).is_none());
}

#[test]
fn zero_retries_means_a_single_attempt() {
    let mut task = FetchTask::new(vec![1], options(0));
    let step: FetchStep<u8, &str> = task.settle(Err("only"));
    assert!(matches!(step, FetchStep::Finish(QueryData::Failed("only"))));
    assert_eq!(task.attempt, 0);
}

#[test]
fn a_value_ends_the_cycle_at_once() {
    let mut task = FetchTask::new(vec![1], options(5));
    let step: FetchStep<u8, &str> = task.settle(Ok(9));
    assert!(matches!(step, FetchStep::Finish(QueryData::Fetched(9))));
    assert_eq!(task.attempt, 0);
    assert_eq!(task.key, vec![1]);
}

#[test]
fn retries_count_up_from_zero_to_the_limit() {
    let mut task = FetchTask::new(vec![], options(u32::MAX));
    for expected in 0..100 {
        let step: FetchStep<u8, ()> = task.settle(Err(()));
        assert!(matches!(step, FetchStep::Retry { attempt } if attempt == expected));
    }
    let mut last = FetchTask { key: vec![], options: options(u32::MAX), attempt: u32::MAX - 1 };
    let step: FetchStep<u8, ()> = last.settle(Err(()));
    assert!(matches!(step, FetchStep::Retry { attempt } if attempt == u32::MAX - 1));
    assert_eq!(last.attempt, u32::MAX);
    let step: FetchStep<u8, ()> = last.settle(Err(()));
    assert!(matches!(step, FetchStep::Finish(QueryData::Failed(()))));
}

#[test]
fn a_fetched_value_is_cached_with_the_lifetime_of_the_query() {
    let mut client = client(0);
    let overrides = QueryOptions { cache_expiration: Some(5), retries: None, retry_fn: None };
    let task = fetch_task(client.run_query_at(&[4], Status::Idle, &overrides, 100));
    let data: QueryData<Rc<String>, ()> = QueryData::Fetched(Rc::new("v".to_string()));
    client.finish_fetch_at(&task, &data, 100);
    // The default policy would serve it for longer; the entry itself lives five.
    assert!(client.query_data_at(&[4], 106).is_some());
    let within = client.run_query_at(&[4], Status::Success, &overrides, 105);
    assert!(matches!(within, RunPlan::Revalidate { .. }));
}

#[test]
fn a_hit_serves_the_value_and_evicts_it() {
    let mut client = client(0);
    client.set_query_data_at(vec![1, 2], Rc::new("cached".to_string()), 0);
    client.set_query_data_at(vec![1], Rc::new("parent".to_string()), 0);
    client.set_query_data_at(vec![1, 2, 3], Rc::new("child".to_string()), 0);
    let plan = client.run_query_at(&[1, 2], Status::Fetching, &QueryOptions::default(), 10);
    match plan {
        RunPlan::Revalidate { cached, stale } => {
            assert_eq!(cached.as_str(), "cached");
            assert!(stale.is_empty());
        }
        _ => panic!("the cached value should be served"),
    }
    assert!(client.query_data_at(&[1, 2], 10).is_none());
    assert!(client.query_data_at(&[1, 2, 3], 10).is_none());
    assert_eq!(client.query_data_at(&[1], 10).as_deref().map(String::as_str), Some("parent"));
    // The run that follows misses the cache and fetches.
    let next = client.run_query_at(&[1, 2], Status::Success, &QueryOptions::default(), 10);
    assert!(matches!(next, RunPlan::Fetch(_)));
}

#[test]
fn an_expired_value_is_not_served() {
    let mut client = client(0);
    client.set_query_data_at(vec![1], Rc::new("old".to_string()), 0);
    let plan = client.run_query_at(&[1], Status::Success, &QueryOptions::default(), 1_001);
    assert!(matches!(plan, RunPlan::Fetch(_)));
    let stricter = QueryOptions { cache_expiration: Some(10), retries: None, retry_fn: None };
    let plan = client.run_query_at(&[1], Status::Fetching, &stricter, 11);
    assert!(matches!(plan, RunPlan::Wait));
    let plan = client.run_query_at(&[1], Status::Fetching, &stricter, 10);
    assert!(matches!(plan, RunPlan::Revalidate { .. }));
}

#[test]
fn an_error_leaves_the_cache_as_it_is() {
    let mut client = client(0);
    client.set_query_data_at(vec![1], Rc::new("kept".to_string()), 0);
    let task = FetchTask::new(vec![1], options(0));
    let failed: QueryData<Rc<String>, &str> = QueryData::Failed("no");
    assert_eq!(client.finish_fetch_at(&task, &failed, 1), Status::Success);
    assert_eq!(client.query_data_at(&[1], 1).as_deref().map(String::as_str), Some("kept"));
    let loading: QueryData<Rc<String>, &str> = QueryData::Loading;
    client.finish_fetch(&task, &loading);
    assert_eq!(client.query_data_at(&[1], 1).as_deref().map(String::as_str), Some("kept"));
}
