use std::collections::VecDeque;
use std::sync::{Arc, Mutex};

use website_checker::collector::ResultCollector;
use website_checker::dispatch::{dispatch_plan, worker_action, Message, WorkerAction};
use website_checker::record::{CheckResult, Timestamp};
use website_checker::retry::{AttemptResult, CheckOutcome, RetryState, Step, BACKOFF_MS};

fn strings(items: &[&str]) -> Vec<String> {
    items.iter().map(|s| s.to_string()).collect()
}

fn record(url: &str, code: u16) -> CheckResult {
    CheckResult {
        url: url.to_string(),
        outcome: CheckOutcome::Success { status_code: code },
        elapsed_ms: 12,
        timestamp: Timestamp::new(1_700_000_000, 0).unwrap(),
    }
}

/// Runs the queue protocol with `workers` workers taking items in turn and
/// returns the URLs checked, in the order taken, and the shutdowns each took.
fn simulate(urls: &[&str], workers: usize) -> (Vec<String>, Vec<usize>) {
    let mut queue: VecDeque<Message> = dispatch_plan(&strings(urls), workers).into_iter().collect();
    let mut live = vec![true; workers];
    let mut shutdowns = vec![0usize; workers];
    let mut checked = Vec::new();
    while live.iter().any(|l| *l) {
        for w in 0..workers {
            if !live[w] {
                continue;
            }
            let taken = queue.pop_front();
            match worker_action(taken) {
                WorkerAction::Check(url) => checked.push(url),
                WorkerAction::Stop => {
                    live[w] = false;
                    shutdowns[w] += 1;
                }
            }
        }
    }
    assert!(queue.is_empty());
    (checked, shutdowns)
}

#[test]
fn every_url_checked_once_for_each_worker_count() {
    let urls = ["http://a.example", "http://b.example", "http://c.example"];
    for workers in [1usize, 2, 5] {
        let (checked, shutdowns) = simulate(&urls, workers);
        assert_eq!(checked, strings(&urls));
        assert_eq!(shutdowns, vec![1; workers]);
    }
}

#[test]
fn plan_has_jobs_then_one_shutdown_per_worker() {
    let plan = dispatch_plan(&strings(&["u1", "u2"]), 3);
    assert_eq!(plan.len(), 5);
    assert!(matches!(&plan[0], Message::Job(u) if u == "u1"));
    assert!(matches!(&plan[1], Message::Job(u) if u == "u2"));
    assert!(plan[2..].iter().all(|m| matches!(m, Message::Shutdown)));
}

#[test]
fn closed_queue_stops_worker() {
    assert!(matches!(worker_action(None), WorkerAction::Stop));
    assert!(matches!(worker_action(Some(Message::Shutdown)), WorkerAction::Stop));
    assert!(matches!(worker_action(Some(Message::Job("x".to_string()))), WorkerAction::Check(u) if u == "x"));
}

#[test]
fn always_failing_makes_retries_plus_one_attempts() {
    let retries = 3u32;
    let mut state = RetryState::new(retries);
    let mut attempts = 0;
    let mut backoff = 0u64;
    let outcome = loop {
        attempts += 1;
        match state.on_attempt(AttemptResult::Failed("connection refused".to_string())) {
            Step::Retry { backoff_ms } => backoff += backoff_ms,
            Step::Finish(outcome) => break outcome,
        }
    };
    assert_eq!(attempts, 4);
    assert_eq!(backoff, 3 * BACKOFF_MS);
    assert_eq!(backoff, 6000);
    assert_eq!(state.attempts, 4);
    match outcome {
        CheckOutcome::Failure { message } => assert_eq!(message, "Request failed: connection refused"),
        CheckOutcome::Success { .. } => panic!("expected a failure"),
    }
}

#[test]
fn first_response_needs_no_backoff() {
    let mut state = RetryState::new(5);
    match state.on_attempt(AttemptResult::Response(503)) {
        Step::Finish(CheckOutcome::Success { status_code }) => assert_eq!(status_code, 503),
        _ => panic!("expected success"),
    }
    assert!(state.done);
    assert_eq!(state.attempts, 1);
    assert_eq!(state.backoff_total_ms, 0);
}

#[test]
fn zero_retries_single_attempt() {
    let mut state = RetryState::new(0);
    match state.on_attempt(AttemptResult::Failed("timed out".to_string())) {
        Step::Finish(CheckOutcome::Failure { message }) => assert_eq!(message, "Request failed: timed out"),
        _ => panic!("expected failure at once"),
    }
    assert!(state.done);
    assert_eq!(state.attempts, 1);
}

#[test]
fn retry_then_success() {
    let mut state = RetryState::new(2);
    assert!(matches!(
        state.on_attempt(AttemptResult::Failed("dns".to_string())),
        Step::Retry { backoff_ms: 2000 }
    ));
    assert!(matches!(
        state.on_attempt(AttemptResult::Response(200)),
        Step::Finish(CheckOutcome::Success { status_code: 200 })
    ));
    assert_eq!(state.attempts, 2);
    assert_eq!(state.backoff_total_ms, 2000);
}

#[test]
fn collector_keeps_interleaved_appends() {
    // Simulated workers share one collector behind a lock and take turns.
    let collector = Arc::new(Mutex::new(ResultCollector::new()));
    let workers = 8;
    let per_worker = 25;
    let handles: Vec<Arc<Mutex<ResultCollector>>> = (0..workers).map(|_| Arc::clone(&collector)).collect();
    for k in 0..per_worker {
        for (w, c) in handles.iter().enumerate() {
            let url = format!("http://{}-{}.example", w, k);
            c.lock().unwrap().append(record(&url, 200));
        }
    }
    drop(handles);
    let collector = Arc::try_unwrap(collector).ok().unwrap().into_inner().unwrap();
    assert_eq!(collector.len(), workers * per_worker);
    let mut urls: Vec<String> = collector.drain().into_iter().map(|r| r.url).collect();
    urls.sort();
    urls.dedup();
    assert_eq!(urls.len(), workers * per_worker);
}

#[test]
fn collector_drains_in_append_order() {
    let mut c = ResultCollector::new();
    assert_eq!(c.len(), 0);
    c.append(record("a", 200));
    c.append(record("b", 404));
    let all = c.drain();
    assert_eq!(all.len(), 2);
    assert_eq!(all[0].url, "a");
    assert_eq!(all[1].url, "b");
}

#[test]
fn timestamp_range() {
    assert!(Timestamp::new(0, 0).is_some());
    assert!(Timestamp::new(-1, 0).is_none());
    assert!(Timestamp::new(0, 1_000_000_000).is_none());
    assert!(Timestamp::new(100_000_000_000, 999_999_999).is_some());
    assert!(Timestamp::new(100_000_000_001, 0).is_none());
}
