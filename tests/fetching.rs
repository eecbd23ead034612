use agile_dashboard::config::Config;
use agile_dashboard::error::AppError;
use agile_dashboard::rates::Rate;
use agile_dashboard::retry::Backoff;
use agile_dashboard::retry::FetchAction;
use agile_dashboard::retry::PageEvent;
use agile_dashboard::retry::PageFetch;
use agile_dashboard::retry::RetryDecision;

fn priced(value: i64, valid_from: i64) -> Rate {
    Rate { value_inc_vat: value, value_exc_vat: value, valid_from, valid_to: valid_from + 1800 }
}

#[test]
fn backoff_waits_then_grows_fivefold() {
    let mut b = Backoff::new(3);
    assert!(b.may_attempt());
    assert_eq!(b.on_error(AppError::RateLimited), RetryDecision::Retry(100));
    assert!(b.may_attempt());
    assert_eq!(b.on_error(AppError::RateLimited), RetryDecision::Retry(500));
    assert!(b.may_attempt());
    assert_eq!(b.attempt, 3);
    // the third attempt succeeds: nothing more is asked of the backoff
}

#[test]
fn backoff_gives_up_on_last_attempt_or_other_errors() {
    let mut b = Backoff::new(2);
    assert_eq!(b.on_error(AppError::RateLimited), RetryDecision::Retry(100));
    assert_eq!(b.on_error(AppError::RateLimited), RetryDecision::Fail(AppError::RateLimited));
    let mut c = Backoff::new(5);
    let e = AppError::NotFound("x".to_string());
    assert_eq!(c.on_error(e.clone()), RetryDecision::Fail(e));
    assert_eq!(c.attempt, 1);
    assert!(!Backoff::new(0).may_attempt());
}

#[test]
fn backoff_delay_saturates() {
    let mut b = Backoff::new(u32::MAX);
    let mut last = 0u64;
    for _ in 0..40 {
        match b.on_error(AppError::RateLimited) {
            RetryDecision::Retry(d) => {
                assert!(d >= last);
                last = d;
            }
            RetryDecision::Fail(_) => panic!("attempts remain"),
        }
    }
    assert_eq!(last, u64::MAX);
}

#[test]
fn pagination_keeps_earlier_pages_when_a_later_one_is_rate_limited() {
    let mut fetch = PageFetch::new("https://example.test/p1".to_string(), 3);
    assert_eq!(fetch.start(), FetchAction::Request("https://example.test/p1".to_string(), 0));
    let page1 = vec![priced(1, 0), priced(2, 1800)];
    let action = fetch.on_event(PageEvent::Page(page1.clone(), Some("https://example.test/p2".to_string())));
    assert_eq!(
        action,
        FetchAction::Request("https://example.test/p2".to_string(), Config::PAGINATION_DELAY_MS as u64)
    );
    assert_eq!(
        fetch.on_event(PageEvent::Failed(AppError::RateLimited)),
        FetchAction::Request("https://example.test/p2".to_string(), 100)
    );
    assert_eq!(
        fetch.on_event(PageEvent::Failed(AppError::RateLimited)),
        FetchAction::Request("https://example.test/p2".to_string(), 500)
    );
    assert_eq!(
        fetch.on_event(PageEvent::Failed(AppError::RateLimited)),
        FetchAction::FinishPartial(AppError::RateLimited)
    );
    assert_eq!(fetch.into_records(), page1);
}

#[test]
fn pagination_first_page_failure_is_an_error() {
    let mut fetch = PageFetch::new("u".to_string(), 3);
    let e = AppError::AuthError("denied".to_string());
    assert_eq!(fetch.on_event(PageEvent::Failed(e.clone())), FetchAction::Fail(e));
    assert!(fetch.into_records().is_empty());
}

#[test]
fn pagination_collects_all_pages_in_order() {
    let mut fetch = PageFetch::new("a".to_string(), 3);
    fetch.on_event(PageEvent::Page(vec![priced(1, 0)], Some("b".to_string())));
    assert_eq!(
        fetch.on_event(PageEvent::Failed(AppError::RateLimited)),
        FetchAction::Request("b".to_string(), 100)
    );
    assert_eq!(fetch.on_event(PageEvent::Page(vec![priced(2, 1800)], Some("c".to_string()))), FetchAction::Request("c".to_string(), 5));
    // the retries start afresh on each page
    assert_eq!(fetch.backoff.attempt, 1);
    assert_eq!(fetch.on_event(PageEvent::Page(vec![priced(3, 3600)], None)), FetchAction::Finish);
    let values: Vec<i64> = fetch.into_records().iter().map(|r| r.value_inc_vat).collect();
    assert_eq!(values, vec![1, 2, 3]);
}

#[test]
fn no_attempt_allowed_fails_at_start() {
    let fetch = PageFetch::new("a".to_string(), 0);
    assert_eq!(fetch.start(), FetchAction::Fail(AppError::RateLimited));
}
