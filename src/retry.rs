//! The decisions of a fetch from a rate-limited service: how a response is
//! classified, when a request is retried and after what delay, and how the
//! pages of a listing are accumulated. The requests and the waiting are left
//! to the caller, which runs the loop and reports each outcome.
use vstd::prelude::*;
use vstd::string::StringExecFns;
use crate::config::Config;
use crate::error::AppError;
use crate::rates::Rate;
use crate::text::decimal;
use crate::text::push_decimal;

verus! {

/// The delay before the first retry, in milliseconds.
pub const BASE_DELAY_MS: u64 = 100;

/// The factor by which the delay grows after each retry.
pub const BACKOFF_FACTOR: u64 = 5;

/// The delay after attempt `k + 1` fails with 429: 100 ms, 500 ms, 2500 ms, ...
pub open spec fn backoff_delay(k: nat) -> int
    decreases k,
{
    if k == 0 {
        100
    } else {
        5 * backoff_delay((k - 1) as nat)
    }
}

/// `x`, or the largest `u64` where `x` exceeds it.
pub open spec fn saturate(x: int) -> int {
    if x > u64::MAX {
        u64::MAX as int
    } else {
        x
    }
}

/// The state of the retries of one request.
#[derive(Clone, Copy, Debug, PartialEq, Eq)]
pub struct Backoff {
    /// The attempt under way, from 1.
    pub attempt: u32,
    pub max_attempts: u32,
    /// The delay before the next retry, in milliseconds.
    pub delay_ms: u64,
}

/// The retries of a request before its first attempt.
pub open spec fn fresh_backoff(max_attempts: u32) -> Backoff {
    Backoff { attempt: 1, max_attempts, delay_ms: 100 }
}

/// What follows a failed attempt.
#[derive(Debug, Clone, PartialEq)]
pub enum RetryDecision {
    /// Wait this many milliseconds, then try again.
    Retry(u64),
    /// Give up with this error.
    Fail(AppError),
}

impl Backoff {
    /// The delay matches the attempt under way.
    pub open spec fn wf(self) -> bool {
        &&& self.attempt >= 1
        &&& self.delay_ms == saturate(backoff_delay((self.attempt - 1) as nat))
    }

    /// A failure of the attempt under way allows another.
    pub open spec fn retries(self, e: AppError) -> bool {
        e is RateLimited && self.attempt < self.max_attempts
    }

    /// Before the first attempt, allowing `max_attempts` in all.
    pub fn new(max_attempts: u32) -> (r: Backoff)
        ensures
            r == fresh_backoff(max_attempts),
            r.wf(),
    {
        Backoff { attempt: 1, max_attempts, delay_ms: BASE_DELAY_MS }
    }

    /// The attempt under way may be made: at most `max_attempts` in all.
    pub fn may_attempt(&self) -> (r: bool)
        ensures
            r == (self.attempt <= self.max_attempts),
    {
        self.attempt <= self.max_attempts
    }

    /// Decides after the attempt under way failed with `error`: only a 429
    /// with attempts left is retried, after the current delay, which then
    /// grows fivefold; any other error, or a 429 on the last attempt, is final.
    pub fn on_error(&mut self, error: AppError) -> (r: RetryDecision)
        requires
            old(self).wf(),
        ensures
            final(self).wf(),
            final(self).max_attempts == old(self).max_attempts,
            old(self).retries(error) ==> {
                &&& r == RetryDecision::Retry(old(self).delay_ms)
                &&& final(self).attempt == old(self).attempt + 1
            },
            !old(self).retries(error) ==> r == RetryDecision::Fail(error) && *final(self) == *old(
                self,
            ),
    {
        match error {
            AppError::RateLimited => {
                if self.attempt < self.max_attempts {
                    let wait = self.delay_ms;
                    self.attempt = self.attempt + 1;
                    self.delay_ms = if self.delay_ms <= u64::MAX / BACKOFF_FACTOR {
                        self.delay_ms * BACKOFF_FACTOR
                    } else {
                        u64::MAX
                    };
                    return RetryDecision::Retry(wait);
                }
                RetryDecision::Fail(AppError::RateLimited)
            },
            _ => RetryDecision::Fail(error),
        }
    }
}

/// The ways a request can fail before any HTTP status arrives.
#[derive(Clone, Copy, Debug, PartialEq, Eq, Structural)]
pub enum TransportFailure {
    Timeout,
    Request,
    Network,
}

/// The error for a request that failed in transport, with the transport's message.
pub fn transport_error(kind: TransportFailure, detail: &str) -> (r: AppError)
    ensures
        r matches AppError::ApiError(m) && m@ == match kind {
            TransportFailure::Timeout => "Request timeout: "@,
            TransportFailure::Request => "Request error: "@,
            TransportFailure::Network => "Network error: "@,
        } + detail@,
{
    let prefix = match kind {
        TransportFailure::Timeout => "Request timeout: ",
        TransportFailure::Request => "Request error: ",
        TransportFailure::Network => "Network error: ",
    };
    AppError::ApiError(String::from_str(prefix).concat(detail))
}

/// The message of an HTTP status without a kind of its own.
pub open spec fn status_message(status: u16, body: Seq<char>) -> Seq<char> {
    let head = if 400 <= status <= 499 {
        "Client error "@
    } else if 500 <= status <= 599 {
        "Server error "@
    } else {
        "Unexpected status "@
    };
    head + decimal(status as nat) + ": "@ + body
}

/// Classifies an HTTP response by its status: none for a success (2xx);
/// 429 is rate limiting, 401 and 403 an authentication failure, 404 a
/// missing resource; any other status an API error with the status and body.
pub fn error_for_status(status: u16, body: &str) -> (r: Option<AppError>)
    ensures
        200 <= status <= 299 <==> r is None,
        status == 429 ==> r == Some(AppError::RateLimited),
        (status == 401 || status == 403) ==> (r matches Some(AppError::AuthError(m)) && m@ == body@),
        status == 404 ==> (r matches Some(AppError::NotFound(m)) && m@ == body@),
        !(200 <= status <= 299 || status == 429 || status == 401 || status == 403 || status == 404)
            ==> (r matches Some(AppError::ApiError(m)) && m@ == status_message(status, body@)),
{
    if 200 <= status && status <= 299 {
        None
    } else if status == 429 {
        Some(AppError::RateLimited)
    } else if status == 401 || status == 403 {
        Some(AppError::AuthError(String::from_str(body)))
    } else if status == 404 {
        Some(AppError::NotFound(String::from_str(body)))
    } else {
        let mut m = if 400 <= status && status <= 499 {
            String::from_str("Client error ")
        } else if 500 <= status && status <= 599 {
            String::from_str("Server error ")
        } else {
            String::from_str("Unexpected status ")
        };
        push_decimal(&mut m, status as u64);
        m.append(": ");
        m.append(body);
        assert(m@ =~= status_message(status, body@));
        Some(AppError::ApiError(m))
    }
}

/// What a request for one page came to.
#[derive(Debug, Clone, PartialEq)]
pub enum PageEvent {
    /// The page's records, and the link to the next page where there is one.
    Page(Vec<Rate>, Option<String>),
    /// The request failed.
    Failed(AppError),
}

/// What the caller does next.
#[derive(Debug, Clone, PartialEq)]
pub enum FetchAction {
    /// Wait `delay_ms` milliseconds, then request `url`.
    Request(String, u64),
    /// The listing is complete: its records are the result.
    Finish,
    /// A later page failed: the records of the pages before it are the
    /// result, and the error is only reported as a warning.
    FinishPartial(AppError),
    /// The first page failed: the error is the result.
    Fail(AppError),
}

/// A fetch of a paginated listing, page by page, with retries on 429.
#[derive(Debug)]
pub struct PageFetch {
    /// The page being requested.
    pub url: String,
    /// The records of the pages received so far, in order.
    pub records: Vec<Rate>,
    /// At least one page was received.
    pub any_page: bool,
    /// The retries of the page being requested.
    pub backoff: Backoff,
    /// The pause between pages, in milliseconds.
    pub page_delay_ms: u64,
}

impl PageFetch {
    pub open spec fn wf(&self) -> bool {
        self.backoff.wf()
    }

    /// A fetch that starts at `url` and allows `max_attempts` per page.
    pub fn new(url: String, max_attempts: u32) -> (r: PageFetch)
        ensures
            r.wf(),
            r.url == url,
            r.records@.len() == 0,
            !r.any_page,
            r.backoff == fresh_backoff(max_attempts),
            r.page_delay_ms == Config::PAGINATION_DELAY_MS,
    {
        PageFetch {
            url,
            records: Vec::new(),
            any_page: false,
            backoff: Backoff::new(max_attempts),
            page_delay_ms: Config::PAGINATION_DELAY_MS as u64,
        }
    }

    /// The first action: request the first page at once, unless no attempt
    /// is allowed at all.
    pub fn start(&self) -> (r: FetchAction)
        ensures
            self.backoff.attempt <= self.backoff.max_attempts ==> (r matches FetchAction::Request(
                u,
                d,
            ) && u@ == self.url@ && d == 0),
            self.backoff.attempt > self.backoff.max_attempts ==> r == FetchAction::Fail(
                AppError::RateLimited,
            ),
    {
        if self.backoff.may_attempt() {
            FetchAction::Request(self.url.clone(), 0)
        } else {
            FetchAction::Fail(AppError::RateLimited)
        }
    }

    /// Takes in the outcome of the last request. A page adds its records and
    /// leads to the next page, after the pause between pages, or to the end. A
    /// failure is retried where the backoff allows; otherwise it ends the
    /// fetch, with the records so far where an earlier page arrived and with
    /// the error where none did.
    pub fn on_event(&mut self, event: PageEvent) -> (r: FetchAction)
        requires
            old(self).wf(),
        ensures
            final(self).wf(),
            final(self).page_delay_ms == old(self).page_delay_ms,
            match event {
                PageEvent::Page(recs, next) => {
                    &&& final(self).records@ == old(self).records@ + recs@
                    &&& final(self).any_page
                    &&& final(self).backoff == fresh_backoff(old(self).backoff.max_attempts)
                    &&& match next {
                        Some(u) => final(self).url == u && (r matches FetchAction::Request(v, d)
                            && v@ == u@ && d == old(self).page_delay_ms),
                        None => r == FetchAction::Finish && final(self).url == old(self).url,
                    }
                },
                PageEvent::Failed(e) => {
                    &&& final(self).records == old(self).records
                    &&& final(self).any_page == old(self).any_page
                    &&& final(self).url == old(self).url
                    &&& if old(self).backoff.retries(e) {
                        &&& r matches FetchAction::Request(v, d) && v@ == old(self).url@ && d
                            == old(self).backoff.delay_ms
                        &&& final(self).backoff.attempt == old(self).backoff.attempt + 1
                        &&& final(self).backoff.max_attempts == old(self).backoff.max_attempts
                    } else if old(self).any_page {
                        r == FetchAction::FinishPartial(e)
                    } else {
                        r == FetchAction::Fail(e)
                    }
                },
            },
    {
        match event {
            PageEvent::Page(recs, next) => {
                let mut recs = recs;
                self.records.append(&mut recs);
                self.any_page = true;
                self.backoff = Backoff::new(self.backoff.max_attempts);
                match next {
                    Some(u) => {
                        self.url = u;
                        FetchAction::Request(self.url.clone(), self.page_delay_ms)
                    },
                    None => FetchAction::Finish,
                }
            },
            PageEvent::Failed(e) => {
                match self.backoff.on_error(e) {
                    RetryDecision::Retry(d) => FetchAction::Request(self.url.clone(), d),
                    RetryDecision::Fail(err) => {
                        if self.any_page {
                            FetchAction::FinishPartial(err)
                        } else {
                            FetchAction::Fail(err)
                        }
                    },
                }
            },
        }
    }

    /// The records of the pages received, in order.
    pub fn into_records(self) -> (r: Vec<Rate>)
        ensures
            r == self.records,
    {
        self.records
    }
}

} // verus!
