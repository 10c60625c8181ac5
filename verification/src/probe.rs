//! Classification of one outbound probe and the retry-on-slow-failure
//! policy.
//!
//! The caller performs the HTTP GET and reports what happened as a
//! [`ProbeOutcome`] together with the elapsed wall-clock time; everything
//! that is decided about that outcome is decided here.

use vstd::prelude::*;
use crate::status::Status;
use crate::text::spec_contains;
use crate::text::contains_sub;

verus! {

/// A first probe classified `down` slower than this many milliseconds is
/// taken for a transient timeout and repeated exactly once.
pub const RETRY_THRESHOLD_MS: i64 = 10000;

/// What one outbound HTTP GET came back with.
pub enum ProbeOutcome {
    /// The transport failed outright: no connection, no response.
    NoResponse,
    /// The configured timeout elapsed before a response arrived.
    TimedOut,
    /// A response arrived but its body could not be decoded.
    BodyUnreadable,
    /// A response arrived with this decoded body.
    Received { body: String },
}

/// The classified result of one probe: a state and the milliseconds
/// spent probing.
#[derive(Clone, Copy, PartialEq, Eq, Structural, Debug)]
pub struct ProbeResult {
    pub status: Status,
    pub duration_ms: i64,
}

/// How an outcome is classified: a body holding the keyword is `up`; a
/// body without it, an undecodable body and a timeout are `down` with the
/// elapsed time; a transport failure is `down` with duration 0.
pub open spec fn spec_classify(o: ProbeOutcome, keyword: Seq<char>, elapsed_ms: i64) -> ProbeResult {
    match o {
        ProbeOutcome::NoResponse => ProbeResult { status: Status::Down, duration_ms: 0 },
        ProbeOutcome::TimedOut => ProbeResult { status: Status::Down, duration_ms: elapsed_ms },
        ProbeOutcome::BodyUnreadable => ProbeResult {
            status: Status::Down,
            duration_ms: elapsed_ms,
        },
        ProbeOutcome::Received { body } => ProbeResult {
            status: if spec_contains(body@, keyword) {
                Status::Up
            } else {
                Status::Down
            },
            duration_ms: elapsed_ms,
        },
    }
}

/// Classify one probe outcome against the site's keyword.
pub fn classify(outcome: &ProbeOutcome, keyword: &str, elapsed_ms: i64) -> (r: ProbeResult)
    requires
        elapsed_ms >= 0,
    ensures
        r == spec_classify(*outcome, keyword@, elapsed_ms),
{
    match outcome {
        ProbeOutcome::NoResponse => ProbeResult { status: Status::Down, duration_ms: 0 },
        ProbeOutcome::TimedOut => ProbeResult { status: Status::Down, duration_ms: elapsed_ms },
        ProbeOutcome::BodyUnreadable => ProbeResult {
            status: Status::Down,
            duration_ms: elapsed_ms,
        },
        ProbeOutcome::Received { body } => {
            let up = contains_sub(body.as_str(), keyword);
            ProbeResult {
                status: if up {
                    Status::Up
                } else {
                    Status::Down
                },
                duration_ms: elapsed_ms,
            }
        },
    }
}

/// The retry rule: only a `down` result slower than the threshold is
/// probed a second time.
pub open spec fn spec_needs_retry(r: ProbeResult) -> bool {
    r.status is Down && r.duration_ms > RETRY_THRESHOLD_MS
}

/// Whether this first result triggers the single retry. A result of
/// `down` with duration above 10 000 ms does; a `down` at or under the
/// threshold, or an `up`, never does.
pub fn needs_retry(r: &ProbeResult) -> (b: bool)
    ensures
        b == spec_needs_retry(*r),
{
    r.status == Status::Down && r.duration_ms > RETRY_THRESHOLD_MS
}

/// The final result of the probe phase: the second result where a retry
/// was made, the first otherwise.
pub open spec fn spec_resolve(first: ProbeResult, second: Option<ProbeResult>) -> ProbeResult {
    match second {
        Some(s) => s,
        None => first,
    }
}

/// Settle the probe phase. The caller retried exactly when the first
/// result demanded it; whatever the second probe returned is final, with
/// no further retries.
pub fn resolve(first: ProbeResult, second: Option<ProbeResult>) -> (r: ProbeResult)
    requires
        second is Some <==> spec_needs_retry(first),
    ensures
        r == spec_resolve(first, second),
        spec_needs_retry(first) ==> r == second->Some_0,
        !spec_needs_retry(first) ==> r == first,
{
    match second {
        Some(s) => s,
        None => first,
    }
}

/// The retry policy in one statement: a probe returning `down` slower
/// than 10 000 ms triggers exactly one retry, whose result is final
/// whatever it is; a probe returning `down` at or under the threshold,
/// or returning `up`, stands immediately and is never retried.
pub proof fn lemma_retry_policy(first: ProbeResult, second: ProbeResult)
    ensures
        spec_needs_retry(first) <==> first.status is Down && first.duration_ms
            > RETRY_THRESHOLD_MS,
        spec_resolve(first, Some(second)) == second,
        spec_resolve(first, None) == first,
{
}

/// The user-agent suffix appended to every probe.
pub open spec fn spec_ua_suffix() -> Seq<char> {
    " allgreen.me Up Time Checker"@
}

/// The user-agent sent when the site configures no override.
pub open spec fn spec_default_ua() -> Seq<char> {
    "Windows NT 10.0; Win64; x64) AppleWebKit/537.36 (KHTML, like Gecko) Chrome/108.0.0.0 Safari/537.36 allgreen.me Up Time Checker"@
}

/// The User-Agent header of a probe: the site's override with the fixed
/// product signature appended, or the fixed default signature.
pub fn build_user_agent(ua: &Option<String>) -> (r: String)
    ensures
        r@ == match *ua {
            Some(u) => u@ + spec_ua_suffix(),
            None => spec_default_ua(),
        },
{
    match ua {
        Some(u) => u.clone().concat(" allgreen.me Up Time Checker"),
        None => String::from_str(
            "Windows NT 10.0; Win64; x64) AppleWebKit/537.36 (KHTML, like Gecko) Chrome/108.0.0.0 Safari/537.36 allgreen.me Up Time Checker",
        ),
    }
}

/// The JSON body of the owner webhook: a human-readable
/// `<url> is <state>` message.
pub open spec fn spec_webhook_body(url: Seq<char>, s: Status) -> Seq<char> {
    "{ \"content\" : \" "@ + url + " is "@ + crate::status::spec_label(s) + " \"  }"@
}

/// Build the webhook payload announcing that `url` is now in state `s`.
pub fn webhook_body(url: &str, s: Status) -> (r: String)
    ensures
        r@ == spec_webhook_body(url@, s),
{
    String::from_str("{ \"content\" : \" ").concat(url).concat(" is ").concat(s.label()).concat(
        " \"  }",
    )
}

} // verus!
