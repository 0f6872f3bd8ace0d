//! The decisions of the scrape and push loops.
//!
//! The scrape loop sleeps, fetches, and hands each fetched payload to a
//! bounded queue; the push loop takes payloads off the queue one at a time and
//! posts each to the destination once. The functions here decide what each
//! step does; performing it (the sleep, the request, the enqueue) is the
//! caller's part.
use vstd::prelude::*;

use crate::config::Config;

verus! {

/// The number of payloads the queue between the two loops can hold.
pub const QUEUE_CAPACITY: usize = 32;

/// The destination of every push: the base address, then the job and instance
/// labels, inserted as they are.
pub open spec fn push_url(base: Seq<char>, job: Seq<char>, instance: Seq<char>) -> Seq<char> {
    base + "/metrics/job/"@ + job + "/instance/"@ + instance
}

/// The address that every payload is posted to.
pub fn push_endpoint(cfg: &Config) -> (r: String)
    ensures
        r@ == push_url(cfg.push_addr@, cfg.job@, cfg.instance@),
{
    let mut s = cfg.push_addr.clone();
    s.append("/metrics/job/");
    s.append(cfg.job.as_str());
    s.append("/instance/");
    s.append(cfg.instance.as_str());
    s
}

/// The warning logged when a scrape fails.
pub open spec fn scrape_warning(detail: Seq<char>) -> Seq<char> {
    "failed to scrape metrics: "@ + detail
}

/// What the scrape loop does once a cycle's fetch has finished.
pub struct CyclePlan {
    /// The payload to hand to the queue, if the fetch succeeded.
    pub handoff: Option<Vec<u8>>,
    /// The warning to log, if the fetch failed.
    pub warning: Option<String>,
    /// How long to sleep before the next fetch.
    pub sleep_secs: u64,
}

/// What follows a fetch whose result is `fetched`: the payload, on success, is
/// handed off exactly once; a failure is logged and the cycle skipped. Either
/// way the next fetch comes after the configured interval.
pub open spec fn is_cycle_plan(interval: u64, fetched: Result<Vec<u8>, String>, r: CyclePlan) -> bool {
    &&& r.sleep_secs == interval
    &&& match fetched {
        Ok(p) => r.handoff is Some && r.handoff->0@ == p@ && r.warning is None,
        Err(e) => r.handoff is None && r.warning is Some && r.warning->0@ == scrape_warning(e@),
    }
}

/// Decides what the scrape loop does after a fetch.
pub fn plan_cycle(cfg: &Config, fetched: Result<Vec<u8>, String>) -> (r: CyclePlan)
    ensures
        is_cycle_plan(cfg.scrape_interval, fetched, r),
{
    match fetched {
        Ok(p) => CyclePlan { handoff: Some(p), warning: None, sleep_secs: cfg.scrape_interval },
        Err(e) => {
            let w = String::from_str("failed to scrape metrics: ").concat(e.as_str());
            CyclePlan { handoff: None, warning: Some(w), sleep_secs: cfg.scrape_interval }
        },
    }
}

/// A fetch's outcome never moves the scrape loop's timing: after a success
/// and after a failure alike, the next fetch comes one configured interval
/// later. The plan depends on the configuration and the fetch alone, so
/// nothing the push loop meets reaches it either.
pub proof fn lemma_cycle_timing_independent_of_outcome(
    interval: u64,
    a: Result<Vec<u8>, String>,
    b: Result<Vec<u8>, String>,
    plan_a: CyclePlan,
    plan_b: CyclePlan,
)
    requires
        is_cycle_plan(interval, a, plan_a),
        is_cycle_plan(interval, b, plan_b),
    ensures
        plan_a.sleep_secs == plan_b.sleep_secs,
        plan_a.sleep_secs == interval,
{
}

/// A scrape cycle hands off at most one payload, and exactly one when its
/// fetch succeeded: the fetched bytes, unchanged.
pub proof fn lemma_one_handoff_per_successful_cycle(
    interval: u64,
    fetched: Result<Vec<u8>, String>,
    plan: CyclePlan,
)
    requires
        is_cycle_plan(interval, fetched, plan),
    ensures
        (plan.handoff is Some) <==> (fetched is Ok),
        fetched is Ok ==> plan.handoff->0@ == fetched->Ok_0@,
{
}

/// The HTTP status that marks a push as delivered.
pub const STATUS_OK: u16 = 200;

/// How a post to the destination ended.
pub enum PushOutcome {
    /// No response: the transport's error, as text.
    Unreachable(String),
    /// A response with the given status; `detail` describes the response.
    Responded { status: u16, detail: String },
}

/// The severity of a log line.
#[derive(PartialEq, Eq, Structural, Clone, Copy, Debug)]
pub enum LogLevel {
    Debug,
    Warn,
}

/// One line for the log.
pub struct LogLine {
    pub level: LogLevel,
    pub text: String,
}

/// What the push loop does once a post has ended. The payload is never posted
/// again, whatever the outcome.
pub struct PushReport {
    /// The line to log.
    pub line: LogLine,
    /// Whether the response body is to be read and logged next.
    pub read_body: bool,
}

/// The debug line for a delivered payload.
pub open spec fn delivered_text() -> Seq<char> {
    "pushed metrics to gateway"@
}

/// The warning for a post that got no response.
pub open spec fn unreachable_warning(detail: Seq<char>) -> Seq<char> {
    "failed to push metrics: "@ + detail
}

/// The warning for a response other than success.
pub open spec fn rejected_warning(detail: Seq<char>) -> Seq<char> {
    "failed to push metrics to gateway: "@ + detail
}

/// The warning that carries a rejected push's response body.
pub open spec fn body_warning(body: Seq<char>) -> Seq<char> {
    "error body: "@ + body
}

/// Whether `r` is what follows a post that ended in `outcome`.
pub open spec fn is_push_report(outcome: PushOutcome, r: PushReport) -> bool {
    match outcome {
        PushOutcome::Unreachable(e) => {
            &&& r.line.level == LogLevel::Warn
            &&& r.line.text@ == unreachable_warning(e@)
            &&& !r.read_body
        },
        PushOutcome::Responded { status, detail } => if status == STATUS_OK {
            &&& r.line.level == LogLevel::Debug
            &&& r.line.text@ == delivered_text()
            &&& !r.read_body
        } else {
            &&& r.line.level == LogLevel::Warn
            &&& r.line.text@ == rejected_warning(detail@)
            &&& r.read_body
        },
    }
}

/// No post ends unrecorded: a delivered payload is logged at debug level, and
/// every failed one (no response, or any status but success) is logged as a
/// warning before the payload is dropped.
pub proof fn lemma_every_push_outcome_is_logged(outcome: PushOutcome, r: PushReport)
    requires
        is_push_report(outcome, r),
    ensures
        (r.line.level == LogLevel::Debug) <==> (outcome matches PushOutcome::Responded {
            status,
            ..
        } && status == STATUS_OK),
        (r.line.level == LogLevel::Warn) <==> !(outcome matches PushOutcome::Responded {
            status,
            ..
        } && status == STATUS_OK),
        r.line.text@.len() > 0,
{
    reveal_strlit("pushed metrics to gateway");
    reveal_strlit("failed to push metrics: ");
    reveal_strlit("failed to push metrics to gateway: ");
}

/// Decides what the push loop logs after a post, and whether it reads the body.
pub fn report_push(outcome: PushOutcome) -> (r: PushReport)
    ensures
        is_push_report(outcome, r),
{
    match outcome {
        PushOutcome::Unreachable(e) => {
            let text = String::from_str("failed to push metrics: ").concat(e.as_str());
            PushReport { line: LogLine { level: LogLevel::Warn, text }, read_body: false }
        },
        PushOutcome::Responded { status, detail } => {
            if status == STATUS_OK {
                let text = String::from_str("pushed metrics to gateway");
                PushReport { line: LogLine { level: LogLevel::Debug, text }, read_body: false }
            } else {
                let text = String::from_str("failed to push metrics to gateway: ").concat(
                    detail.as_str(),
                );
                PushReport { line: LogLine { level: LogLevel::Warn, text }, read_body: true }
            }
        },
    }
}

/// The warning that logs a rejected push's response body.
pub fn body_line(body: &str) -> (r: LogLine)
    ensures
        r.level == LogLevel::Warn,
        r.text@ == body_warning(body@),
{
    LogLine { level: LogLevel::Warn, text: String::from_str("error body: ").concat(body) }
}

} // verus!
