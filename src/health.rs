//! Polling the server's health endpoint until it answers with a success
//! status or the deadline passes.
use vstd::prelude::*;
use crate::error::StartError;
use crate::text::{decimal, decimal_string, joined};

verus! {

/// Relies on reqwest::StatusCode (http's `StatusCode`): `from_u16` accepts
/// exactly the codes 100 to 999, and `is_success` holds exactly for 200 to 299.
#[verifier::external_body]
fn status_is_success(code: u16) -> (r: bool)
    ensures
        r == (200 <= code && code < 300),
{
    match reqwest::StatusCode::from_u16(code) {
        Ok(status) => status.is_success(),
        Err(_) => false,
    }
}

/// The timing of a health wait, in milliseconds.
#[derive(PartialEq, Eq, Structural, Clone, Copy, Debug)]
pub struct HealthCheckPolicy {
    /// The bound on one request.
    pub request_timeout_ms: u64,
    /// The pause after an unsuccessful request.
    pub poll_interval_ms: u64,
    /// The overall deadline of the wait.
    pub deadline_ms: u64,
}

impl HealthCheckPolicy {
    /// Requests bounded by half a second, every fifth of a second, for four
    /// seconds.
    pub fn standard() -> (r: HealthCheckPolicy)
        ensures
            r == (HealthCheckPolicy {
                request_timeout_ms: 500,
                poll_interval_ms: 200,
                deadline_ms: 4000,
            }),
    {
        HealthCheckPolicy { request_timeout_ms: 500, poll_interval_ms: 200, deadline_ms: 4000 }
    }
}

/// The address of the health endpoint of a server on `port`.
pub open spec fn health_url_of(port: u16) -> Seq<char> {
    "http://localhost:"@ + decimal(port as nat) + "/api/health"@
}

/// Writes the health endpoint's address for `port`.
pub fn health_url(port: u16) -> (r: String)
    ensures
        r@ == health_url_of(port),
{
    let digits = decimal_string(port as u64);
    let mut r = joined("http://localhost:", digits.as_str());
    r.append("/api/health");
    r
}

/// What the host reports to the waiter.
#[derive(PartialEq, Eq, Structural, Clone, Copy, Debug)]
pub enum HealthEvent {
    /// The clock, read before a request, `elapsed_ms` after the wait began.
    Tick { elapsed_ms: u64 },
    /// The server answered with this status code.
    Response { status: u16 },
    /// The request failed or timed out without an answer.
    RequestFailed,
}

/// What the host does next.
#[derive(PartialEq, Eq, Structural, Clone, Copy, Debug)]
pub enum HealthAction {
    /// Issue one request to the health endpoint.
    SendRequest,
    /// Wait this long, then read the clock again.
    Sleep { ms: u64 },
    /// The server is ready.
    Healthy,
    /// The deadline passed without a successful answer.
    TimedOut,
}

pub open spec fn is_success_status(status: u16) -> bool {
    200 <= status < 300
}

/// The waiter's answer to `e`.
pub open spec fn health_next(p: HealthCheckPolicy, e: HealthEvent) -> HealthAction {
    match e {
        HealthEvent::Tick { elapsed_ms } => if elapsed_ms > p.deadline_ms {
            HealthAction::TimedOut
        } else {
            HealthAction::SendRequest
        },
        HealthEvent::Response { status } => if is_success_status(status) {
            HealthAction::Healthy
        } else {
            HealthAction::Sleep { ms: p.poll_interval_ms }
        },
        HealthEvent::RequestFailed => HealthAction::Sleep { ms: p.poll_interval_ms },
    }
}

/// Decides the next step of a health wait. Answers that are not a success
/// and failed requests are treated alike: wait one interval and retry.
pub fn health_step(policy: &HealthCheckPolicy, event: HealthEvent) -> (r: HealthAction)
    ensures
        r == health_next(*policy, event),
{
    match event {
        HealthEvent::Tick { elapsed_ms } => {
            if elapsed_ms > policy.deadline_ms {
                HealthAction::TimedOut
            } else {
                HealthAction::SendRequest
            }
        },
        HealthEvent::Response { status } => {
            if status_is_success(status) {
                HealthAction::Healthy
            } else {
                HealthAction::Sleep { ms: policy.poll_interval_ms }
            }
        },
        HealthEvent::RequestFailed => HealthAction::Sleep { ms: policy.poll_interval_ms },
    }
}

/// The error that ends a wait that timed out; it names the deadline in
/// whole seconds.
pub fn timeout_error(policy: &HealthCheckPolicy) -> (r: StartError)
    ensures
        r == (StartError::HealthTimeout { deadline_secs: policy.deadline_ms / 1000 }),
{
    StartError::HealthTimeout { deadline_secs: policy.deadline_ms / 1000 }
}

/// A server that answers with a success status at once is reported healthy
/// on its first answer, before any pause.
pub proof fn lemma_ready_at_once(p: HealthCheckPolicy, elapsed_ms: u64, status: u16)
    requires
        elapsed_ms <= p.deadline_ms,
        200 <= status < 300,
    ensures
        health_next(p, (HealthEvent::Tick { elapsed_ms })) == HealthAction::SendRequest,
        health_next(p, (HealthEvent::Response { status })) == HealthAction::Healthy,
{
}

/// Against a server that never answers successfully, with requests that take
/// no time, the clock is read every poll interval; the wait then gives up at
/// the first reading past the deadline, which is no later than one poll
/// interval after it. Before that every reading leads to a request.
pub proof fn lemma_timeout_window(p: HealthCheckPolicy, k: nat)
    requires
        p.poll_interval_ms > 0,
        k * p.poll_interval_ms <= u64::MAX,
        health_next(p, (HealthEvent::Tick { elapsed_ms: (k * p.poll_interval_ms) as u64 }))
            == HealthAction::TimedOut,
        forall|i: nat|
            i < k ==> #[trigger] health_next(
                p,
                (HealthEvent::Tick { elapsed_ms: (i * p.poll_interval_ms) as u64 }),
            ) == HealthAction::SendRequest,
    ensures
        p.deadline_ms < k * p.poll_interval_ms <= p.deadline_ms + p.poll_interval_ms,
        forall|status: u16|
            !is_success_status(status) ==> #[trigger] health_next(p, (HealthEvent::Response { status }))
                == (HealthAction::Sleep { ms: p.poll_interval_ms }),
        health_next(p, HealthEvent::RequestFailed) == (HealthAction::Sleep { ms: p.poll_interval_ms }),
{
    let d = p.poll_interval_ms as nat;
    assert(k > 0);
    let j = (k - 1) as nat;
    assert(j * d + d == k * d) by (nonlinear_arith)
        requires
            j == k - 1,
            k > 0,
    ;
    assert(j * d <= k * d) by (nonlinear_arith)
        requires
            j * d + d == k * d,
    ;
    assert(health_next(p, (HealthEvent::Tick { elapsed_ms: (j * d) as u64 }))
        == HealthAction::SendRequest);
}

} // verus!
