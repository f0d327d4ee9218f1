//! The service-level QoS policy the server is wired with: load shedding,
//! a fixed request timeout, a per-connection concurrency ceiling, and
//! idle-connection reclamation through keepalive probing. These are policy
//! knobs applied uniformly ahead of the business logic, not per-request
//! decisions.

use vstd::prelude::*;

verus! {

/// The knobs the server applies around the interceptor chain.
#[derive(Clone, Copy, PartialEq, Eq, Structural, Debug)]
pub struct QosPolicy {
    /// Shed load: reject calls beyond the threshold instead of queuing them.
    pub load_shed: bool,
    /// The fixed request timeout, independent of the load-shed threshold.
    pub request_timeout_secs: u64,
    /// The per-connection concurrency ceiling.
    pub concurrency_limit_per_connection: u64,
    /// How long a connection may live before it is recycled.
    pub max_connection_age_secs: u64,
    /// TCP keepalive probe interval for idle-connection reclamation.
    pub tcp_keepalive_secs: u64,
    /// HTTP/2 keepalive ping interval.
    pub http2_keepalive_interval_secs: u64,
    /// How long an HTTP/2 keepalive ping may go unanswered.
    pub http2_keepalive_timeout_secs: u64,
}

/// The policy the server is configured with.
pub fn server_qos_policy() -> (r: QosPolicy)
    ensures
        r.load_shed,
        r.request_timeout_secs == 10,
        r.concurrency_limit_per_connection == 128,
        r.max_connection_age_secs == 60,
        r.tcp_keepalive_secs == 30,
        r.http2_keepalive_interval_secs == 30,
        r.http2_keepalive_timeout_secs == 10,
{
    QosPolicy {
        load_shed: true,
        request_timeout_secs: 10,
        concurrency_limit_per_connection: 128,
        max_connection_age_secs: 60,
        tcp_keepalive_secs: 30,
        http2_keepalive_interval_secs: 30,
        http2_keepalive_timeout_secs: 10,
    }
}

/// The load-shedding decision for one more call on a connection that
/// already has `in_flight` calls running: admitted exactly below the
/// ceiling, rejected immediately — never queued — at or above it.
pub fn admit_call(policy: &QosPolicy, in_flight: u64) -> (r: bool)
    ensures
        r == (in_flight < policy.concurrency_limit_per_connection),
{
    in_flight < policy.concurrency_limit_per_connection
}

} // verus!
