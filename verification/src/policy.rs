//! The client policy: the authoritative per-destination description of the
//! protocol discipline, routes, backends, and failure accrual for a target.

use vstd::prelude::*;

verus! {

/// Identifies the resource a client policy was synthesized for.
#[derive(Clone, Debug)]
pub struct Meta {
    pub group: String,
    pub kind: String,
    pub name: String,
}

/// A reference to the logical parent of a policy, carried in derived routes.
#[derive(Clone, Debug)]
pub struct ParentRef(pub Meta);

/// One candidate backend for load balancing.
#[derive(Clone, Debug)]
pub struct Backend {
    pub name: String,
    pub weight: u32,
}

/// One HTTP or gRPC routing rule: requests matched by `path` go to `backend`.
#[derive(Clone, Debug)]
pub struct RouteRule {
    pub path: String,
    pub backend: String,
}

/// One TLS routing rule, matched on the client hello's server name.
#[derive(Clone, Debug)]
pub struct SniRoute {
    pub sni: String,
    pub backend: String,
}

/// The failure-accrual discipline of a backend: either none, or a circuit
/// that removes the backend after a run of consecutive failures for a
/// cool-down interval.
#[derive(Clone, Copy, PartialEq, Eq, Structural, Hash, Debug)]
pub enum FailureAccrual {
    Disabled,
    Consecutive { max_failures: u32, cooldown_ms: u64 },
}

/// Routes and failure accrual for one HTTP version.
#[derive(Clone, Debug)]
pub struct HttpConfig {
    pub routes: Vec<RouteRule>,
    pub failure_accrual: FailureAccrual,
}

/// Routes and failure accrual for gRPC traffic.
#[derive(Clone, Debug)]
pub struct GrpcConfig {
    pub routes: Vec<RouteRule>,
    pub failure_accrual: FailureAccrual,
}

/// Routes for TLS-terminated traffic.
#[derive(Clone, Debug)]
pub struct TlsConfig {
    pub routes: Vec<SniRoute>,
}

/// Configuration of an opaque (raw TCP) target.
#[derive(Clone, Debug)]
pub struct OpaqueConfig {}

/// The protocol discipline a client policy prescribes for a target.
#[derive(Clone, Debug)]
pub enum PolicyProtocol {
    /// Decide at runtime between HTTP/1, HTTP/2, or opaque by peeking at the
    /// first bytes of the connection, for at most `timeout_ms`.
    Detect { timeout_ms: u64, http1: HttpConfig, http2: HttpConfig },
    Http1(HttpConfig),
    Http2(HttpConfig),
    Grpc(GrpcConfig),
    Opaque(OpaqueConfig),
    Tls(TlsConfig),
}

/// A client policy snapshot.
#[derive(Clone, Debug)]
pub struct ClientPolicy {
    pub parent: Meta,
    pub backends: Vec<Backend>,
    pub protocol: PolicyProtocol,
}

impl PolicyProtocol {
    /// The HTTP family: everything an HTTP sub-stack can keep serving.
    pub open spec fn is_http_family(self) -> bool {
        self matches PolicyProtocol::Detect { .. } || self matches PolicyProtocol::Http1(_)
            || self matches PolicyProtocol::Http2(_) || self matches PolicyProtocol::Grpc(_)
    }

    /// The TLS family.
    pub open spec fn is_tls_family(self) -> bool {
        self matches PolicyProtocol::Tls(_)
    }

    /// The opaque family.
    pub open spec fn is_opaque_family(self) -> bool {
        self matches PolicyProtocol::Opaque(_)
    }
}

} // verus!
