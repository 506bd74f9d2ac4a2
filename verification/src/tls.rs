//! The TLS sub-stack's target and route projection: only a `Tls` policy can
//! build or reconfigure it; every other policy arm is a cross-family update
//! and is dropped.

use vstd::prelude::*;
use crate::addr::{Addr, OrigDstAddr};
use crate::channel::{watch_borrow, watch_channel};
use crate::errors::SidecarError;
use crate::policy::{Backend, ClientPolicy, ParentRef, PolicyProtocol, SniRoute};
use crate::sidecar::Sidecar;

verus! {

/// The routes the TLS sub-stack serves by.
#[derive(Clone, Debug)]
pub struct TlsRoutes {
    pub addr: Addr,
    pub meta: ParentRef,
    pub routes: Vec<SniRoute>,
    pub backends: Vec<Backend>,
}

/// What the TLS policy projector yields: routes on a `Tls` policy, nothing
/// on every other arm.
pub open spec fn spec_tls_routes(orig_dst: OrigDstAddr, policy: ClientPolicy) -> Option<
    TlsRoutes,
> {
    match policy.protocol {
        PolicyProtocol::Tls(cfg) => Some(TlsRoutes {
            addr: Addr::Socket(orig_dst.0),
            meta: ParentRef(policy.parent),
            routes: cfg.routes,
            backends: policy.backends,
        }),
        _ => None,
    }
}

/// Law: a TLS sub-stack has routes to start from exactly when the policy's
/// protocol is `Tls`; any other update projects to nothing and a live TLS
/// sub-stack keeps its last routes.
pub proof fn lemma_tls_requires_tls_policy(orig_dst: OrigDstAddr, policy: ClientPolicy)
    ensures
        spec_tls_routes(orig_dst, policy) is Some <==> policy.protocol.is_tls_family(),
{
}

/// The target of the TLS sub-stack; keyed by `orig_dst` alone.
#[derive(Clone, Debug)]
pub struct TlsSidecar {
    pub orig_dst: OrigDstAddr,
    pub routes: tokio::sync::watch::Receiver<TlsRoutes>,
}

impl PartialEq for TlsSidecar {
    fn eq(&self, o: &Self) -> (r: bool) {
        self.orig_dst == o.orig_dst
    }
}

impl vstd::std_specs::cmp::PartialEqSpecImpl for TlsSidecar {
    open spec fn obeys_eq_spec() -> bool {
        true
    }

    open spec fn eq_spec(&self, o: &Self) -> bool {
        self.orig_dst == o.orig_dst
    }
}

impl Eq for TlsSidecar {}

/// The per-target route republisher of the TLS sub-stack; `published`
/// mirrors the target's routes channel.
pub struct TlsRouteDriver {
    pub orig_dst: OrigDstAddr,
    pub published: Ghost<TlsRoutes>,
}

impl TlsRouteDriver {
    /// Feeds one client-policy update: a `Tls` policy's routes are
    /// published; any other arm is dropped and the last published routes
    /// stand.
    pub fn on_policy_update(&mut self, policy: ClientPolicy) -> (r: Option<TlsRoutes>)
        ensures
            final(self).orig_dst == old(self).orig_dst,
            r == spec_tls_routes(old(self).orig_dst, policy),
            r matches Some(v) ==> final(self).published@ == v,
            r is None ==> final(self).published@ == old(self).published@,
    {
        let r = TlsSidecar::mk_policy_routes(self.orig_dst, policy);
        match &r {
            Some(v) => {
                self.published = Ghost(*v);
            }
            None => {}
        }
        r
    }
}

/// Law: a policy update that leaves the TLS family keeps a live TLS
/// sub-stack's published routes unchanged. The hypotheses are exactly what
/// every call of `on_policy_update` ensures of its driver and result.
pub proof fn lemma_cross_family_update_keeps_published(
    pre: TlsRouteDriver,
    post: TlsRouteDriver,
    policy: ClientPolicy,
    r: Option<TlsRoutes>,
)
    requires
        !policy.protocol.is_tls_family(),
        r == spec_tls_routes(pre.orig_dst, policy),
        r is None ==> post.published@ == pre.published@,
    ensures
        r is None,
        post.published@ == pre.published@,
{
}

impl TlsSidecar {
    /// Projects TLS routes from a policy snapshot.
    pub fn mk_policy_routes(orig_dst: OrigDstAddr, policy: ClientPolicy) -> (r: Option<TlsRoutes>)
        ensures
            r == spec_tls_routes(orig_dst, policy),
    {
        let ClientPolicy { parent, backends, protocol } = policy;
        match protocol {
            PolicyProtocol::Tls(cfg) => Some(TlsRoutes {
                addr: Addr::Socket(orig_dst.0),
                meta: ParentRef(parent),
                routes: cfg.routes,
                backends,
            }),
            _ => None,
        }
    }

    /// Builds the TLS target for `parent`: the current policy snapshot must
    /// be `Tls`, else nothing can seed the routes channel and construction
    /// reports `InitialRoutesInvalid`. `mk_policy_routes` pins the decision
    /// for every snapshot the watch could have held.
    pub fn new(parent: &Sidecar) -> (r: Result<
        (TlsSidecar, TlsRouteDriver, tokio::sync::watch::Sender<TlsRoutes>),
        SidecarError,
    >)
        ensures
            r matches Ok((s, d, _)) ==> s.orig_dst == parent.orig_dst && d.orig_dst
                == parent.orig_dst,
            r matches Err(e) ==> e == SidecarError::InitialRoutesInvalid,
    {
        let policy: ClientPolicy = watch_borrow(&parent.policy);
        match Self::mk_policy_routes(parent.orig_dst, policy) {
            Some(init) => {
                let published = Ghost(init);
                let (tx, rx) = watch_channel(init);
                let driver = TlsRouteDriver { orig_dst: parent.orig_dst, published };
                Ok((TlsSidecar { orig_dst: parent.orig_dst, routes: rx }, driver, tx))
            }
            None => Err(SidecarError::InitialRoutesInvalid),
        }
    }

    /// A subscription to this target's routes.
    pub fn param_routes(&self) -> tokio::sync::watch::Receiver<TlsRoutes> {
        self.routes.clone()
    }

    /// The key caches store this target under.
    pub fn hash_key(&self) -> (r: OrigDstAddr)
        ensures
            r == self.orig_dst,
    {
        self.orig_dst
    }
}

} // verus!
