//! The opaque sub-stack's target: raw TCP forwarding addressed by the
//! original destination, with routes derived from the discovery triple.

use vstd::prelude::*;
use crate::addr::{Addr, LogicalAddr, OrigDstAddr};
use crate::channel::{watch_borrow, watch_channel};
use crate::errors::SidecarError;
use crate::policy::{Backend, ClientPolicy, ParentRef};
use crate::profile::Profile;
use crate::sidecar::Sidecar;

verus! {

/// The routes the opaque sub-stack serves by. Addressing comes from the
/// original destination, not a logical name; the profile's logical address,
/// when one exists, rides along for telemetry.
#[derive(Clone, Debug)]
pub struct OpaqRoutes {
    pub addr: Addr,
    pub meta: ParentRef,
    pub logical: Option<LogicalAddr>,
    pub backends: Vec<Backend>,
}

/// What the opaque derivation yields for a discovery triple: every policy
/// projects, so an opaque target can always be built.
pub open spec fn spec_routes_from_discovery(
    addr: Addr,
    profile: Option<Profile>,
    policy: ClientPolicy,
) -> OpaqRoutes {
    OpaqRoutes {
        addr,
        meta: ParentRef(policy.parent),
        logical: match profile {
            Some(p) => p.addr,
            None => None,
        },
        backends: policy.backends,
    }
}

/// Derives opaque routes from the discovery triple.
pub fn routes_from_discovery(addr: Addr, profile: Option<Profile>, policy: ClientPolicy) -> (r:
    OpaqRoutes)
    ensures
        r == spec_routes_from_discovery(addr, profile, policy),
{
    OpaqRoutes {
        addr,
        meta: ParentRef(policy.parent),
        logical: match profile {
            Some(p) => p.addr,
            None => None,
        },
        backends: policy.backends,
    }
}

/// The target of the opaque sub-stack; keyed by `orig_dst` alone.
#[derive(Clone, Debug)]
pub struct OpaqSidecar {
    pub orig_dst: OrigDstAddr,
    pub routes: tokio::sync::watch::Receiver<OpaqRoutes>,
}

impl PartialEq for OpaqSidecar {
    fn eq(&self, o: &Self) -> (r: bool) {
        self.orig_dst == o.orig_dst
    }
}

impl vstd::std_specs::cmp::PartialEqSpecImpl for OpaqSidecar {
    open spec fn obeys_eq_spec() -> bool {
        true
    }

    open spec fn eq_spec(&self, o: &Self) -> bool {
        self.orig_dst == o.orig_dst
    }
}

impl Eq for OpaqSidecar {}

impl OpaqSidecar {
    /// Builds the opaque target for `parent` from the current snapshots:
    /// opaque construction never fails. `routes_from_discovery` pins the
    /// derivation for every pair of snapshots.
    pub fn new(parent: &Sidecar) -> (r: (OpaqSidecar, tokio::sync::watch::Sender<OpaqRoutes>))
        ensures
            r.0.orig_dst == parent.orig_dst,
    {
        let profile: Option<Profile> = match &parent.profile {
            Some(rx) => Some(watch_borrow(rx)),
            None => None,
        };
        let policy: ClientPolicy = watch_borrow(&parent.policy);
        let routes = routes_from_discovery(Addr::Socket(parent.orig_dst.0), profile, policy);
        let (tx, rx) = watch_channel(routes);
        (OpaqSidecar { orig_dst: parent.orig_dst, routes: rx }, tx)
    }

    /// A subscription to this target's routes.
    pub fn param_routes(&self) -> tokio::sync::watch::Receiver<OpaqRoutes> {
        self.routes.clone()
    }

    /// The key caches store this target under.
    pub fn hash_key(&self) -> (r: OrigDstAddr)
        ensures
            r == self.orig_dst,
    {
        self.orig_dst
    }
}

/// The routes in force name a backend to balance over exactly when the
/// backend list is not empty; a connection routed with no backends fails.
pub fn check_backends(backends: &Vec<Backend>) -> (r: Result<(), SidecarError>)
    ensures
        r is Ok <==> backends@.len() > 0,
        r matches Err(e) ==> e == SidecarError::BackendUnavailable,
{
    if backends.len() > 0 {
        Ok(())
    } else {
        Err(SidecarError::BackendUnavailable)
    }
}

} // verus!
