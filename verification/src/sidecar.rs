//! The discovered target of one outbound connection: the original
//! destination bound to its profile and policy subscriptions, and the
//! projections the rest of the assembly reads off it.

use vstd::prelude::*;
use crate::addr::{OrigDstAddr, Remote, ServerAddr};
use crate::channel::watch_borrow;
use crate::errors::SidecarError;
use crate::policy::{ClientPolicy, ParentRef};
use crate::profile::Profile;
use crate::protocol::{derive_protocol, Protocol};

verus! {

/// Which source of routing truth an HTTP sub-stack was bound to when it was
/// constructed.
#[derive(Clone, Copy, PartialEq, Eq, Structural, Hash, Debug)]
pub enum RouteProvider {
    ServiceProfile,
    ClientPolicy,
}

/// A discovery result for one original destination: the optional profile
/// subscription and the required policy subscription.
#[derive(Debug)]
pub struct Discovery {
    pub orig_dst: OrigDstAddr,
    pub profile: Option<tokio::sync::watch::Receiver<Profile>>,
    pub policy: tokio::sync::watch::Receiver<ClientPolicy>,
}

/// Binds what the resolvers handed back into a discovery result. The policy
/// is required: a missing one aborts the connection with
/// `DiscoveryUnavailable`. The profile is optional.
pub fn bind_discovery(
    orig_dst: OrigDstAddr,
    profile: Option<tokio::sync::watch::Receiver<Profile>>,
    policy: Option<tokio::sync::watch::Receiver<ClientPolicy>>,
) -> (r: Result<Discovery, SidecarError>)
    ensures
        r is Ok <==> policy is Some,
        r matches Ok(d) ==> d.orig_dst == orig_dst && d.profile == profile
            && policy == Some(d.policy),
        r matches Err(e) ==> e == SidecarError::DiscoveryUnavailable,
{
    match policy {
        Some(p) => Ok(Discovery { orig_dst, profile, policy: p }),
        None => Err(SidecarError::DiscoveryUnavailable),
    }
}

/// The discovered target of a sidecar connection. Equality and hash go by
/// `orig_dst` alone: profile and policy changes reach a live stack through
/// the watches instead of making a new cache key.
#[derive(Debug)]
pub struct Sidecar {
    pub orig_dst: OrigDstAddr,
    pub profile: Option<tokio::sync::watch::Receiver<Profile>>,
    pub policy: tokio::sync::watch::Receiver<ClientPolicy>,
}

impl Sidecar {
    /// Turns a discovery result into the sidecar target.
    pub fn from_discovery(d: Discovery) -> (r: Sidecar)
        ensures
            r.orig_dst == d.orig_dst,
            r.profile == d.profile,
            r.policy == d.policy,
    {
        Sidecar { orig_dst: d.orig_dst, profile: d.profile, policy: d.policy }
    }

    /// The original destination of the target.
    pub fn param_orig_dst(&self) -> (r: OrigDstAddr)
        ensures
            r == self.orig_dst,
    {
        self.orig_dst
    }

    /// The remote server address, derived from the original destination.
    pub fn param_remote(&self) -> (r: Remote)
        ensures
            r == Remote(ServerAddr(self.orig_dst.0)),
    {
        Remote(ServerAddr(self.orig_dst.0))
    }

    /// The profile subscription, if discovery produced one.
    pub fn param_profile(&self) -> (r: Option<tokio::sync::watch::Receiver<Profile>>)
        ensures
            r is Some <==> self.profile is Some,
    {
        match &self.profile {
            Some(rx) => Some(rx.clone()),
            None => None,
        }
    }

    /// The parent reference read from the current policy snapshot. Which
    /// snapshot the watch holds is the sender's business; `parent_ref_of`
    /// pins the projection for every snapshot.
    pub fn param_parent_ref(&self) -> ParentRef {
        parent_ref_of(watch_borrow(&self.policy))
    }

    /// The protocol decision read from the current profile and policy
    /// snapshots; `derive_protocol` pins the decision for every pair of
    /// snapshots.
    pub fn param_protocol(&self) -> Protocol {
        let profile: Option<Profile> = match &self.profile {
            Some(rx) => Some(watch_borrow(rx)),
            None => None,
        };
        let policy = watch_borrow(&self.policy);
        derive_protocol(&profile, &policy)
    }

    /// The key caches store this target under.
    pub fn hash_key(&self) -> (r: OrigDstAddr)
        ensures
            r == self.orig_dst,
    {
        self.orig_dst
    }
}

/// The parent reference a policy snapshot carries.
pub fn parent_ref_of(policy: ClientPolicy) -> (r: ParentRef)
    ensures
        r == ParentRef(policy.parent),
{
    ParentRef(policy.parent)
}

impl PartialEq for Sidecar {
    fn eq(&self, o: &Self) -> (r: bool) {
        self.orig_dst == o.orig_dst
    }
}

impl vstd::std_specs::cmp::PartialEqSpecImpl for Sidecar {
    open spec fn obeys_eq_spec() -> bool {
        true
    }

    open spec fn eq_spec(&self, o: &Self) -> bool {
        self.orig_dst == o.orig_dst
    }
}

impl Eq for Sidecar {}

} // verus!
