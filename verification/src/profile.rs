//! The service profile: an optional, operator-supplied descriptor of a
//! logical service, giving HTTP routes, traffic-split targets, and whether
//! the target speaks an opaque protocol.

use vstd::prelude::*;
use crate::addr::{LogicalAddr, NameAddr};
use crate::policy::RouteRule;

verus! {

/// One traffic-split target of a profile.
#[derive(Clone, Debug)]
pub struct ProfileTarget {
    pub addr: NameAddr,
    pub weight: u32,
}

/// A service-profile snapshot.
#[derive(Clone, Debug)]
pub struct Profile {
    /// The logical address of the service, if the profile names one.
    pub addr: Option<LogicalAddr>,
    pub http_routes: Vec<RouteRule>,
    pub targets: Vec<ProfileTarget>,
    /// True when the profile declares the target's protocol opaque.
    pub opaque_protocol: bool,
}

/// The profile overrides the client policy as the source of HTTP routing
/// truth exactly when it names a logical address and declares novel routes
/// or target overrides.
pub open spec fn spec_should_override_policy(p: Profile) -> Option<LogicalAddr> {
    if p.addr is Some && (p.http_routes@.len() > 0 || p.targets@.len() > 0) {
        p.addr
    } else {
        None
    }
}

/// Decides whether this profile overrides the client policy, and under which
/// logical address.
pub fn should_override_policy(p: &Profile) -> (r: Option<LogicalAddr>)
    ensures
        r == spec_should_override_policy(*p),
{
    match &p.addr {
        Some(a) => {
            if p.http_routes.len() > 0 || p.targets.len() > 0 {
                Some(a.duplicate())
            } else {
                None
            }
        }
        None => None,
    }
}

} // verus!
