//! The HTTP sub-stack's target and its route projections: how a target's
//! routes are derived from a client policy or a service profile, which of
//! the two is the source of routing truth, and how a live target follows
//! discovery updates without ever crossing protocol families.

use vstd::prelude::*;
use crate::addr::{Addr, LogicalAddr, OrigDstAddr, Remote};
use crate::channel::{watch_borrow, watch_channel};
use crate::errors::SidecarError;
use crate::policy::{Backend, ClientPolicy, FailureAccrual, ParentRef, PolicyProtocol, RouteRule};
use crate::profile::{spec_should_override_policy, should_override_policy, Profile, ProfileTarget};
use crate::protocol::Variant;
use crate::sidecar::{RouteProvider, Sidecar};

verus! {

/// HTTP routes derived from a client policy.
#[derive(Clone, Debug)]
pub struct HttpParams {
    pub addr: Addr,
    pub meta: ParentRef,
    pub routes: Vec<RouteRule>,
    pub backends: Vec<Backend>,
    pub failure_accrual: FailureAccrual,
}

/// gRPC routes derived from a client policy.
#[derive(Clone, Debug)]
pub struct GrpcParams {
    pub addr: Addr,
    pub meta: ParentRef,
    pub routes: Vec<RouteRule>,
    pub backends: Vec<Backend>,
    pub failure_accrual: FailureAccrual,
}

/// Policy-derived routes, HTTP or gRPC shaped.
#[derive(Clone, Debug)]
pub enum PolicyParams {
    Http(HttpParams),
    Grpc(GrpcParams),
}

/// Profile-derived routes: the logical address with the profile's routes and
/// traffic-split targets.
#[derive(Clone, Debug)]
pub struct ProfileRoutes {
    pub addr: LogicalAddr,
    pub routes: Vec<RouteRule>,
    pub targets: Vec<ProfileTarget>,
}

/// The routes an HTTP sub-stack serves by.
#[derive(Clone, Debug)]
pub enum HttpRoutes {
    Profile(ProfileRoutes),
    Policy(PolicyParams),
    /// Degenerate form pinned to a single backend.
    Endpoint(Remote),
}

/// What the policy projector yields for a policy snapshot: on `Detect`, the
/// branch of the connection's negotiated version; on `Http1`/`Http2`, that
/// arm's routes; on `Grpc`, gRPC-shaped routes; on `Opaque` or `Tls`,
/// nothing, for the update crosses protocol families.
pub open spec fn spec_policy_routes(
    orig_dst: OrigDstAddr,
    version: Variant,
    policy: ClientPolicy,
) -> Option<HttpRoutes> {
    match policy.protocol {
        PolicyProtocol::Detect { timeout_ms: _, http1, http2 } => {
            let cfg = if version == Variant::Http1 { http1 } else { http2 };
            Some(HttpRoutes::Policy(PolicyParams::Http(HttpParams {
                addr: Addr::Socket(orig_dst.0),
                meta: ParentRef(policy.parent),
                routes: cfg.routes,
                backends: policy.backends,
                failure_accrual: cfg.failure_accrual,
            })))
        }
        PolicyProtocol::Http1(cfg) => Some(HttpRoutes::Policy(PolicyParams::Http(HttpParams {
            addr: Addr::Socket(orig_dst.0),
            meta: ParentRef(policy.parent),
            routes: cfg.routes,
            backends: policy.backends,
            failure_accrual: cfg.failure_accrual,
        }))),
        PolicyProtocol::Http2(cfg) => Some(HttpRoutes::Policy(PolicyParams::Http(HttpParams {
            addr: Addr::Socket(orig_dst.0),
            meta: ParentRef(policy.parent),
            routes: cfg.routes,
            backends: policy.backends,
            failure_accrual: cfg.failure_accrual,
        }))),
        PolicyProtocol::Grpc(cfg) => Some(HttpRoutes::Policy(PolicyParams::Grpc(GrpcParams {
            addr: Addr::Socket(orig_dst.0),
            meta: ParentRef(policy.parent),
            routes: cfg.routes,
            backends: policy.backends,
            failure_accrual: cfg.failure_accrual,
        }))),
        PolicyProtocol::Opaque(_) => None,
        PolicyProtocol::Tls(_) => None,
    }
}

/// What the profile projector yields: the profile's routes and targets under
/// its logical address.
pub open spec fn spec_profile_routes(addr: LogicalAddr, profile: Profile) -> HttpRoutes {
    HttpRoutes::Profile(ProfileRoutes {
        addr,
        routes: profile.http_routes,
        targets: profile.targets,
    })
}

/// Law: a policy update that leaves the HTTP family projects to nothing, so
/// a live HTTP sub-stack fed such an update keeps its last routes.
pub proof fn lemma_cross_family_policy_projects_nothing(
    orig_dst: OrigDstAddr,
    version: Variant,
    policy: ClientPolicy,
)
    ensures
        spec_policy_routes(orig_dst, version, policy) is None <==> !policy.protocol.is_http_family(),
{
}

/// Law: the projectors are functions of their snapshots alone. Any two
/// results obtained from the same snapshot — as every call of
/// `mk_policy_routes` or `mk_profile_routes` promises of its result — are
/// equal.
pub proof fn lemma_projection_deterministic(
    orig_dst: OrigDstAddr,
    version: Variant,
    policy: ClientPolicy,
    first: Option<HttpRoutes>,
    second: Option<HttpRoutes>,
)
    requires
        first == spec_policy_routes(orig_dst, version, policy),
        second == spec_policy_routes(orig_dst, version, policy),
    ensures
        first == second,
{
}

/// The target of the HTTP sub-stack.
///
/// Equality is agreement on `(orig_dst, version)` alone; `provider` is part
/// of the hash key but not of equality, a documented quirk kept from the
/// assembly this models.
#[derive(Clone, Debug)]
pub struct HttpSidecar {
    pub orig_dst: OrigDstAddr,
    pub version: Variant,
    pub routes: tokio::sync::watch::Receiver<HttpRoutes>,
    pub provider: RouteProvider,
}

impl PartialEq for HttpSidecar {
    fn eq(&self, o: &Self) -> (r: bool) {
        self.orig_dst == o.orig_dst && self.version == o.version
    }
}

impl vstd::std_specs::cmp::PartialEqSpecImpl for HttpSidecar {
    open spec fn obeys_eq_spec() -> bool {
        true
    }

    open spec fn eq_spec(&self, o: &Self) -> bool {
        self.orig_dst == o.orig_dst && self.version == o.version
    }
}

impl Eq for HttpSidecar {}

impl HttpSidecar {
    /// The fields the cache hashes this target by. `provider` takes part
    /// here though equality ignores it.
    pub fn hash_key(&self) -> (r: (OrigDstAddr, Variant, RouteProvider))
        ensures
            r == (self.orig_dst, self.version, self.provider),
    {
        (self.orig_dst, self.version, self.provider)
    }

    /// A new handle to the same target: same key, same provider, observing
    /// the same routes channel.
    pub fn duplicate(&self) -> (r: Self)
        ensures
            r.orig_dst == self.orig_dst,
            r.version == self.version,
            r.provider == self.provider,
    {
        HttpSidecar {
            orig_dst: self.orig_dst,
            version: self.version,
            routes: self.routes.clone(),
            provider: self.provider,
        }
    }

    /// The negotiated HTTP version this target serves.
    pub fn param_version(&self) -> (r: Variant)
        ensures
            r == self.version,
    {
        self.version
    }

    /// A subscription to this target's routes.
    pub fn param_routes(&self) -> tokio::sync::watch::Receiver<HttpRoutes> {
        self.routes.clone()
    }

    /// The logical address read from the current routes; `logical_addr_of`
    /// pins the projection for every routes value.
    pub fn param_logical_addr(&self) -> Addr {
        logical_addr_of(&watch_borrow(&self.routes))
    }

    /// The default authority read from the current routes;
    /// `default_authority_of` pins the projection for every routes value.
    pub fn param_default_authority(&self) -> Option<Addr> {
        default_authority_of(&watch_borrow(&self.routes))
    }
}

/// The logical address a routes value addresses by: the policy's or
/// profile's address, or the pinned endpoint's socket address.
pub open spec fn spec_logical_addr(r: HttpRoutes) -> Addr {
    match r {
        HttpRoutes::Policy(PolicyParams::Http(p)) => p.addr,
        HttpRoutes::Policy(PolicyParams::Grpc(p)) => p.addr,
        HttpRoutes::Profile(pr) => Addr::Name(pr.addr.0),
        HttpRoutes::Endpoint(Remote(s)) => Addr::Socket(s.0),
    }
}

/// Reads the logical address off a routes value.
pub fn logical_addr_of(r: &HttpRoutes) -> (a: Addr)
    ensures
        a == spec_logical_addr(*r),
{
    match r {
        HttpRoutes::Policy(PolicyParams::Http(p)) => p.addr.duplicate(),
        HttpRoutes::Policy(PolicyParams::Grpc(p)) => p.addr.duplicate(),
        HttpRoutes::Profile(pr) => Addr::Name(pr.addr.0.duplicate()),
        HttpRoutes::Endpoint(Remote(s)) => Addr::Socket(s.0),
    }
}

/// The default authority of a routes value: the policy's or profile's
/// address; a pinned endpoint has none.
pub open spec fn spec_default_authority(r: HttpRoutes) -> Option<Addr> {
    match r {
        HttpRoutes::Policy(PolicyParams::Http(p)) => Some(p.addr),
        HttpRoutes::Policy(PolicyParams::Grpc(p)) => Some(p.addr),
        HttpRoutes::Profile(pr) => Some(Addr::Name(pr.addr.0)),
        HttpRoutes::Endpoint(_) => None,
    }
}

/// Reads the default authority off a routes value.
pub fn default_authority_of(r: &HttpRoutes) -> (a: Option<Addr>)
    ensures
        a == spec_default_authority(*r),
{
    match r {
        HttpRoutes::Policy(PolicyParams::Http(p)) => Some(p.addr.duplicate()),
        HttpRoutes::Policy(PolicyParams::Grpc(p)) => Some(p.addr.duplicate()),
        HttpRoutes::Profile(pr) => Some(Addr::Name(pr.addr.0.duplicate())),
        HttpRoutes::Endpoint(_) => None,
    }
}

/// Everything construction decides for a new HTTP target: the initial
/// routes, the routing provider, and, under the profile provider, the
/// logical address the provider was bound to.
pub struct HttpSidecarParts {
    pub init: HttpRoutes,
    pub provider: RouteProvider,
    pub profile_addr: Option<LogicalAddr>,
}

/// The policy-driven half of construction: the initial policy snapshot must
/// project to routes, else the sub-stack cannot be built.
pub open spec fn spec_http_policy_parts(
    orig_dst: OrigDstAddr,
    version: Variant,
    policy: ClientPolicy,
) -> Result<HttpSidecarParts, SidecarError> {
    match spec_policy_routes(orig_dst, version, policy) {
        Some(init) => Ok(HttpSidecarParts {
            init,
            provider: RouteProvider::ClientPolicy,
            profile_addr: None,
        }),
        None => Err(SidecarError::InitialRoutesInvalid),
    }
}

/// What construction decides from the initial snapshots: if the profile
/// overrides the policy, the profile is the provider and seeds the routes;
/// otherwise the policy must project, and is the provider.
pub open spec fn spec_http_parts(
    orig_dst: OrigDstAddr,
    version: Variant,
    profile: Option<Profile>,
    policy: ClientPolicy,
) -> Result<HttpSidecarParts, SidecarError> {
    match profile {
        Some(p) => match spec_should_override_policy(p) {
            Some(addr) => Ok(HttpSidecarParts {
                init: spec_profile_routes(addr, p),
                provider: RouteProvider::ServiceProfile,
                profile_addr: Some(addr),
            }),
            None => spec_http_policy_parts(orig_dst, version, policy),
        },
        None => spec_http_policy_parts(orig_dst, version, policy),
    }
}

/// Decides provider and initial routes for a new HTTP target from the
/// construction-time snapshots.
pub fn mk_http_parts(
    orig_dst: OrigDstAddr,
    version: Variant,
    profile: Option<Profile>,
    policy: ClientPolicy,
) -> (r: Result<HttpSidecarParts, SidecarError>)
    ensures
        r == spec_http_parts(orig_dst, version, profile, policy),
{
    let overriding: Option<(LogicalAddr, Profile)> = match profile {
        Some(p) => match should_override_policy(&p) {
            Some(addr) => Some((addr, p)),
            None => None,
        },
        None => None,
    };
    match overriding {
        Some((addr, p)) => {
            let stored = addr.duplicate();
            Ok(HttpSidecarParts {
                init: HttpSidecar::mk_profile_routes(addr, p),
                provider: RouteProvider::ServiceProfile,
                profile_addr: Some(stored),
            })
        }
        None => match HttpSidecar::mk_policy_routes(orig_dst, version, policy) {
            Some(init) => Ok(HttpSidecarParts {
                init,
                provider: RouteProvider::ClientPolicy,
                profile_addr: None,
            }),
            None => Err(SidecarError::InitialRoutesInvalid),
        },
    }
}

/// Law: the routing provider is fixed by the construction-time snapshots
/// alone; it is the profile exactly when that profile overrides the policy.
pub proof fn lemma_provider_fixed_at_construction(
    orig_dst: OrigDstAddr,
    version: Variant,
    profile: Option<Profile>,
    policy: ClientPolicy,
)
    ensures
        spec_http_parts(orig_dst, version, profile, policy) matches Ok(parts) ==> (
        parts.provider == RouteProvider::ServiceProfile <==> (profile matches Some(p)
            && spec_should_override_policy(p) is Some)),
{
}

/// The per-target route republisher of the HTTP sub-stack. One long-lived
/// task per target feeds it every update of the upstream its provider was
/// bound to; what it returns is published to the target's routes channel,
/// and `published` mirrors that channel's value. The provider never changes
/// after construction.
pub struct HttpRouteDriver {
    pub orig_dst: OrigDstAddr,
    pub version: Variant,
    pub provider: RouteProvider,
    pub profile_addr: Option<LogicalAddr>,
    pub published: Ghost<HttpRoutes>,
}

impl HttpRouteDriver {
    /// A profile-driven driver remembers the logical address it was bound
    /// to; a policy-driven one holds none.
    pub open spec fn wf(self) -> bool {
        (self.provider == RouteProvider::ServiceProfile) == (self.profile_addr is Some)
    }

    /// Feeds one client-policy update. Under the policy provider the update
    /// is projected: routes in the HTTP family are published, a cross-family
    /// update is dropped and the last published routes stand. Under the
    /// profile provider a policy update never switches the provider and
    /// publishes nothing.
    pub fn on_policy_update(&mut self, policy: ClientPolicy) -> (r: Option<HttpRoutes>)
        requires
            old(self).wf(),
        ensures
            final(self).wf(),
            final(self).orig_dst == old(self).orig_dst,
            final(self).version == old(self).version,
            final(self).provider == old(self).provider,
            final(self).profile_addr == old(self).profile_addr,
            old(self).provider == RouteProvider::ClientPolicy ==> r == spec_policy_routes(
                old(self).orig_dst,
                old(self).version,
                policy,
            ),
            old(self).provider == RouteProvider::ServiceProfile ==> r is None,
            r matches Some(v) ==> final(self).published@ == v,
            r is None ==> final(self).published@ == old(self).published@,
    {
        match self.provider {
            RouteProvider::ServiceProfile => None,
            RouteProvider::ClientPolicy => {
                let r = HttpSidecar::mk_policy_routes(self.orig_dst, self.version, policy);
                match &r {
                    Some(v) => {
                        self.published = Ghost(*v);
                    }
                    None => {}
                }
                r
            }
        }
    }

    /// Feeds one profile update. Under the profile provider every update is
    /// projected and published under the address fixed at construction; under
    /// the policy provider a profile update publishes nothing.
    pub fn on_profile_update(&mut self, profile: Profile) -> (r: Option<HttpRoutes>)
        requires
            old(self).wf(),
        ensures
            final(self).wf(),
            final(self).orig_dst == old(self).orig_dst,
            final(self).version == old(self).version,
            final(self).provider == old(self).provider,
            final(self).profile_addr == old(self).profile_addr,
            old(self).profile_addr matches Some(addr) ==> r == Some(
                spec_profile_routes(addr, profile),
            ),
            old(self).provider == RouteProvider::ClientPolicy ==> r is None,
            r matches Some(v) ==> final(self).published@ == v,
            r is None ==> final(self).published@ == old(self).published@,
    {
        match &self.profile_addr {
            Some(addr) => {
                let v = HttpSidecar::mk_profile_routes(addr.duplicate(), profile);
                let r = Some(v);
                match &r {
                    Some(v) => {
                        self.published = Ghost(*v);
                    }
                    None => {}
                }
                r
            }
            None => None,
        }
    }
}

/// Law: a policy update that crosses protocol families leaves a live HTTP
/// sub-stack's published routes unchanged. The hypotheses are exactly what
/// every call of `on_policy_update` ensures of its driver and result.
pub proof fn lemma_cross_family_update_keeps_published(
    pre: HttpRouteDriver,
    post: HttpRouteDriver,
    policy: ClientPolicy,
    r: Option<HttpRoutes>,
)
    requires
        pre.provider == RouteProvider::ClientPolicy,
        !policy.protocol.is_http_family(),
        r == spec_policy_routes(pre.orig_dst, pre.version, policy),
        r is None ==> post.published@ == pre.published@,
    ensures
        r is None,
        post.published@ == pre.published@,
{
}

impl HttpSidecar {
    /// Projects HTTP routes from a policy snapshot.
    pub fn mk_policy_routes(
        orig_dst: OrigDstAddr,
        version: Variant,
        policy: ClientPolicy,
    ) -> (r: Option<HttpRoutes>)
        ensures
            r == spec_policy_routes(orig_dst, version, policy),
    {
        let ClientPolicy { parent, backends, protocol } = policy;
        let meta = ParentRef(parent);
        match protocol {
            PolicyProtocol::Detect { timeout_ms: _, http1, http2 } => {
                let cfg = match version {
                    Variant::Http1 => http1,
                    Variant::H2 => http2,
                };
                Some(HttpRoutes::Policy(PolicyParams::Http(HttpParams {
                    addr: Addr::Socket(orig_dst.0),
                    meta,
                    routes: cfg.routes,
                    backends,
                    failure_accrual: cfg.failure_accrual,
                })))
            }
            PolicyProtocol::Http1(cfg) => Some(HttpRoutes::Policy(PolicyParams::Http(HttpParams {
                addr: Addr::Socket(orig_dst.0),
                meta,
                routes: cfg.routes,
                backends,
                failure_accrual: cfg.failure_accrual,
            }))),
            PolicyProtocol::Http2(cfg) => Some(HttpRoutes::Policy(PolicyParams::Http(HttpParams {
                addr: Addr::Socket(orig_dst.0),
                meta,
                routes: cfg.routes,
                backends,
                failure_accrual: cfg.failure_accrual,
            }))),
            PolicyProtocol::Grpc(cfg) => Some(HttpRoutes::Policy(PolicyParams::Grpc(GrpcParams {
                addr: Addr::Socket(orig_dst.0),
                meta,
                routes: cfg.routes,
                backends,
                failure_accrual: cfg.failure_accrual,
            }))),
            PolicyProtocol::Opaque(_) => None,
            PolicyProtocol::Tls(_) => None,
        }
    }

    /// Projects HTTP routes from a profile snapshot under its logical
    /// address.
    pub fn mk_profile_routes(addr: LogicalAddr, profile: Profile) -> (r: HttpRoutes)
        ensures
            r == spec_profile_routes(addr, profile),
    {
        HttpRoutes::Profile(ProfileRoutes {
            addr,
            routes: profile.http_routes,
            targets: profile.targets,
        })
    }

    /// Builds the HTTP target for `parent` at `version`: reads the current
    /// profile and policy snapshots, fixes the routing provider once, seeds
    /// the routes channel, and hands back the driver and the sender its
    /// republisher task needs. `mk_http_parts` pins the decision for every
    /// pair of snapshots the watches could have held.
    pub fn new(parent: &Sidecar, version: Variant) -> (r: Result<
        (HttpSidecar, HttpRouteDriver, tokio::sync::watch::Sender<HttpRoutes>),
        SidecarError,
    >)
        ensures
            r matches Ok((s, d, _)) ==> s.orig_dst == parent.orig_dst && s.version == version
                && d.orig_dst == parent.orig_dst && d.version == version && d.provider
                == s.provider && d.wf(),
            r matches Err(e) ==> e == SidecarError::InitialRoutesInvalid,
    {
        let profile: Option<Profile> = match &parent.profile {
            Some(rx) => Some(watch_borrow(rx)),
            None => None,
        };
        let policy: ClientPolicy = watch_borrow(&parent.policy);
        match mk_http_parts(parent.orig_dst, version, profile, policy) {
            Ok(parts) => {
                let published = Ghost(parts.init);
                let (tx, rx) = watch_channel(parts.init);
                let driver = HttpRouteDriver {
                    orig_dst: parent.orig_dst,
                    version,
                    provider: parts.provider,
                    profile_addr: parts.profile_addr,
                    published,
                };
                let target = HttpSidecar {
                    orig_dst: parent.orig_dst,
                    version,
                    routes: rx,
                    provider: driver.provider,
                };
                Ok((target, driver, tx))
            }
            Err(e) => Err(e),
        }
    }
}

/// Law: two HTTP targets are equal exactly when they agree on
/// `(orig_dst, version)`; the provider never enters equality, yet equal
/// targets whose providers differ still hash apart.
pub proof fn lemma_http_sidecar_key(a: HttpSidecar, b: HttpSidecar)
    ensures
        vstd::std_specs::cmp::PartialEqSpec::eq_spec(&a, &b) <==> (a.orig_dst == b.orig_dst
            && a.version == b.version),
        a.provider != b.provider ==> (a.orig_dst, a.version, a.provider) != (
        b.orig_dst,
        b.version,
        b.provider,
        ),
{
}

} // verus!
