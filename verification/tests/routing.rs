//! Route projection, the routing provider, and live targets following
//! discovery updates over real watch channels.

use outbound_sidecar::addr::{Addr, LogicalAddr, NameAddr, OrigDstAddr, SockAddr};
use outbound_sidecar::errors::SidecarError;
use outbound_sidecar::http::{default_authority_of, logical_addr_of, HttpRoutes, HttpSidecar, PolicyParams};
use outbound_sidecar::opaq::{check_backends, OpaqSidecar};
use outbound_sidecar::policy::{
    Backend, ClientPolicy, FailureAccrual, GrpcConfig, HttpConfig, Meta, PolicyProtocol,
    RouteRule, SniRoute, TlsConfig,
};
use outbound_sidecar::profile::Profile;
use outbound_sidecar::protocol::{StackChoice, Variant};
use outbound_sidecar::sidecar::{bind_discovery, RouteProvider, Sidecar};
use outbound_sidecar::stack::{build_substack, SubStack};
use outbound_sidecar::tls::TlsSidecar;

fn meta() -> Meta {
    Meta { group: "policy.mesh.local".to_string(), kind: "server".to_string(), name: "web".to_string() }
}

fn orig_dst() -> OrigDstAddr {
    OrigDstAddr(SockAddr { ip: 0x0a000001, port: 5432 })
}

fn http_cfg(path: &str, backend: &str) -> HttpConfig {
    HttpConfig {
        routes: vec![RouteRule { path: path.to_string(), backend: backend.to_string() }],
        failure_accrual: FailureAccrual::Disabled,
    }
}

fn policy_with(protocol: PolicyProtocol) -> ClientPolicy {
    ClientPolicy {
        parent: meta(),
        backends: vec![Backend { name: "b1".to_string(), weight: 1 }],
        protocol,
    }
}

fn overriding_profile() -> Profile {
    Profile {
        addr: Some(LogicalAddr(NameAddr { name: "svc.ns".to_string(), port: 80 })),
        http_routes: vec![RouteRule { path: "/api".to_string(), backend: "svcA".to_string() }],
        targets: Vec::new(),
        opaque_protocol: false,
    }
}

fn sidecar_for(profile: Option<Profile>, policy: ClientPolicy) -> Sidecar {
    // The senders may drop: a watch receiver still observes the last value.
    let profile_rx = profile.map(|p| tokio::sync::watch::channel(p).1);
    let (_ptx, prx) = tokio::sync::watch::channel(policy);
    Sidecar { orig_dst: orig_dst(), profile: profile_rx, policy: prx }
}

#[test]
fn missing_policy_is_discovery_unavailable() {
    let r = bind_discovery(orig_dst(), None, None);
    assert!(matches!(r, Err(SidecarError::DiscoveryUnavailable)));
}

#[test]
fn profile_override_fixes_provider() {
    // Profile present with /api -> svcA and a logical address: the profile is
    // the provider and seeds the routes.
    let target = sidecar_for(Some(overriding_profile()), policy_with(PolicyProtocol::Http1(
        http_cfg("/", "pol"),
    )));
    let (sidecar, mut driver, _tx) = HttpSidecar::new(&target, Variant::Http1).unwrap();
    assert_eq!(sidecar.provider, RouteProvider::ServiceProfile);
    match &*sidecar.routes.borrow() {
        HttpRoutes::Profile(pr) => {
            assert_eq!(pr.addr.0.name, "svc.ns");
            assert_eq!(pr.routes[0].path, "/api");
            assert_eq!(pr.routes[0].backend, "svcA");
        }
        other => panic!("expected profile routes, got {:?}", other),
    }
    // A later policy mutation to HTTP/2 publishes nothing and leaves the
    // provider as it was.
    let r = driver.on_policy_update(policy_with(PolicyProtocol::Http2(http_cfg("/", "pol2"))));
    assert!(r.is_none());
    assert_eq!(driver.provider, RouteProvider::ServiceProfile);
}

#[test]
fn policy_provider_without_override() {
    // Profile with no novel routes: the policy governs.
    let bare = Profile {
        addr: Some(LogicalAddr(NameAddr { name: "svc.ns".to_string(), port: 80 })),
        http_routes: Vec::new(),
        targets: Vec::new(),
        opaque_protocol: false,
    };
    let target = sidecar_for(Some(bare), policy_with(PolicyProtocol::Http1(http_cfg("/w", "polA"))));
    let (sidecar, _driver, _tx) = HttpSidecar::new(&target, Variant::Http1).unwrap();
    assert_eq!(sidecar.provider, RouteProvider::ClientPolicy);
    match &*sidecar.routes.borrow() {
        HttpRoutes::Policy(PolicyParams::Http(p)) => {
            assert_eq!(p.routes[0].path, "/w");
            assert_eq!(p.routes[0].backend, "polA");
            assert!(matches!(p.addr, Addr::Socket(s) if s.port == 5432));
        }
        other => panic!("expected policy routes, got {:?}", other),
    };
}

#[test]
fn grpc_route_rewrite_takes_effect() {
    // Policy Grpc with /pkg.Svc/Method -> backendA; a rewrite to backendB
    // reaches the published routes on the next update.
    let grpc = |backend: &str| {
        PolicyProtocol::Grpc(GrpcConfig {
            routes: vec![RouteRule {
                path: "/pkg.Svc/Method".to_string(),
                backend: backend.to_string(),
            }],
            failure_accrual: FailureAccrual::Disabled,
        })
    };
    let target = sidecar_for(None, policy_with(grpc("backendA")));
    let (sidecar, mut driver, tx) = HttpSidecar::new(&target, Variant::H2).unwrap();
    assert_eq!(sidecar.provider, RouteProvider::ClientPolicy);
    match &*sidecar.routes.borrow() {
        HttpRoutes::Policy(PolicyParams::Grpc(p)) => {
            assert_eq!(p.routes[0].backend, "backendA");
        }
        other => panic!("expected grpc routes, got {:?}", other),
    }
    let updated = driver.on_policy_update(policy_with(grpc("backendB"))).unwrap();
    tx.send(updated).unwrap();
    match &*sidecar.routes.borrow() {
        HttpRoutes::Policy(PolicyParams::Grpc(p)) => {
            assert_eq!(p.routes[0].backend, "backendB");
        }
        other => panic!("expected grpc routes, got {:?}", other),
    };
}

#[test]
fn detect_policy_seeds_version_branch() {
    // Policy Detect: an HTTP/2 target takes the http2 branch's routes.
    let detect = PolicyProtocol::Detect {
        timeout_ms: 500,
        http1: http_cfg("/one", "h1"),
        http2: http_cfg("/two", "h2"),
    };
    let r = HttpSidecar::mk_policy_routes(orig_dst(), Variant::H2, policy_with(detect)).unwrap();
    match r {
        HttpRoutes::Policy(PolicyParams::Http(p)) => {
            assert_eq!(p.routes[0].path, "/two");
            assert_eq!(p.routes[0].backend, "h2");
        }
        other => panic!("expected http routes, got {:?}", other),
    }
}

#[test]
fn cross_family_update_keeps_http_routes() {
    // A live HTTP target fed a Tls policy drops the update: nothing is
    // published and the channel still holds the old routes.
    let target = sidecar_for(None, policy_with(PolicyProtocol::Http1(http_cfg("/w", "keep"))));
    let (sidecar, mut driver, _tx) = HttpSidecar::new(&target, Variant::Http1).unwrap();
    let r = driver.on_policy_update(policy_with(PolicyProtocol::Tls(TlsConfig {
        routes: Vec::new(),
    })));
    assert!(r.is_none());
    match &*sidecar.routes.borrow() {
        HttpRoutes::Policy(PolicyParams::Http(p)) => {
            assert_eq!(p.routes[0].backend, "keep");
        }
        other => panic!("expected policy routes, got {:?}", other),
    };
}

#[test]
fn http_target_from_opaque_policy_is_invalid() {
    let target = sidecar_for(
        None,
        policy_with(PolicyProtocol::Opaque(outbound_sidecar::policy::OpaqueConfig {})),
    );
    let r = HttpSidecar::new(&target, Variant::Http1);
    assert!(matches!(r, Err(SidecarError::InitialRoutesInvalid)));
}

#[test]
fn http_sidecar_equality_ignores_provider() {
    let mk = |provider: RouteProvider| {
        let target = sidecar_for(None, policy_with(PolicyProtocol::Http1(http_cfg("/", "a"))));
        let (mut s, _d, _tx) = HttpSidecar::new(&target, Variant::Http1).unwrap();
        s.provider = provider;
        s
    };
    let a = mk(RouteProvider::ClientPolicy);
    let b = mk(RouteProvider::ServiceProfile);
    assert_eq!(a, b);
    assert_ne!(a.hash_key(), b.hash_key());
    let target = sidecar_for(None, policy_with(PolicyProtocol::Http1(http_cfg("/", "a"))));
    let (c, _d, _tx) = HttpSidecar::new(&target, Variant::H2).unwrap();
    assert_ne!(a, c);
}

#[test]
fn tls_target_needs_tls_policy() {
    let tls = PolicyProtocol::Tls(TlsConfig {
        routes: vec![SniRoute { sni: "svc.ns".to_string(), backend: "tlsA".to_string() }],
    });
    let target = sidecar_for(None, policy_with(tls));
    let (sidecar, _driver, _tx) = TlsSidecar::new(&target).unwrap();
    assert_eq!(sidecar.routes.borrow().routes[0].backend, "tlsA");

    let target = sidecar_for(None, policy_with(PolicyProtocol::Http1(http_cfg("/", "a"))));
    let r = TlsSidecar::new(&target);
    assert!(matches!(r, Err(SidecarError::InitialRoutesInvalid)));
}

#[test]
fn cross_family_update_keeps_tls_routes() {
    let tls = PolicyProtocol::Tls(TlsConfig {
        routes: vec![SniRoute { sni: "svc.ns".to_string(), backend: "tlsA".to_string() }],
    });
    let target = sidecar_for(None, policy_with(tls));
    let (sidecar, mut driver, _tx) = TlsSidecar::new(&target).unwrap();
    let r = driver.on_policy_update(policy_with(PolicyProtocol::Http1(http_cfg("/", "a"))));
    assert!(r.is_none());
    assert_eq!(sidecar.routes.borrow().routes[0].backend, "tlsA");
}

#[test]
fn opaque_target_addresses_by_orig_dst() {
    // S1-shaped target: no profile, policy Opaque; the opaque routes carry
    // the socket address and the policy's backends.
    let target = sidecar_for(
        None,
        policy_with(PolicyProtocol::Opaque(outbound_sidecar::policy::OpaqueConfig {})),
    );
    let (sidecar, _tx) = OpaqSidecar::new(&target);
    let routes = sidecar.routes.borrow();
    assert!(matches!(routes.addr, Addr::Socket(s) if s.ip == 0x0a000001 && s.port == 5432));
    assert_eq!(routes.backends[0].name, "b1");
    assert!(check_backends(&routes.backends).is_ok());
    assert!(matches!(
        check_backends(&Vec::new()),
        Err(SidecarError::BackendUnavailable)
    ));
}

#[test]
fn sidecar_identity_is_orig_dst() {
    // Equality and hashing go by orig_dst alone: profile and policy differ
    // here, yet the targets are the same cache key.
    let a = sidecar_for(
        None,
        policy_with(PolicyProtocol::Opaque(outbound_sidecar::policy::OpaqueConfig {})),
    );
    let b = sidecar_for(Some(overriding_profile()), policy_with(PolicyProtocol::Http1(
        http_cfg("/", "x"),
    )));
    assert_eq!(a, b);
    assert_eq!(a.hash_key(), b.hash_key());
    assert_eq!(a.param_orig_dst(), orig_dst());
    let outbound_sidecar::addr::Remote(outbound_sidecar::addr::ServerAddr(s)) = a.param_remote();
    assert_eq!(s.ip, 0x0a000001);
    assert_eq!(s.port, 5432);
    assert!(a.param_profile().is_none());
    assert!(b.param_profile().is_some());
    assert_eq!(a.param_parent_ref().0.name, "web");
    assert_eq!(
        a.param_protocol(),
        outbound_sidecar::protocol::Protocol::Opaque
    );
    assert_eq!(
        b.param_protocol(),
        outbound_sidecar::protocol::Protocol::Http1
    );
}

#[test]
fn http_params_read_current_routes() {
    let target = sidecar_for(None, policy_with(PolicyProtocol::Http1(http_cfg("/w", "polA"))));
    let (sidecar, _driver, _tx) = HttpSidecar::new(&target, Variant::Http1).unwrap();
    assert_eq!(sidecar.param_version(), Variant::Http1);
    let addr = sidecar.param_logical_addr();
    assert!(matches!(addr, Addr::Socket(s) if s.port == 5432));
    let auth = sidecar.param_default_authority();
    assert!(matches!(auth, Some(Addr::Socket(_))));
    // A profile-shaped routes value addresses by its logical name, and an
    // endpoint-shaped one has no default authority.
    let profile_routes = HttpRoutes::Profile(outbound_sidecar::http::ProfileRoutes {
        addr: LogicalAddr(NameAddr { name: "svc.ns".to_string(), port: 80 }),
        routes: Vec::new(),
        targets: Vec::new(),
    });
    assert!(matches!(logical_addr_of(&profile_routes), Addr::Name(n) if n.name == "svc.ns"));
    let endpoint = HttpRoutes::Endpoint(outbound_sidecar::addr::Remote(
        outbound_sidecar::addr::ServerAddr(SockAddr { ip: 9, port: 99 }),
    ));
    assert!(default_authority_of(&endpoint).is_none());
    assert!(matches!(logical_addr_of(&endpoint), Addr::Socket(s) if s.port == 99));
}

#[test]
fn switch_choice_builds_matching_substack() {
    let target = sidecar_for(None, policy_with(PolicyProtocol::Http1(http_cfg("/w", "polA"))));
    match build_substack(&target, StackChoice::UseHttp(Variant::Http1)) {
        Ok(SubStack::HttpStack(h, d, _tx)) => {
            assert_eq!(h.version, Variant::Http1);
            assert_eq!(h.orig_dst, orig_dst());
            assert_eq!(d.provider, RouteProvider::ClientPolicy);
        }
        other => panic!("expected an HTTP sub-stack, got {:?}", other.is_ok()),
    }
    // Opaque always builds; TLS cannot from an HTTP policy.
    assert!(matches!(
        build_substack(&target, StackChoice::UseOpaque),
        Ok(SubStack::OpaqueStack(..))
    ));
    assert!(matches!(
        build_substack(&target, StackChoice::UseTls),
        Err(SidecarError::InitialRoutesInvalid)
    ));
}
