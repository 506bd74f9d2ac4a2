//! The per-connection protocol decision and the protocol switch: how a
//! discovered target's profile and policy pick one of the protocol
//! sub-stacks, and how a runtime detection outcome resolves the `Detect`
//! case.

use vstd::prelude::*;
use crate::policy::{ClientPolicy, PolicyProtocol};
use crate::profile::Profile;

verus! {

/// The protocol decision for a discovered target.
#[derive(Clone, Copy, PartialEq, Eq, Structural, Hash, Debug)]
pub enum Protocol {
    Http1,
    Http2,
    Opaque,
    Tls,
    Detect,
}

/// The negotiated HTTP version of one connection.
#[derive(Clone, Copy, PartialEq, Eq, Structural, Hash, Debug)]
pub enum Variant {
    Http1,
    H2,
}

/// Which sub-stack serves one connection.
#[derive(Clone, Copy, PartialEq, Eq, Structural, Hash, Debug)]
pub enum StackChoice {
    UseOpaque,
    UseTls,
    UseHttp(Variant),
}

/// What the protocol switch decides before any bytes are read: either a
/// sub-stack outright, or a bounded-time detection that must run first.
#[derive(Clone, Copy, PartialEq, Eq, Structural, Hash, Debug)]
pub enum SwitchStep {
    Serve(StackChoice),
    NeedDetect { timeout_ms: u64 },
}

/// What protocol detection reported for one connection.
#[derive(Clone, Copy, PartialEq, Eq, Structural, Hash, Debug)]
pub enum DetectOutcome {
    DetectedHttp1,
    DetectedH2,
    NotHttp,
    TimedOut,
}

/// Whether an optional profile declares the target opaque.
pub open spec fn spec_profile_is_opaque(profile: Option<Profile>) -> bool {
    match profile {
        Some(p) => p.opaque_protocol,
        None => false,
    }
}

/// The protocol a policy's protocol tag maps to, when no profile overrides.
pub open spec fn spec_policy_protocol(p: PolicyProtocol) -> Protocol {
    match p {
        PolicyProtocol::Http1(_) => Protocol::Http1,
        PolicyProtocol::Http2(_) => Protocol::Http2,
        PolicyProtocol::Grpc(_) => Protocol::Http2,
        PolicyProtocol::Opaque(_) => Protocol::Opaque,
        PolicyProtocol::Tls(_) => Protocol::Tls,
        PolicyProtocol::Detect { .. } => Protocol::Detect,
    }
}

/// The protocol decision for a target: a profile that declares the target
/// opaque wins; otherwise the policy's protocol tag governs.
pub open spec fn spec_protocol_of(profile: Option<Profile>, policy: ClientPolicy) -> Protocol {
    if spec_profile_is_opaque(profile) {
        Protocol::Opaque
    } else {
        spec_policy_protocol(policy.protocol)
    }
}

/// Derives the protocol decision from the current profile and policy
/// snapshots.
pub fn derive_protocol(profile: &Option<Profile>, policy: &ClientPolicy) -> (r: Protocol)
    ensures
        r == spec_protocol_of(*profile, *policy),
{
    match profile {
        Some(p) => {
            if p.opaque_protocol {
                return Protocol::Opaque;
            }
        }
        None => {}
    }
    match &policy.protocol {
        PolicyProtocol::Http1(_) => Protocol::Http1,
        PolicyProtocol::Http2(_) => Protocol::Http2,
        PolicyProtocol::Grpc(_) => Protocol::Http2,
        PolicyProtocol::Opaque(_) => Protocol::Opaque,
        PolicyProtocol::Tls(_) => Protocol::Tls,
        PolicyProtocol::Detect { .. } => Protocol::Detect,
    }
}

/// Law: a profile that declares the target opaque forces the `Opaque`
/// decision, whatever the policy's protocol says.
pub proof fn lemma_opaque_profile_wins(profile: Profile, policy: ClientPolicy)
    requires
        profile.opaque_protocol,
    ensures
        spec_protocol_of(Some(profile), policy) == Protocol::Opaque,
{
}

/// Law: the protocol decision is a function of the profile's opaqueness flag
/// and the policy's protocol tag alone; snapshots that agree on those agree
/// on the decision.
pub proof fn lemma_protocol_deterministic(
    profile1: Option<Profile>,
    policy1: ClientPolicy,
    profile2: Option<Profile>,
    policy2: ClientPolicy,
)
    requires
        spec_profile_is_opaque(profile1) == spec_profile_is_opaque(profile2),
        spec_policy_protocol(policy1.protocol) == spec_policy_protocol(policy2.protocol),
    ensures
        spec_protocol_of(profile1, policy1) == spec_protocol_of(profile2, policy2),
{
}

/// The detection budget a policy allows: meaningful only on a `Detect`
/// policy.
pub open spec fn spec_detect_timeout_ms(policy: ClientPolicy) -> u64 {
    match policy.protocol {
        PolicyProtocol::Detect { timeout_ms, .. } => timeout_ms,
        _ => 0,
    }
}

/// The switch's decision for a protocol: `Detect` asks for a bounded-time
/// peek with the policy's timeout; every other protocol picks its sub-stack
/// outright.
pub open spec fn spec_dispatch(proto: Protocol, detect_timeout_ms: u64) -> SwitchStep {
    match proto {
        Protocol::Opaque => SwitchStep::Serve(StackChoice::UseOpaque),
        Protocol::Tls => SwitchStep::Serve(StackChoice::UseTls),
        Protocol::Http1 => SwitchStep::Serve(StackChoice::UseHttp(Variant::Http1)),
        Protocol::Http2 => SwitchStep::Serve(StackChoice::UseHttp(Variant::H2)),
        Protocol::Detect => SwitchStep::NeedDetect { timeout_ms: detect_timeout_ms },
    }
}

/// Dispatches one connection: consults the protocol decision and, on
/// `Detect`, defers to a peek bounded by the policy's timeout.
pub fn dispatch(proto: Protocol, policy: &ClientPolicy) -> (r: SwitchStep)
    ensures
        r == spec_dispatch(proto, spec_detect_timeout_ms(*policy)),
{
    match proto {
        Protocol::Opaque => SwitchStep::Serve(StackChoice::UseOpaque),
        Protocol::Tls => SwitchStep::Serve(StackChoice::UseTls),
        Protocol::Http1 => SwitchStep::Serve(StackChoice::UseHttp(Variant::Http1)),
        Protocol::Http2 => SwitchStep::Serve(StackChoice::UseHttp(Variant::H2)),
        Protocol::Detect => {
            let timeout_ms = match &policy.protocol {
                PolicyProtocol::Detect { timeout_ms, .. } => *timeout_ms,
                _ => 0,
            };
            SwitchStep::NeedDetect { timeout_ms }
        }
    }
}

/// How a detection outcome resolves: a recognized HTTP version goes to the
/// HTTP sub-stack; anything else, a timeout included, falls back to opaque.
pub open spec fn spec_dispatch_detected(outcome: DetectOutcome) -> StackChoice {
    match outcome {
        DetectOutcome::DetectedHttp1 => StackChoice::UseHttp(Variant::Http1),
        DetectOutcome::DetectedH2 => StackChoice::UseHttp(Variant::H2),
        DetectOutcome::NotHttp => StackChoice::UseOpaque,
        DetectOutcome::TimedOut => StackChoice::UseOpaque,
    }
}

/// Resolves the `Detect` case once the peek has reported its outcome.
pub fn dispatch_detected(outcome: DetectOutcome) -> (r: StackChoice)
    ensures
        r == spec_dispatch_detected(outcome),
{
    match outcome {
        DetectOutcome::DetectedHttp1 => StackChoice::UseHttp(Variant::Http1),
        DetectOutcome::DetectedH2 => StackChoice::UseHttp(Variant::H2),
        DetectOutcome::NotHttp => StackChoice::UseOpaque,
        DetectOutcome::TimedOut => StackChoice::UseOpaque,
    }
}

} // verus!
