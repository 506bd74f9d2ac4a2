//! The caching stack builder: the entry point that composes discovery, the
//! protocol switch, and the protocol sub-stacks, and that caches one live
//! stack per target key so identical targets share it.

use vstd::prelude::*;
use crate::addr::OrigDstAddr;
use crate::channel::watch_borrow;
use crate::errors::SidecarError;
use crate::http::{HttpRouteDriver, HttpRoutes, HttpSidecar};
use crate::opaq::{OpaqRoutes, OpaqSidecar};
use crate::policy::ClientPolicy;
use crate::profile::Profile;
use crate::protocol::{
    derive_protocol, dispatch, spec_detect_timeout_ms, spec_dispatch, spec_protocol_of, Protocol,
    StackChoice, SwitchStep,
};
use crate::sidecar::Sidecar;
use crate::tls::{TlsRouteDriver, TlsRoutes, TlsSidecar};

verus! {

/// The cache of live sidecar stacks. Its key is exactly the `Sidecar`
/// target's equality: the original destination. Stack instances are
/// identified by the id the cache coined when it first built them.
pub struct StackCache {
    pub entries: Vec<(OrigDstAddr, u64)>,
    pub next_id: u64,
}

impl StackCache {
    /// Each key holds at most one live entry.
    pub open spec fn wf(self) -> bool {
        forall|i: int, j: int|
            0 <= i < j < self.entries@.len() ==> (#[trigger] self.entries@[i]).0 != (
            #[trigger] self.entries@[j]).0
    }

    /// Whether a stack is live for this key.
    pub open spec fn has_key(self, k: OrigDstAddr) -> bool {
        exists|i: int| 0 <= i < self.entries@.len() && (#[trigger] self.entries@[i]).0 == k
    }

    /// The id of the live stack for this key.
    pub open spec fn id_of(self, k: OrigDstAddr) -> u64 {
        let i = choose|i: int| 0 <= i < self.entries@.len() && (#[trigger] self.entries@[i]).0 == k;
        self.entries@[i].1
    }

    /// An empty cache.
    pub fn new() -> (r: StackCache)
        ensures
            r.wf(),
            r.entries@.len() == 0,
            r.next_id == 0,
    {
        StackCache { entries: Vec::new(), next_id: 0 }
    }

    /// The stack for this key: the live one where a connection for the same
    /// key came before, a fresh one otherwise. The fresh id is new to the
    /// cache.
    pub fn get_or_insert(&mut self, k: OrigDstAddr) -> (id: u64)
        requires
            old(self).wf(),
            old(self).next_id < u64::MAX,
        ensures
            final(self).wf(),
            final(self).has_key(k),
            id == final(self).id_of(k),
            old(self).has_key(k) ==> *final(self) == *old(self) && id == old(self).id_of(k),
            !old(self).has_key(k) ==> final(self).entries@ == old(self).entries@.push((k, id)),
            forall|k2: OrigDstAddr|
                old(self).has_key(k2) ==> #[trigger] final(self).has_key(k2) && final(self).id_of(
                    k2,
                ) == old(self).id_of(k2),
    {
        let n = self.entries.len();
        let mut i: usize = 0;
        while i < n
            invariant
                n == self.entries@.len(),
                i <= n,
                forall|j: int| 0 <= j < i ==> (#[trigger] self.entries@[j]).0 != k,
                self.wf(),
            decreases n - i,
        {
            let (key, id) = self.entries[i];
            if key == k {
                proof {
                    let w = choose|w: int|
                        0 <= w < self.entries@.len() && (#[trigger] self.entries@[w]).0 == k;
                    assert(self.entries@[i as int].0 == k);
                    assert(w == i);
                }
                return id;
            }
            i += 1;
        }
        let id = self.next_id;
        self.next_id = self.next_id + 1;
        self.entries.push((k, id));
        proof {
            let ghost pre = old(self).entries@;
            let ghost post = self.entries@;
            assert(post == pre.push((k, id)));
            assert(post[pre.len() as int] == (k, id));
            assert forall|a: int, b: int| 0 <= a < b < post.len() implies (#[trigger] post[a]).0
                != (#[trigger] post[b]).0 by {
                if b < pre.len() {
                    assert(pre[a].0 != pre[b].0);
                } else {
                    assert(post[b] == (k, id));
                    assert(pre[a].0 != k);
                }
            }
            let w = choose|w: int| 0 <= w < post.len() && (#[trigger] post[w]).0 == k;
            assert(post[pre.len() as int].0 == k);
            assert(w == pre.len());
            assert forall|k2: OrigDstAddr| old(self).has_key(k2) implies #[trigger] self.has_key(
                k2,
            ) && self.id_of(k2) == old(self).id_of(k2) by {
                let a = choose|a: int| 0 <= a < pre.len() && (#[trigger] pre[a]).0 == k2;
                assert(post[a].0 == k2);
                let b = choose|b: int| 0 <= b < post.len() && (#[trigger] post[b]).0 == k2;
                assert(b == a);
            }
        }
        id
    }
}

impl StackCache {
    /// Drops the live stack for this key, as idle eviction does. Every other
    /// entry stays; only eviction lets a later connection for the key build
    /// a stack afresh, which is the one way a target crosses protocol
    /// families.
    pub fn evict(&mut self, k: OrigDstAddr)
        requires
            old(self).wf(),
        ensures
            final(self).wf(),
            !final(self).has_key(k),
            final(self).next_id == old(self).next_id,
            forall|k2: OrigDstAddr|
                k2 != k && old(self).has_key(k2) ==> #[trigger] final(self).has_key(k2)
                    && final(self).id_of(k2) == old(self).id_of(k2),
            forall|k2: OrigDstAddr| final(self).has_key(k2) ==> #[trigger] old(self).has_key(k2),
    {
        let n = self.entries.len();
        let mut i: usize = 0;
        while i < n
            invariant
                n == self.entries@.len(),
                i <= n,
                forall|j: int| 0 <= j < i ==> (#[trigger] self.entries@[j]).0 != k,
                self.wf(),
                self.next_id == old(self).next_id,
                self.entries@ == old(self).entries@,
            decreases n - i,
        {
            let (key, _) = self.entries[i];
            if key == k {
                self.entries.remove(i);
                proof {
                    let ghost pre = old(self).entries@;
                    let ghost post = self.entries@;
                    assert(post == pre.remove(i as int));
                    assert forall|a: int, b: int| 0 <= a < b < post.len() implies (
                    #[trigger] post[a]).0 != (#[trigger] post[b]).0 by {
                        let a0 = if a < i { a } else { a + 1 };
                        let b0 = if b < i { b } else { b + 1 };
                        assert(post[a] == pre[a0]);
                        assert(post[b] == pre[b0]);
                    }
                    assert forall|j: int| 0 <= j < post.len() implies (#[trigger] post[j]).0
                        != k by {
                        let j0 = if j < i { j } else { j + 1 };
                        assert(post[j] == pre[j0]);
                        if j0 != i {
                            assert(pre[j0].0 != pre[i as int].0);
                        }
                    }
                    assert forall|k2: OrigDstAddr|
                        k2 != k && old(self).has_key(k2) implies #[trigger] self.has_key(k2)
                        && self.id_of(k2) == old(self).id_of(k2) by {
                        let a = choose|a: int| 0 <= a < pre.len() && (#[trigger] pre[a]).0 == k2;
                        let a1 = if a < i { a } else { a - 1 };
                        assert(a != i);
                        assert(post[a1] == pre[a]);
                        assert(self.has_key(k2));
                        let b = choose|b: int| 0 <= b < post.len() && (#[trigger] post[b]).0 == k2;
                        assert(b == a1);
                    }
                    assert forall|k2: OrigDstAddr| self.has_key(k2) implies #[trigger] old(
                        self,
                    ).has_key(k2) by {
                        let b = choose|b: int| 0 <= b < post.len() && (#[trigger] post[b]).0 == k2;
                        let b0 = if b < i { b } else { b + 1 };
                        assert(pre[b0] == post[b]);
                    }
                }
                return ;
            }
            i += 1;
        }
    }
}

/// Law: targets that agree on `orig_dst` are equal as cache keys, so the
/// cache holds at most one live stack for them and returns the same
/// instance for both.
pub proof fn lemma_same_orig_dst_shares_stack(c: StackCache, a: Sidecar, b: Sidecar)
    requires
        a.orig_dst == b.orig_dst,
    ensures
        vstd::std_specs::cmp::PartialEqSpec::eq_spec(&a, &b),
        c.has_key(a.orig_dst) == c.has_key(b.orig_dst),
        c.id_of(a.orig_dst) == c.id_of(b.orig_dst),
{
}

/// The connection plan derived from a pair of discovery snapshots: the
/// protocol decision and the switch's first step.
pub fn plan_for_snapshots(profile: Option<Profile>, policy: &ClientPolicy) -> (r: (
    Protocol,
    SwitchStep,
))
    ensures
        r.0 == spec_protocol_of(profile, *policy),
        r.1 == spec_dispatch(r.0, spec_detect_timeout_ms(*policy)),
{
    let proto = derive_protocol(&profile, policy);
    let step = dispatch(proto, policy);
    (proto, step)
}

/// The assembled outbound stack: the cache in front of the discovery binder
/// and the protocol switch.
pub struct SidecarStack {
    pub cache: StackCache,
}

impl SidecarStack {
    /// Routes one accepted connection up to the switch: a cached stack
    /// instance for the target, and the plan read from the target's current
    /// snapshots. `plan_for_snapshots` pins the plan for every pair of
    /// snapshots the watches could have held.
    pub fn advise(&mut self, target: &Sidecar) -> (r: (u64, Protocol, SwitchStep))
        requires
            old(self).cache.wf(),
            old(self).cache.next_id < u64::MAX,
        ensures
            final(self).cache.wf(),
            final(self).cache.has_key(target.orig_dst),
            r.0 == final(self).cache.id_of(target.orig_dst),
            old(self).cache.has_key(target.orig_dst) ==> final(self).cache
                == old(self).cache && r.0 == old(self).cache.id_of(target.orig_dst),
    {
        let id = self.cache.get_or_insert(target.orig_dst);
        let profile: Option<Profile> = match &target.profile {
            Some(rx) => Some(watch_borrow(rx)),
            None => None,
        };
        let policy: ClientPolicy = watch_borrow(&target.policy);
        let (proto, step) = plan_for_snapshots(profile, &policy);
        (id, proto, step)
    }
}

/// A built protocol sub-stack: the typed target with the publishing half of
/// its routes channel and, where the routes follow a watch, the driver its
/// republisher task runs.
pub enum SubStack {
    OpaqueStack(OpaqSidecar, tokio::sync::watch::Sender<OpaqRoutes>),
    TlsStack(TlsSidecar, TlsRouteDriver, tokio::sync::watch::Sender<TlsRoutes>),
    HttpStack(HttpSidecar, HttpRouteDriver, tokio::sync::watch::Sender<HttpRoutes>),
}

/// Builds the sub-stack the switch chose for one connection: the typed
/// target derived from the parent `Sidecar`. An opaque choice always
/// builds; a TLS or HTTP choice reports `InitialRoutesInvalid` when the
/// current policy snapshot cannot seed its routes.
pub fn build_substack(target: &Sidecar, choice: StackChoice) -> (r: Result<
    SubStack,
    SidecarError,
>)
    ensures
        r matches Ok(s) ==> match s {
            SubStack::OpaqueStack(o, _) => choice == StackChoice::UseOpaque
                && o.orig_dst == target.orig_dst,
            SubStack::TlsStack(t, d, _) => choice == StackChoice::UseTls
                && t.orig_dst == target.orig_dst && d.orig_dst == target.orig_dst,
            SubStack::HttpStack(h, d, _) => choice == StackChoice::UseHttp(
                h.version,
            ) && h.orig_dst == target.orig_dst && d.orig_dst == target.orig_dst && d.version
                == h.version && d.provider == h.provider && d.wf(),
        },
        choice == StackChoice::UseOpaque ==> r is Ok,
        r matches Err(e) ==> e == SidecarError::InitialRoutesInvalid,
{
    match choice {
        StackChoice::UseOpaque => {
            let (o, tx) = OpaqSidecar::new(target);
            Ok(SubStack::OpaqueStack(o, tx))
        }
        StackChoice::UseTls => {
            match TlsSidecar::new(target) {
                Ok((t, d, tx)) => Ok(SubStack::TlsStack(t, d, tx)),
                Err(e) => Err(e),
            }
        }
        StackChoice::UseHttp(version) => {
            match HttpSidecar::new(target, version) {
                Ok((h, d, tx)) => Ok(SubStack::HttpStack(h, d, tx)),
                Err(e) => Err(e),
            }
        }
    }
}

/// The outbound assembly's entry point.
pub struct Outbound {}

impl Outbound {
    /// Builds the sidecar stack with an empty cache.
    pub fn mk_sidecar(&self) -> (r: SidecarStack)
        ensures
            r.cache.wf(),
            r.cache.entries@.len() == 0,
            r.cache.next_id == 0,
    {
        SidecarStack { cache: StackCache::new() }
    }
}

} // verus!
