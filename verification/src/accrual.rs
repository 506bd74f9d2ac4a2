//! Failure accrual: the per-backend circuit the HTTP sub-stack applies.
//! After a configured count of consecutive failures a backend leaves the
//! load-balancing set for a cool-down interval; a success closes the
//! circuit again.

use vstd::prelude::*;
use crate::errors::SidecarError;
use crate::policy::FailureAccrual;

verus! {

/// The circuit guarding one backend.
#[derive(Clone, Copy, Debug)]
pub struct BackendCircuit {
    pub policy: FailureAccrual,
    pub consecutive_failures: u32,
    /// While set, the backend is out of the set until this instant.
    pub open_until_ms: Option<u64>,
}

/// Whether the circuit lets traffic reach its backend at this instant: it
/// does unless the circuit stands open and the cool-down has not passed.
pub open spec fn spec_available(c: BackendCircuit, now_ms: u64) -> bool {
    match c.open_until_ms {
        Some(t) => now_ms >= t,
        None => true,
    }
}

impl BackendCircuit {
    /// A closed circuit under this accrual policy.
    pub fn new(policy: FailureAccrual) -> (r: BackendCircuit)
        ensures
            r.policy == policy,
            r.consecutive_failures == 0,
            r.open_until_ms is None,
    {
        BackendCircuit { policy, consecutive_failures: 0, open_until_ms: None }
    }

    /// Whether traffic may reach the backend at this instant.
    pub fn is_available(&self, now_ms: u64) -> (r: bool)
        ensures
            r == spec_available(*self, now_ms),
    {
        match self.open_until_ms {
            Some(t) => now_ms >= t,
            None => true,
        }
    }

    /// Records one successful call: the failure run ends and the circuit
    /// closes.
    pub fn on_success(&mut self)
        ensures
            final(self).policy == old(self).policy,
            final(self).consecutive_failures == 0,
            final(self).open_until_ms is None,
    {
        self.consecutive_failures = 0;
        self.open_until_ms = None;
    }

    /// Records one failed call. Under a consecutive-failures policy the run
    /// grows by one, and on reaching the configured count the circuit opens
    /// for the cool-down interval (clamped to the clock's range); with
    /// accrual disabled nothing trips.
    pub fn on_failure(&mut self, now_ms: u64)
        ensures
            final(self).policy == old(self).policy,
            old(self).policy is Disabled ==> *final(self) == *old(self),
            old(self).policy matches FailureAccrual::Consecutive { max_failures, cooldown_ms } ==> {
                let run = if old(self).consecutive_failures < u32::MAX {
                    old(self).consecutive_failures + 1
                } else {
                    u32::MAX as int
                };
                &&& final(self).consecutive_failures == run
                &&& (run >= max_failures ==> final(self).open_until_ms == Some(
                    (if now_ms + cooldown_ms <= u64::MAX {
                        now_ms + cooldown_ms
                    } else {
                        u64::MAX as int
                    }) as u64,
                ))
                &&& (run < max_failures ==> final(self).open_until_ms == old(self).open_until_ms)
            },
    {
        match self.policy {
            FailureAccrual::Disabled => {}
            FailureAccrual::Consecutive { max_failures, cooldown_ms } => {
                if self.consecutive_failures < u32::MAX {
                    self.consecutive_failures = self.consecutive_failures + 1;
                }
                if self.consecutive_failures >= max_failures {
                    let open_until = if now_ms <= u64::MAX - cooldown_ms {
                        now_ms + cooldown_ms
                    } else {
                        u64::MAX
                    };
                    self.open_until_ms = Some(open_until);
                }
            }
        }
    }
}

/// One closed circuit per backend of a load-balancing set, all under the
/// routes' accrual policy.
pub fn circuits_for(backends: &Vec<crate::policy::Backend>, policy: FailureAccrual) -> (r: Vec<
    BackendCircuit,
>)
    ensures
        r@.len() == backends@.len(),
        forall|i: int|
            0 <= i < r@.len() ==> (#[trigger] r@[i]).policy == policy && r@[i].consecutive_failures
                == 0 && r@[i].open_until_ms is None,
{
    let n = backends.len();
    let mut r: Vec<BackendCircuit> = Vec::new();
    let mut i: usize = 0;
    while i < n
        invariant
            i <= n,
            r@.len() == i,
            forall|j: int|
                0 <= j < i ==> (#[trigger] r@[j]).policy == policy && r@[j].consecutive_failures
                    == 0 && r@[j].open_until_ms is None,
        decreases n - i,
    {
        r.push(BackendCircuit::new(policy));
        i += 1;
    }
    r
}

/// Picks the first backend whose circuit admits traffic at this instant;
/// with every circuit open, the connection fails with `BackendUnavailable`.
pub fn select_backend(circuits: &Vec<BackendCircuit>, now_ms: u64) -> (r: Result<
    usize,
    SidecarError,
>)
    ensures
        r matches Ok(i) ==> i < circuits@.len() && spec_available(circuits@[i as int], now_ms)
            && forall|j: int| 0 <= j < i ==> !spec_available(circuits@[j], now_ms),
        r is Err <==> forall|j: int|
            0 <= j < circuits@.len() ==> !spec_available(#[trigger] circuits@[j], now_ms),
        r matches Err(e) ==> e == SidecarError::BackendUnavailable,
{
    let n = circuits.len();
    let mut i: usize = 0;
    while i < n
        invariant
            n == circuits@.len(),
            i <= n,
            forall|j: int| 0 <= j < i ==> !spec_available(#[trigger] circuits@[j], now_ms),
        decreases n - i,
    {
        if circuits[i].is_available(now_ms) {
            return Ok(i);
        }
        i += 1;
    }
    Err(SidecarError::BackendUnavailable)
}

} // verus!
