//! The process-wide guard of the fade subsystem, which must be activated once
//! before any channel commits a duty.
//!
//! The process holds one `FadeInit` behind a lock. Each channel construction
//! takes the lock, asks [`FadeInit::needs_install`], and only if so makes the
//! activation call and hands its status to [`FadeInit::record_install`].
use vstd::prelude::*;
use crate::error::{status_result, DriverError, DRIVER_OK};

verus! {

/// Whether the fade subsystem has been activated.
pub struct FadeInit {
    installed: bool,
}

/// The guard's state after a channel construction that found it in state
/// `installed` and, if it made the activation call, got `status` back.
pub open spec fn fade_next(installed: bool, status: i32) -> bool {
    installed || status == DRIVER_OK
}

/// Number of activation calls made by channel constructions that run one after
/// another from state `installed`, where the `i`-th would get `statuses[i]` back
/// from the activation call if it made one.
pub open spec fn activation_calls(installed: bool, statuses: Seq<i32>) -> nat
    decreases statuses.len(),
{
    if statuses.len() == 0 {
        0
    } else {
        (if installed { 0nat } else { 1nat }) + activation_calls(
            fade_next(installed, statuses[0]),
            statuses.drop_first(),
        )
    }
}

impl FadeInit {
    /// Whether the activation call succeeded once.
    pub closed spec fn installed(&self) -> bool {
        self.installed
    }

    /// A guard before any activation.
    pub fn new() -> (r: Self)
        ensures
            !r.installed(),
    {
        FadeInit { installed: false }
    }

    /// Whether the activation call succeeded once.
    pub fn is_installed(&self) -> (r: bool)
        ensures
            r == self.installed(),
    {
        self.installed
    }

    /// Whether this construction must make the activation call.
    pub fn needs_install(&self) -> (r: bool)
        ensures
            r == !self.installed(),
    {
        !self.installed
    }

    /// Records the status of the activation call. On failure the guard stays
    /// unset, so that a later construction tries again.
    pub fn record_install(&mut self, status: i32) -> (r: Result<(), DriverError>)
        requires
            !old(self).installed(),
        ensures
            final(self).installed() == fade_next(old(self).installed(), status),
            r == status_result(status),
    {
        let r = DriverError::check(status);
        if r.is_ok() {
            self.installed = true;
        }
        r
    }
}

/// Once the subsystem is active, no construction makes the activation call.
pub proof fn lemma_no_call_once_installed(statuses: Seq<i32>)
    ensures
        activation_calls(true, statuses) == 0,
    decreases statuses.len(),
{
    if statuses.len() > 0 {
        lemma_no_call_once_installed(statuses.drop_first());
    }
}

/// However many channels are constructed in turn, the activation call is made
/// exactly once when the driver accepts it.
pub proof fn lemma_installed_exactly_once(statuses: Seq<i32>)
    requires
        statuses.len() > 0,
        forall|i: int| 0 <= i < statuses.len() ==> statuses[i] == DRIVER_OK,
    ensures
        activation_calls(false, statuses) == 1,
{
    lemma_no_call_once_installed(statuses.drop_first());
}

/// Failed activations are retried: each construction calls until one succeeds,
/// and none calls after that.
pub proof fn lemma_calls_until_first_success(statuses: Seq<i32>, k: int)
    requires
        0 <= k < statuses.len(),
        statuses[k] == DRIVER_OK,
        forall|i: int| 0 <= i < k ==> statuses[i] != DRIVER_OK,
    ensures
        activation_calls(false, statuses) == k + 1,
    decreases k,
{
    if k == 0 {
        lemma_no_call_once_installed(statuses.drop_first());
    } else {
        lemma_calls_until_first_success(statuses.drop_first(), k - 1);
    }
}

} // verus!
