//! The startup readiness wait: poll until link-layer carrier is present,
//! then until an IPv4 lease is held, and hand the address out. The polling
//! loop and its fixed suspension interval live in the task around this
//! module; each call here decides one poll step from the observed stack
//! state.

use vstd::prelude::*;

verus! {

/// Where the waiter stands. The leased address is carried as the four octets
/// of the IPv4 address packed big-endian into one integer.
#[derive(Clone, Copy, PartialEq, Eq, Structural, Debug)]
pub enum WaiterPhase {
    /// Waiting for link-layer carrier.
    WaitingForLink,
    /// Carrier present; waiting for an IPv4 lease.
    WaitingForLease,
    /// A lease is held; startup may proceed.
    Ready(u32),
}

/// The phase after one poll of the stack: carrier must be seen before the
/// lease is consulted, a missing lease keeps the waiter waiting (there is no
/// timeout: absence of a lease blocks startup indefinitely), and a present
/// lease ends the wait with its address.
pub open spec fn spec_waiter_step(
    phase: WaiterPhase,
    link_up: bool,
    lease: Option<u32>,
) -> WaiterPhase {
    match phase {
        WaiterPhase::WaitingForLink => if link_up {
            WaiterPhase::WaitingForLease
        } else {
            WaiterPhase::WaitingForLink
        },
        WaiterPhase::WaitingForLease => match lease {
            Some(address) => WaiterPhase::Ready(address),
            None => WaiterPhase::WaitingForLease,
        },
        WaiterPhase::Ready(address) => WaiterPhase::Ready(address),
    }
}

/// Advance the waiter by one poll, given whether the link reports carrier and
/// the lease the stack currently holds.
pub fn waiter_step(phase: WaiterPhase, link_up: bool, lease: Option<u32>) -> (r: WaiterPhase)
    ensures
        r == spec_waiter_step(phase, link_up, lease),
{
    match phase {
        WaiterPhase::WaitingForLink => if link_up {
            WaiterPhase::WaitingForLease
        } else {
            WaiterPhase::WaitingForLink
        },
        WaiterPhase::WaitingForLease => match lease {
            Some(address) => WaiterPhase::Ready(address),
            None => WaiterPhase::WaitingForLease,
        },
        WaiterPhase::Ready(address) => WaiterPhase::Ready(address),
    }
}

/// The waiter is one-shot: once ready it stays ready with the same address,
/// whatever the stack reports later.
pub proof fn lemma_ready_is_final(
    phase: WaiterPhase,
    link_up: bool,
    lease: Option<u32>,
)
    requires
        phase is Ready,
    ensures
        spec_waiter_step(phase, link_up, lease) == phase,
{
}

/// The waiter never hands out an address it was not given: it reaches
/// `Ready(a)` in one step exactly when it was already waiting for a lease
/// and the stack reported the lease `a`.
pub proof fn lemma_address_comes_from_lease(
    phase: WaiterPhase,
    link_up: bool,
    lease: Option<u32>,
    address: u32,
)
    requires
        !(phase is Ready),
    ensures
        spec_waiter_step(phase, link_up, lease) == WaiterPhase::Ready(address) <==> (
            phase is WaitingForLease && lease == Some(address)),
{
}

} // verus!
