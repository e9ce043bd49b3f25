//! One probe cycle as a state machine. A cycle walks a single line:
//! key generated, balance checked, then straight to a terminal outcome —
//! possibly through one fee query and one broadcast. No transition leads
//! back to an earlier state, and nothing is retried inside a cycle; the
//! caller performs the network work and feeds each result in as an event.

use vstd::prelude::*;

use crate::sweep::FeeEstimate;
use crate::sweep::SweepDecision;
use crate::sweep::evaluate;
use crate::sweep::spec_evaluate;

verus! {

/// Why a cycle failed: the balance or fee lookup did not answer, the
/// transaction could not be signed, or the node rejected the submission.
#[derive(Clone, Copy, Debug, PartialEq, Eq, Structural)]
pub enum CycleError {
    Query,
    Signing,
    Broadcast,
}

/// The terminal outcome of one probe cycle. `Swept` carries the
/// node-assigned transaction identifier.
#[derive(Clone, Debug, PartialEq, Eq)]
pub enum SweepOutcome {
    NoFunds,
    FeeExceedsBalance,
    Swept { tx_id: Vec<u8> },
    Failed { error: CycleError },
}

/// Where a cycle stands: waiting on the balance lookup, waiting on a fee
/// estimate for a known positive balance, waiting on the broadcast of a
/// computed net amount, or finished.
#[derive(Clone, Debug, PartialEq, Eq)]
pub enum CycleState {
    AwaitingBalance,
    AwaitingFee { balance: u128 },
    AwaitingBroadcast { net: u128 },
    Done { outcome: SweepOutcome },
}

/// What the outside world reported back to a cycle: a balance, a fee
/// estimate, a broadcast acceptance, or the failure of one of those steps.
#[derive(Clone, Debug, PartialEq, Eq)]
pub enum CycleEvent {
    BalanceKnown { balance: u128 },
    BalanceQueryFailed,
    FeeKnown { fee: FeeEstimate },
    FeeQueryFailed,
    BroadcastAccepted { tx_id: Vec<u8> },
    SigningFailed,
    BroadcastFailed,
}

/// The cycle's transition function. A zero balance ends the cycle at once
/// as `NoFunds` — no fee is ever asked for an empty account. A failed
/// lookup or broadcast ends it as `Failed`; a fee estimate is weighed by
/// the sweep decision; an accepted broadcast ends it as `Swept`. An event
/// that does not belong to the current state changes nothing.
pub open spec fn spec_step(state: CycleState, event: CycleEvent) -> CycleState {
    match (state, event) {
        (CycleState::AwaitingBalance, CycleEvent::BalanceKnown { balance }) => {
            if balance == 0 {
                CycleState::Done { outcome: SweepOutcome::NoFunds }
            } else {
                CycleState::AwaitingFee { balance }
            }
        },
        (CycleState::AwaitingBalance, CycleEvent::BalanceQueryFailed) => {
            CycleState::Done { outcome: SweepOutcome::Failed { error: CycleError::Query } }
        },
        (CycleState::AwaitingFee { balance }, CycleEvent::FeeKnown { fee }) => {
            match spec_evaluate(balance, fee) {
                SweepDecision::NoFunds => CycleState::Done { outcome: SweepOutcome::NoFunds },
                SweepDecision::FeeExceedsBalance => {
                    CycleState::Done { outcome: SweepOutcome::FeeExceedsBalance }
                },
                SweepDecision::Transfer { net } => CycleState::AwaitingBroadcast { net },
            }
        },
        (CycleState::AwaitingFee { balance }, CycleEvent::FeeQueryFailed) => {
            CycleState::Done { outcome: SweepOutcome::Failed { error: CycleError::Query } }
        },
        (CycleState::AwaitingBroadcast { net }, CycleEvent::BroadcastAccepted { tx_id }) => {
            CycleState::Done { outcome: SweepOutcome::Swept { tx_id } }
        },
        (CycleState::AwaitingBroadcast { net }, CycleEvent::SigningFailed) => {
            CycleState::Done { outcome: SweepOutcome::Failed { error: CycleError::Signing } }
        },
        (CycleState::AwaitingBroadcast { net }, CycleEvent::BroadcastFailed) => {
            CycleState::Done { outcome: SweepOutcome::Failed { error: CycleError::Broadcast } }
        },
        (s, _) => s,
    }
}

/// Advances a cycle by one event. The result is exactly the transition
/// function's: each network answer moves the cycle one step along its
/// single line toward a terminal outcome.
pub fn step(state: CycleState, event: CycleEvent) -> (r: CycleState)
    ensures
        r == spec_step(state, event),
{
    match (state, event) {
        (CycleState::AwaitingBalance, CycleEvent::BalanceKnown { balance }) => {
            if balance == 0 {
                CycleState::Done { outcome: SweepOutcome::NoFunds }
            } else {
                CycleState::AwaitingFee { balance }
            }
        },
        (CycleState::AwaitingBalance, CycleEvent::BalanceQueryFailed) => {
            CycleState::Done { outcome: SweepOutcome::Failed { error: CycleError::Query } }
        },
        (CycleState::AwaitingFee { balance }, CycleEvent::FeeKnown { fee }) => {
            match evaluate(balance, &fee) {
                SweepDecision::NoFunds => CycleState::Done { outcome: SweepOutcome::NoFunds },
                SweepDecision::FeeExceedsBalance => {
                    CycleState::Done { outcome: SweepOutcome::FeeExceedsBalance }
                },
                SweepDecision::Transfer { net } => CycleState::AwaitingBroadcast { net },
            }
        },
        (CycleState::AwaitingFee { balance: _ }, CycleEvent::FeeQueryFailed) => {
            CycleState::Done { outcome: SweepOutcome::Failed { error: CycleError::Query } }
        },
        (CycleState::AwaitingBroadcast { net: _ }, CycleEvent::BroadcastAccepted { tx_id }) => {
            CycleState::Done { outcome: SweepOutcome::Swept { tx_id } }
        },
        (CycleState::AwaitingBroadcast { net: _ }, CycleEvent::SigningFailed) => {
            CycleState::Done { outcome: SweepOutcome::Failed { error: CycleError::Signing } }
        },
        (CycleState::AwaitingBroadcast { net: _ }, CycleEvent::BroadcastFailed) => {
            CycleState::Done { outcome: SweepOutcome::Failed { error: CycleError::Broadcast } }
        },
        (s, _) => s,
    }
}

/// How far along its single line a cycle stands.
pub open spec fn state_rank(state: CycleState) -> int {
    match state {
        CycleState::AwaitingBalance => 0,
        CycleState::AwaitingFee { .. } => 1,
        CycleState::AwaitingBroadcast { .. } => 2,
        CycleState::Done { .. } => 3,
    }
}

/// Law: a cycle is a single linear traversal. No event moves it back
/// toward an earlier state, and a finished cycle never changes again.
pub proof fn lemma_cycle_is_linear(state: CycleState, event: CycleEvent)
    ensures
        state_rank(spec_step(state, event)) >= state_rank(state),
        state is Done ==> spec_step(state, event) == state,
{
}

/// Law: a sweep never moves more than the account held. Whenever a fee
/// estimate carries a cycle into the broadcast state, the net amount is
/// positive and the fee cost on top of it lands exactly on the balance.
pub proof fn lemma_net_within_balance(balance: u128, fee: FeeEstimate)
    ensures
        spec_step(
            CycleState::AwaitingFee { balance },
            CycleEvent::FeeKnown { fee },
        ) matches CycleState::AwaitingBroadcast { net } ==> 0 < net <= balance,
{
}

/// Law: a cycle that sees a zero balance finishes at once as `NoFunds`,
/// without ever passing through the fee-estimate state.
pub proof fn lemma_zero_balance_skips_fee_query()
    ensures
        spec_step(CycleState::AwaitingBalance, CycleEvent::BalanceKnown { balance: 0 })
            == (CycleState::Done { outcome: SweepOutcome::NoFunds }),
{
}

} // verus!
