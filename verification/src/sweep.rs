//! The fee-aware sweep decision: given a confirmed balance and a node's fee
//! estimate, compute the net transferable amount and decide whether a sweep
//! is worthwhile. The fee is deducted from the swept amount itself, since a
//! sweep drains the whole account and the destination never pays the gas.

use vstd::prelude::*;

verus! {

/// A node's fee estimate for one transfer: the gas units the transfer would
/// consume and the current price per unit, in the ledger's smallest unit.
/// The cost of the transfer is `gas_units * unit_price`.
#[derive(Clone, Copy, Debug, PartialEq, Eq, Structural)]
pub struct FeeEstimate {
    pub gas_units: u128,
    pub unit_price: u128,
}

/// What a fee estimate says the transfer will cost, as an unbounded integer:
/// the product may exceed any fixed machine width.
pub open spec fn fee_cost(fee: FeeEstimate) -> int {
    fee.gas_units * fee.unit_price
}

/// What the sweep decision said of one balance: nothing there, all of it
/// eaten by the fee, or a positive net amount worth transferring.
#[derive(Clone, Copy, Debug, PartialEq, Eq, Structural)]
pub enum SweepDecision {
    NoFunds,
    FeeExceedsBalance,
    Transfer { net: u128 },
}

/// The sweep decision as a mathematical function: a zero balance is
/// `NoFunds` whatever the fee says; otherwise a fee cost at or above the
/// balance is `FeeExceedsBalance`, and anything else transfers exactly the
/// balance minus the fee cost.
pub open spec fn spec_evaluate(balance: u128, fee: FeeEstimate) -> SweepDecision {
    if balance == 0 {
        SweepDecision::NoFunds
    } else if fee_cost(fee) >= balance {
        SweepDecision::FeeExceedsBalance
    } else {
        SweepDecision::Transfer { net: (balance - fee_cost(fee)) as u128 }
    }
}

/// Decides whether a balance is worth sweeping under the given fee estimate.
/// The cost product is computed with a checked multiplication: a product too
/// wide for the balance's own type can only mean the fee dwarfs the balance.
pub fn evaluate(balance: u128, fee: &FeeEstimate) -> (r: SweepDecision)
    ensures
        r == spec_evaluate(balance, *fee),
{
    if balance == 0 {
        return SweepDecision::NoFunds;
    }
    match fee.gas_units.checked_mul(fee.unit_price) {
        None => SweepDecision::FeeExceedsBalance,
        Some(cost) => {
            if cost >= balance {
                SweepDecision::FeeExceedsBalance
            } else {
                SweepDecision::Transfer { net: balance - cost }
            }
        },
    }
}

/// Law: a zero balance always evaluates to `NoFunds`, whatever the fee
/// estimate holds, so no fee need ever be fetched for an empty account.
pub proof fn lemma_zero_balance_no_funds(fee: FeeEstimate)
    ensures
        spec_evaluate(0, fee) == SweepDecision::NoFunds,
{
}

/// Law: with a positive balance the decision is exactly fee-aware: a fee
/// cost at or above the balance is always rejected as `FeeExceedsBalance`,
/// and a smaller cost always transfers exactly the balance minus the cost.
pub proof fn lemma_fee_aware_decision(balance: u128, fee: FeeEstimate)
    requires
        balance > 0,
    ensures
        fee_cost(fee) >= balance ==> spec_evaluate(balance, fee) == SweepDecision::FeeExceedsBalance,
        fee_cost(fee) < balance ==> spec_evaluate(balance, fee) == (SweepDecision::Transfer {
            net: (balance - fee_cost(fee)) as u128,
        }),
{
}

/// A transfer ready to sign and broadcast: the destination account and the
/// amount to move, in the ledger's smallest unit. Built only once a positive
/// net amount is known.
#[derive(Clone, Debug, PartialEq, Eq)]
pub struct TransferIntent {
    pub destination: Vec<u8>,
    pub amount: u128,
}

/// A well-formed intent names a full 20-byte destination account and moves
/// a positive amount.
pub open spec fn intent_wf(intent: TransferIntent) -> bool {
    intent.destination@.len() == 20 && intent.amount > 0
}

/// Shapes a transfer of `wei_value` to the account `to`.
pub fn create_eth_transaction(to: &Vec<u8>, wei_value: u128) -> (r: TransferIntent)
    requires
        to@.len() == 20,
        wei_value > 0,
    ensures
        r.destination@ == to@,
        r.amount == wei_value,
        intent_wf(r),
{
    let destination = to.clone();
    proof {
        assert(destination@ =~= to@);
    }
    TransferIntent { destination, amount: wei_value }
}

} // verus!
