use eth_sweeper::sweep::FeeEstimate;
use eth_sweeper::sweep::SweepDecision;
use eth_sweeper::sweep::TransferIntent;
use eth_sweeper::sweep::create_eth_transaction;
use eth_sweeper::sweep::evaluate;

#[test]
fn zero_balance_yields_no_funds_for_any_fee() {
    let fees = vec![
        FeeEstimate { gas_units: 0, unit_price: 0 },
        FeeEstimate { gas_units: 21_000, unit_price: 50_000_000_000 },
        FeeEstimate { gas_units: u128::MAX, unit_price: u128::MAX },
    ];
    for fee in fees {
        assert_eq!(evaluate(0, &fee), SweepDecision::NoFunds);
    }
}

#[test]
fn fee_equal_to_balance_exceeds() {
    let fee = FeeEstimate { gas_units: 10, unit_price: 10 };
    assert_eq!(evaluate(100, &fee), SweepDecision::FeeExceedsBalance);
}

#[test]
fn fee_above_balance_exceeds() {
    let fee = FeeEstimate { gas_units: 10, unit_price: 11 };
    assert_eq!(evaluate(100, &fee), SweepDecision::FeeExceedsBalance);
}

#[test]
fn fee_below_balance_nets_exact_difference() {
    let fee = FeeEstimate { gas_units: 3, unit_price: 11 };
    assert_eq!(evaluate(100, &fee), SweepDecision::Transfer { net: 67 });
}

#[test]
fn one_unit_balance_with_typical_gas_fee() {
    // One whole unit, 21000 gas at 50 gwei: cost 1.05e15, net the rest.
    let fee = FeeEstimate { gas_units: 21_000, unit_price: 50_000_000_000 };
    assert_eq!(
        evaluate(1_000_000_000_000_000_000, &fee),
        SweepDecision::Transfer { net: 998_950_000_000_000_000 }
    );
}

#[test]
fn one_unit_balance_nets_999_998_950_quadrillionths() {
    let fee = FeeEstimate { gas_units: 21_000, unit_price: 50_000_000 };
    assert_eq!(
        evaluate(1_000_000_000_000_000_000, &fee),
        SweepDecision::Transfer { net: 999_998_950_000_000_000 }
    );
}

#[test]
fn fee_product_too_wide_for_the_balance_type_exceeds() {
    let fee = FeeEstimate { gas_units: u128::MAX, unit_price: 3 };
    assert_eq!(evaluate(u128::MAX, &fee), SweepDecision::FeeExceedsBalance);
}

#[test]
fn single_smallest_unit_with_free_transfer_sweeps_whole() {
    let fee = FeeEstimate { gas_units: 0, unit_price: 0 };
    assert_eq!(evaluate(1, &fee), SweepDecision::Transfer { net: 1 });
}

#[test]
fn transfer_intent_carries_destination_and_amount() {
    let destination = vec![0x1D; 20];
    let intent: TransferIntent = create_eth_transaction(&destination, 42);
    assert_eq!(intent.destination, destination);
    assert_eq!(intent.amount, 42);
}
