use ribqat_al_near::settlement::{refund_notice, Settlement};
use ribqat_al_near::{
    refund_storage, refund_storage_at, settle, SettlementError, Transfer, STORAGE_PRICE_PER_BYTE,
};

#[test]
fn price_per_byte_is_ten_to_the_nineteenth() {
    assert_eq!(STORAGE_PRICE_PER_BYTE, 10u128.pow(19));
}

#[test]
fn growth_within_the_deposit_refunds_the_rest() {
    assert_eq!(settle(0, 200, 3000, 10), Ok(1000));
}

#[test]
fn growth_settled_in_full_issues_one_transfer() {
    let settlement: Settlement<&str> = refund_storage_at(0, 200, 3000, 10, "alice.testnet").unwrap();
    assert_eq!(settlement.refund, 1000);
    assert_eq!(
        settlement.transfer,
        Some(Transfer { recipient: "alice.testnet", amount: 1000 })
    );
    assert_eq!(settlement.trace.len(), 2);
    assert_eq!(settlement.trace[1], "Refunding 1000 tokens for storage");
}

#[test]
fn shrinking_refunds_even_without_deposit() {
    assert_eq!(settle(500, 100, 0, 10), Ok(4000));
    let settlement = refund_storage_at(500, 100, 0, 10, "bob.testnet").unwrap();
    assert_eq!(settlement.refund, 4000);
    assert_eq!(
        settlement.transfer,
        Some(Transfer { recipient: "bob.testnet", amount: 4000 })
    );
}

#[test]
fn shortfall_carries_required_and_attached() {
    let expected = SettlementError::FundingShortfall {
        required: 500_000_000_000_000_000_000,
        attached: 1,
    };
    assert_eq!(settle(0, 50, 1, STORAGE_PRICE_PER_BYTE), Err(expected));
    assert_eq!(refund_storage(0, 50, 1, "carol.testnet"), Err(expected));
}

#[test]
fn growth_without_deposit_is_a_shortfall() {
    let result = refund_storage(1000, 1210, 0, "you.testnet");
    assert_eq!(
        result,
        Err(SettlementError::FundingShortfall {
            required: 210 * STORAGE_PRICE_PER_BYTE,
            attached: 0
        })
    );
}

#[test]
fn generous_deposit_covers_growth() {
    let deposit: u128 = STORAGE_PRICE_PER_BYTE * 1000;
    let settlement = refund_storage(1000, 1210, deposit, "you.testnet").unwrap();
    assert_eq!(settlement.refund, 790 * STORAGE_PRICE_PER_BYTE);
    assert_eq!(
        settlement.transfer,
        Some(Transfer { recipient: "you.testnet", amount: 790 * STORAGE_PRICE_PER_BYTE })
    );
}

#[test]
fn exact_deposit_leaves_nothing_to_transfer() {
    let settlement = refund_storage_at(0, 200, 2000, 10, "dave.testnet").unwrap();
    assert_eq!(settlement.refund, 0);
    assert_eq!(settlement.transfer, None);
    assert_eq!(settlement.trace.len(), 1);
}

#[test]
fn unchanged_storage_returns_the_deposit() {
    assert_eq!(settle(77, 77, 123, 10), Ok(123));
    assert_eq!(settle(77, 77, 0, 10), Ok(0));
    let settlement = refund_storage(77, 77, 0, "erin.testnet").unwrap();
    assert_eq!(settlement.transfer, None);
}

#[test]
fn one_unit_short_is_a_shortfall() {
    assert_eq!(
        settle(0, 200, 1999, 10),
        Err(SettlementError::FundingShortfall { required: 2000, attached: 1999 })
    );
}

#[test]
fn growth_cost_beyond_128_bits_is_an_overflow() {
    assert_eq!(settle(0, 2, 0, u128::MAX), Err(SettlementError::ArithmeticOverflow));
    assert_eq!(settle(0, 2, u128::MAX, u128::MAX), Err(SettlementError::ArithmeticOverflow));
}

#[test]
fn refund_beyond_128_bits_is_an_overflow() {
    assert_eq!(settle(1, 0, u128::MAX, 1), Err(SettlementError::ArithmeticOverflow));
    assert_eq!(settle(2, 0, 0, u128::MAX), Err(SettlementError::ArithmeticOverflow));
    assert_eq!(
        refund_storage(1, 0, u128::MAX, "frank.testnet"),
        Err(SettlementError::ArithmeticOverflow)
    );
}

#[test]
fn largest_refund_that_fits_is_paid() {
    assert_eq!(settle(1, 0, u128::MAX - 1, 1), Ok(u128::MAX));
}

#[test]
fn largest_growth_at_the_fixed_price_never_overflows() {
    let required: u128 = (u64::MAX as u128) * STORAGE_PRICE_PER_BYTE;
    assert_eq!(
        settle(0, u64::MAX, 0, STORAGE_PRICE_PER_BYTE),
        Err(SettlementError::FundingShortfall { required, attached: 0 })
    );
    assert_eq!(settle(0, u64::MAX, required, STORAGE_PRICE_PER_BYTE), Ok(0));
}

#[test]
fn settlement_is_a_function_of_its_inputs() {
    let first = refund_storage(10, 20, 15 * STORAGE_PRICE_PER_BYTE, "gina.testnet");
    let second = refund_storage(10, 20, 15 * STORAGE_PRICE_PER_BYTE, "gina.testnet");
    assert_eq!(first, second);
}

#[test]
fn settlement_records_the_three_readings() {
    let settlement = refund_storage_at(3, 9, 100, 10, 7u32).unwrap();
    assert_eq!(settlement.event.standard, "nep171");
    assert_eq!(settlement.event.version, "storage-0.1.0");
    assert_eq!(settlement.event.event.initial_storage, 3);
    assert_eq!(settlement.event.event.current_storage, 9);
    assert_eq!(settlement.event.event.attached_deposit, 100);
    assert_eq!(settlement.event.event.memo, None);
    assert_eq!(
        settlement.trace[0],
        "EVENT_JSON:{\"standard\":\"nep171\",\"version\":\"storage-0.1.0\",\"event\":\"SetInfoLog\",\"initial_storage\":3,\"current_storage\":9,\"attached_deposit\":100}"
    );
    assert_eq!(settlement.trace[0], settlement.event.to_string());
    assert_eq!(settlement.transfer, Some(Transfer { recipient: 7u32, amount: 40 }));
}

#[test]
fn refund_notice_names_the_amount() {
    assert_eq!(refund_notice(1), "Refunding 1 tokens for storage");
    assert_eq!(
        refund_notice(u128::MAX),
        "Refunding 340282366920938463463374607431768211455 tokens for storage"
    );
}
