//! Settling the deposit attached to an operation against the storage it
//! consumed or freed.

use vstd::prelude::*;
use crate::text::{decimal_digits, is_one_line, lemma_decimal_digits_are_digits, to_decimal};
use crate::events::{EventLog, EventLogView, SetInfoLog, SetInfoLogView};

verus! {

/// Price of one byte of persistent storage, in the smallest currency unit.
pub const STORAGE_PRICE_PER_BYTE: u128 = 10_000_000_000_000_000_000;

/// Why a settlement aborts the operation it belongs to.
#[derive(Debug, Clone, Copy, PartialEq, Eq, Structural)]
pub enum SettlementError {
    /// The storage grew and the deposit does not cover its cost.
    FundingShortfall { required: u128, attached: u128 },
    /// An amount does not fit in 128 bits.
    ArithmeticOverflow,
}

/// Cost of `bytes` bytes of storage at `price` per byte.
pub open spec fn storage_cost(bytes: int, price: int) -> int {
    bytes * price
}

/// The outcome of settling a deposit: where the storage grew, the deposit
/// less the cost of the growth, which the deposit must cover; where it did
/// not, the deposit plus the value of the bytes set free. No amount beyond
/// 128 bits is ever reported.
pub open spec fn settlement_outcome(
    baseline: u64,
    current_usage: u64,
    attached_deposit: u128,
    price_per_byte: u128,
) -> Result<u128, SettlementError> {
    if current_usage > baseline {
        let required = storage_cost(current_usage - baseline, price_per_byte as int);
        if required > u128::MAX {
            Err(SettlementError::ArithmeticOverflow)
        } else if required > attached_deposit {
            Err(
                SettlementError::FundingShortfall {
                    required: required as u128,
                    attached: attached_deposit,
                },
            )
        } else {
            Ok((attached_deposit - required) as u128)
        }
    } else {
        let refund = attached_deposit + storage_cost(
            baseline - current_usage,
            price_per_byte as int,
        );
        if refund > u128::MAX {
            Err(SettlementError::ArithmeticOverflow)
        } else {
            Ok(refund as u128)
        }
    }
}

/// Computes the refund owed for an operation that took the storage in use
/// from `baseline` to `current_usage` bytes with `attached_deposit` attached,
/// at `price_per_byte`.
pub fn settle(baseline: u64, current_usage: u64, attached_deposit: u128, price_per_byte: u128) -> (r:
    Result<u128, SettlementError>)
    ensures
        r == settlement_outcome(baseline, current_usage, attached_deposit, price_per_byte),
{
    if current_usage > baseline {
        let grown: u128 = (current_usage - baseline) as u128;
        match grown.checked_mul(price_per_byte) {
            None => Err(SettlementError::ArithmeticOverflow),
            Some(required) => {
                if required > attached_deposit {
                    Err(SettlementError::FundingShortfall { required, attached: attached_deposit })
                } else {
                    Ok(attached_deposit - required)
                }
            },
        }
    } else {
        let freed: u128 = (baseline - current_usage) as u128;
        match freed.checked_mul(price_per_byte) {
            None => Err(SettlementError::ArithmeticOverflow),
            Some(released) => match attached_deposit.checked_add(released) {
                None => Err(SettlementError::ArithmeticOverflow),
                Some(refund) => Ok(refund),
            },
        }
    }
}

/// Where an operation leaves the storage no larger than it found it,
/// settlement succeeds and refunds the deposit together with the value of
/// the bytes set free, provided that sum fits in 128 bits.
pub proof fn lemma_release_is_refunded(
    baseline: u64,
    current_usage: u64,
    attached_deposit: u128,
    price_per_byte: u128,
)
    requires
        current_usage <= baseline,
        attached_deposit + (baseline - current_usage) * price_per_byte <= u128::MAX,
    ensures
        settlement_outcome(baseline, current_usage, attached_deposit, price_per_byte) == Ok::<
            u128,
            SettlementError,
        >((attached_deposit + (baseline - current_usage) * price_per_byte) as u128),
{
}

/// Where an operation grows the storage, settlement refunds the deposit less
/// the cost of the growth if the deposit covers that cost, and otherwise
/// fails with a shortfall that carries the exact cost, provided the cost fits
/// in 128 bits.
pub proof fn lemma_growth_is_charged(
    baseline: u64,
    current_usage: u64,
    attached_deposit: u128,
    price_per_byte: u128,
)
    requires
        current_usage > baseline,
        (current_usage - baseline) * price_per_byte <= u128::MAX,
    ensures
        (current_usage - baseline) * price_per_byte <= attached_deposit ==> settlement_outcome(
            baseline,
            current_usage,
            attached_deposit,
            price_per_byte,
        ) == Ok::<u128, SettlementError>(
            (attached_deposit - (current_usage - baseline) * price_per_byte) as u128,
        ),
        (current_usage - baseline) * price_per_byte > attached_deposit ==> settlement_outcome(
            baseline,
            current_usage,
            attached_deposit,
            price_per_byte,
        ) == Err::<u128, SettlementError>(
            SettlementError::FundingShortfall {
                required: ((current_usage - baseline) * price_per_byte) as u128,
                attached: attached_deposit,
            },
        ),
{
}

/// At the price of [`STORAGE_PRICE_PER_BYTE`] the cost of any growth fits in
/// 128 bits, so growth never ends in an overflow.
pub proof fn lemma_growth_cost_fits(baseline: u64, current_usage: u64)
    requires
        current_usage > baseline,
    ensures
        (current_usage - baseline) * STORAGE_PRICE_PER_BYTE <= u128::MAX,
{
    assert((current_usage - baseline) * STORAGE_PRICE_PER_BYTE <= u128::MAX) by (nonlinear_arith)
        requires
            0 < current_usage - baseline <= u64::MAX,
            STORAGE_PRICE_PER_BYTE == 10_000_000_000_000_000_000,
    ;
}

/// The record of a settlement, without memo.
pub open spec fn storage_event(
    initial_storage: u64,
    current_storage: u64,
    attached_deposit: u128,
) -> EventLogView {
    EventLogView {
        standard: "nep171"@,
        version: "storage-0.1.0"@,
        event: SetInfoLogView { initial_storage, current_storage, attached_deposit, memo: None },
    }
}

/// The trace line that announces a refund.
pub open spec fn refund_notice_text(refund: u128) -> Seq<char> {
    "Refunding "@ + decimal_digits(refund as nat) + " tokens for storage"@
}

/// The lines that a settlement adds to the trace: its event, then, where
/// something is refunded, the notice of the refund.
pub open spec fn settlement_trace(event: EventLogView, refund: u128) -> Seq<Seq<char>> {
    if refund > 0 {
        seq![event.line(), refund_notice_text(refund)]
    } else {
        seq![event.line()]
    }
}

/// A request to move `amount` to `recipient`.
#[derive(Debug, Clone, PartialEq, Eq)]
pub struct Transfer<A> {
    pub recipient: A,
    pub amount: u128,
}

/// The transfer that a settlement requests: the refund, to the caller,
/// unless the refund is zero.
pub open spec fn transfer_request<A>(caller: A, refund: u128) -> Option<Transfer<A>> {
    if refund > 0 {
        Some(Transfer { recipient: caller, amount: refund })
    } else {
        None
    }
}

/// What a successful settlement asks of the runtime that hosts it.
#[derive(Debug, Clone, PartialEq, Eq)]
pub struct Settlement<A> {
    /// The amount owed to the caller.
    pub refund: u128,
    /// The record of the accounting.
    pub event: EventLog,
    /// The lines to append to the execution trace, in this order.
    pub trace: Vec<String>,
    /// The one transfer to request, if any.
    pub transfer: Option<Transfer<A>>,
}

impl<A> Settlement<A> {
    /// Says that this settlement, given its refund, is the one of an
    /// operation that `caller` paid `attached_deposit` for and that took the
    /// storage from `initial_storage` to `current_storage` bytes: the event
    /// records these three readings, the trace holds the event's line and,
    /// after it, the notice of a refund that is not zero, and such a refund
    /// is transferred to `caller`.
    pub open spec fn describes(
        self,
        initial_storage: u64,
        current_storage: u64,
        attached_deposit: u128,
        caller: A,
    ) -> bool {
        &&& self.event@ == storage_event(initial_storage, current_storage, attached_deposit)
        &&& self.trace.deep_view() == settlement_trace(self.event@, self.refund)
        &&& self.transfer == transfer_request(caller, self.refund)
    }

    /// Says that each entry of the trace is a single line.
    pub open spec fn trace_is_lines(self) -> bool {
        forall|i: int| 0 <= i < self.trace@.len() ==> is_one_line(#[trigger] self.trace@[i]@)
    }
}

/// Writes the trace line that announces a refund.
pub fn refund_notice(refund: u128) -> (notice: String)
    ensures
        notice@ == refund_notice_text(refund),
        is_one_line(notice@),
{
    proof {
        reveal_strlit("Refunding ");
        reveal_strlit(" tokens for storage");
        lemma_decimal_digits_are_digits(refund as nat);
    }
    let amount: String = to_decimal(refund);
    let mut notice: String = String::from_str("Refunding ");
    notice.append(amount.as_str());
    notice.append(" tokens for storage");
    notice
}

/// Settles one operation at `price_per_byte`.
///
/// Computes the refund that [`settlement_outcome`] defines. On success the
/// result lists what the runtime is to do: the lines to log and the transfer
/// to request, which is left out when the refund is zero. On failure the
/// operation is to be rolled back, and nothing is logged or transferred.
pub fn refund_storage_at<A>(
    initial_storage: u64,
    current_storage: u64,
    attached_deposit: u128,
    price_per_byte: u128,
    caller: A,
) -> (r: Result<Settlement<A>, SettlementError>)
    ensures
        match r {
            Ok(settlement) => {
                &&& settlement_outcome(
                    initial_storage,
                    current_storage,
                    attached_deposit,
                    price_per_byte,
                ) == Ok::<u128, SettlementError>(settlement.refund)
                &&& settlement.describes(
                    initial_storage,
                    current_storage,
                    attached_deposit,
                    caller,
                )
                &&& settlement.transfer is None <==> settlement.refund == 0
                &&& settlement.trace_is_lines()
            },
            Err(error) => settlement_outcome(
                initial_storage,
                current_storage,
                attached_deposit,
                price_per_byte,
            ) == Err::<u128, SettlementError>(error),
        },
{
    match settle(initial_storage, current_storage, attached_deposit, price_per_byte) {
        Err(error) => Err(error),
        Ok(refund) => {
            let event = EventLog {
                standard: String::from_str("nep171"),
                version: String::from_str("storage-0.1.0"),
                event: SetInfoLog { initial_storage, current_storage, attached_deposit, memo: None },
            };
            let mut trace: Vec<String> = Vec::new();
            trace.push(event.to_string());
            let transfer = if refund > 0 {
                trace.push(refund_notice(refund));
                Some(Transfer { recipient: caller, amount: refund })
            } else {
                None
            };
            assert(trace.deep_view() =~= settlement_trace(event@, refund));
            Ok(Settlement { refund, event, trace, transfer })
        },
    }
}

/// Settles one operation at [`STORAGE_PRICE_PER_BYTE`]; see
/// [`refund_storage_at`].
pub fn refund_storage<A>(
    initial_storage: u64,
    current_storage: u64,
    attached_deposit: u128,
    caller: A,
) -> (r: Result<Settlement<A>, SettlementError>)
    ensures
        match r {
            Ok(settlement) => {
                &&& settlement_outcome(
                    initial_storage,
                    current_storage,
                    attached_deposit,
                    STORAGE_PRICE_PER_BYTE,
                ) == Ok::<u128, SettlementError>(settlement.refund)
                &&& settlement.describes(
                    initial_storage,
                    current_storage,
                    attached_deposit,
                    caller,
                )
                &&& settlement.transfer is None <==> settlement.refund == 0
                &&& settlement.trace_is_lines()
            },
            Err(error) => settlement_outcome(
                initial_storage,
                current_storage,
                attached_deposit,
                STORAGE_PRICE_PER_BYTE,
            ) == Err::<u128, SettlementError>(error),
        },
{
    refund_storage_at(
        initial_storage,
        current_storage,
        attached_deposit,
        STORAGE_PRICE_PER_BYTE,
        caller,
    )
}

} // verus!
