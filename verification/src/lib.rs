//! Storage-deposit settlement for contracts that bill callers for the
//! persistent bytes their calls consume.
//!
//! A caller attaches a deposit to an operation that changes the contract's
//! state. Once the operation has run, [`refund_storage`] compares the storage
//! in use before and after it, prices the difference, and either fails the
//! operation for want of funds or says what to log and what to pay back.
//! [`IntoStorageKeyGenerator`] hands out the prefixes that keep the
//! contract's persistent collections apart.

pub mod events;
pub mod json;
pub mod keys;
pub mod settlement;
pub mod text;

pub use events::{EventLog, SetInfoLog};
pub use keys::IntoStorageKeyGenerator;
pub use settlement::{
    refund_storage, refund_storage_at, settle, Settlement, SettlementError, Transfer,
    STORAGE_PRICE_PER_BYTE,
};
