//! Withdrawal records and their lifecycle.
use vstd::prelude::*;

use rust_decimal::Decimal;

verus! {

/// A withdrawal to submit.
#[derive(Debug, Clone, PartialEq, Eq)]
pub struct WithdrawalWithdrawRequest {
    /// Client order id: up to 32 characters of 0-9, A-Z, a-z, `_`, `-` or `.`.
    pub withdraw_order_id: Option<String>,
    /// Currency amount.
    pub amount: Decimal,
    /// Currency name.
    pub currency: String,
    /// Withdrawal address.
    pub address: Option<String>,
    /// Additional remarks.
    pub memo: Option<String>,
    /// Chain used for the withdrawal.
    pub chain: String,
}

/// A withdrawal record.
#[derive(Debug, Clone, PartialEq, Eq)]
pub struct WithdrawalWithdrawResponse {
    /// Record id.
    pub id: String,
    /// Hash of the transfer.
    pub txid: Option<String>,
    /// Client order id.
    pub withdraw_order_id: Option<String>,
    /// Operation time, in seconds since the Unix epoch.
    pub timestamp: Option<i64>,
    /// Currency amount.
    pub amount: Decimal,
    /// Currency name.
    pub currency: String,
    /// Withdrawal address.
    pub address: String,
    /// Additional remarks.
    pub memo: Option<String>,
    /// Record status.
    pub status: WithdrawalWithdrawStatus,
    /// Chain used for the withdrawal.
    pub chain: String,
}

/// Status of a withdrawal record.
#[derive(Debug, Clone, Copy, PartialEq, Eq)]
pub enum WithdrawalWithdrawStatus {
    /// done
    Done,
    /// cancelled
    Cancel,
    /// requesting
    Request,
    /// pending manual approval
    Manual,
    /// GateCode operation
    Bcode,
    /// pending confirm after sending
    Extpend,
    /// pending confirm when fail
    Fail,
    /// invalid order
    Invalid,
    /// verifying
    Verify,
    /// processing
    Proces,
    /// pending
    Pend,
    /// required manual approval
    Dmove,
    /// split automatically because of a large amount
    Splitpend,
    /// locked
    Locked,
}

impl WithdrawalWithdrawStatus {
    /// The withdrawal has reached a final state.
    pub fn is_finished(&self) -> (r: bool)
        ensures
            r == (*self is Done || *self is Cancel || *self is Fail),
    {
        matches!(
            self,
            WithdrawalWithdrawStatus::Done
                | WithdrawalWithdrawStatus::Cancel
                | WithdrawalWithdrawStatus::Fail
        )
    }

    /// The withdrawal is still on its way.
    pub fn is_pending(&self) -> (r: bool)
        ensures
            r == (*self is Request || *self is Manual || *self is Bcode || *self is Extpend
                || *self is Verify || *self is Proces || *self is Pend || *self is Splitpend),
    {
        matches!(
            self,
            WithdrawalWithdrawStatus::Request
                | WithdrawalWithdrawStatus::Manual
                | WithdrawalWithdrawStatus::Bcode
                | WithdrawalWithdrawStatus::Extpend
                | WithdrawalWithdrawStatus::Verify
                | WithdrawalWithdrawStatus::Proces
                | WithdrawalWithdrawStatus::Pend
                | WithdrawalWithdrawStatus::Splitpend
        )
    }

    /// The withdrawal waits for a manual approval.
    pub fn needs_confirmation(&self) -> (r: bool)
        ensures
            r == (*self is Manual),
    {
        matches!(self, WithdrawalWithdrawStatus::Manual)
    }
}

} // verus!
