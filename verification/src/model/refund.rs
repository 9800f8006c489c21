//! Refunds.

use vstd::prelude::*;
use crate::model::common::{AccountId, Metadata, MonetaryAmount, PaymentId, ReceiptRegistrationStatus, RefundId, Settlement, TimeFilter, Timestamp};
use serde_json::Value;

verus! {

#[derive(Debug, Clone, PartialEq)]
pub struct RefundSourceData {
    pub account_id: AccountId,
    pub amount: MonetaryAmount,
    pub platform_fee_amount: Option<MonetaryAmount>,
}

#[derive(Debug, Clone, PartialEq)]
pub struct RefundDealData {
    pub refund_settlements: Vec<Settlement>,
}

#[derive(Debug, Clone, Copy, PartialEq, Eq, Structural)]
pub enum RefundStatus {
    Pending,
    Succeeded,
    Canceled,
}

#[derive(Debug, Clone, PartialEq)]
pub struct RefundListQuery {
    pub time: TimeFilter,
    pub payment_id: Option<PaymentId>,
    pub status: Option<RefundStatus>,
}

#[derive(Debug, Clone, PartialEq)]
pub struct Refund {
    pub id: RefundId,
    pub payment_id: PaymentId,
    pub status: RefundStatus,
    pub cancellation_details: Option<Value>,
    pub receipt_registration: Option<ReceiptRegistrationStatus>,
    pub created_at: Timestamp,
    pub amount: MonetaryAmount,
    pub description: Option<String>,
    pub sources: Option<Vec<RefundSourceData>>,
    pub deal: Option<Value>,
    pub refund_method: Option<Value>,
    pub refund_authorization_details: Option<Value>,
    pub metadata: Option<Metadata>,
}

} // verus!
