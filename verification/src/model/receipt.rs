//! Receipts: types and list queries.

use vstd::prelude::*;
use crate::model::common::{PaymentId, ReceiptRegistrationStatus, RefundId, TimeFilter};
use crate::model::payment::{Payment};
use crate::model::refund::{Refund};

verus! {

#[derive(Debug, Clone, Copy, PartialEq, Eq, Structural)]
pub enum ReceiptType {
    Payment,
    Refund,
}

#[derive(Debug, Clone, PartialEq)]
pub struct ReceiptListQuery {
    pub time: TimeFilter,
    pub status: Option<ReceiptRegistrationStatus>,
    pub payment_id: Option<PaymentId>,
    pub refund_id: Option<RefundId>,
}

} // verus!
