//! Invoices: delivery methods, statuses and payment details.

use vstd::prelude::*;
use crate::model::common::{PaymentId, PaymentStatus};

verus! {

#[derive(Debug, Clone, PartialEq)]
pub enum DeliveryMethodData {
    SelfDelivery,
    Sms {
        phone: String,
    },
    Email {
        email: String,
    },
}

#[derive(Debug, Clone, PartialEq)]
pub enum DeliveryMethod {
    SelfDelivery {
        url: Option<String>,
    },
    Sms,
    Email,
}

#[derive(Debug, Clone, Copy, PartialEq, Eq, Structural)]
pub enum InvoiceStatus {
    Pending,
    Succeeded,
    Canceled,
}

#[derive(Debug, Clone, PartialEq)]
pub struct PaymentDetails {
    pub id: PaymentId,
    pub status: PaymentStatus,
}

#[derive(Debug, Clone, PartialEq)]
pub struct InvoiceCancellationDetails {
    pub party: String,
    pub reason: String,
}

} // verus!
