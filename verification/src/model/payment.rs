//! Payments: payment method data, confirmations, customers, list queries and the payment object.

use vstd::prelude::*;
use crate::model::common::{AuthorizationDetails, B2bVatData, CardRequestData, InvoiceId, Locale, Metadata, MonetaryAmount, PaymentCancellationDetails, PaymentDealInfo, PaymentId, PaymentMethodTypeCode, PaymentStatus, ReceiptRegistrationStatus, RecipientInfo, Settlement, TimeFilter, Timestamp, Transfer};
use crate::model::payment_method::{PaymentMethod};
use serde_json::Value;

verus! {

#[derive(Debug, Clone, PartialEq)]
pub enum PaymentMethodData {
    BankCard {
        card: Option<CardRequestData>,
    },
    Cash {
        phone: Option<String>,
    },
    Sberbank {
        phone: Option<String>,
    },
    TinkoffBank,
    YooMoney,
    MobileBalance {
        phone: String,
    },
    B2bSberbank {
        payment_purpose: String,
        vat_data: B2bVatData,
    },
    Sbp,
    SberLoan,
    ElectronicCertificate {
        card: Option<CardRequestData>,
        electronic_certificate: Option<Value>,
        articles: Option<Vec<Value>>,
    },
    SberBnpl {
        phone: Option<String>,
    },
}

#[derive(Debug, Clone, PartialEq)]
pub enum ConfirmationData {
    Redirect {
        return_url: String,
        enforce: Option<bool>,
        locale: Option<Locale>,
    },
    External {
        locale: Option<Locale>,
    },
    Qr {
        locale: Option<Locale>,
        return_url: Option<String>,
    },
    Embedded {
        locale: Option<Locale>,
    },
    MobileApplication {
        locale: Option<Locale>,
        return_url: String,
    },
}

#[derive(Debug, Clone, PartialEq)]
pub enum Confirmation {
    Redirect {
        confirmation_url: String,
        enforce: Option<bool>,
        return_url: Option<String>,
    },
    External,
    Qr {
        confirmation_data: String,
    },
    Embedded {
        confirmation_token: String,
    },
    MobileApplication {
        confirmation_url: String,
    },
}

#[derive(Debug, Clone, PartialEq)]
pub struct ReceiptCustomer {
    pub full_name: Option<String>,
    pub inn: Option<String>,
    pub email: Option<String>,
    pub phone: Option<String>,
}

#[derive(Debug, Clone, PartialEq)]
pub struct CapturePaymentDeal {
    pub settlements: Vec<Settlement>,
}

#[derive(Debug, Clone, PartialEq)]
pub struct PaymentListQuery {
    pub time: TimeFilter,
    pub captured_at_gte: Option<Timestamp>,
    pub captured_at_gt: Option<Timestamp>,
    pub captured_at_lte: Option<Timestamp>,
    pub captured_at_lt: Option<Timestamp>,
    pub payment_method: Option<PaymentMethodTypeCode>,
    pub status: Option<PaymentStatus>,
}

#[derive(Debug, Clone, PartialEq)]
pub struct Payment {
    pub id: PaymentId,
    pub status: PaymentStatus,
    pub amount: MonetaryAmount,
    pub income_amount: Option<MonetaryAmount>,
    pub description: Option<String>,
    pub recipient: RecipientInfo,
    pub payment_method: Option<PaymentMethod>,
    pub captured_at: Option<Timestamp>,
    pub created_at: Timestamp,
    pub expires_at: Option<Timestamp>,
    pub confirmation: Option<Confirmation>,
    pub test: bool,
    pub refunded_amount: Option<MonetaryAmount>,
    pub paid: bool,
    pub refundable: bool,
    pub receipt_registration: Option<ReceiptRegistrationStatus>,
    pub metadata: Option<Metadata>,
    pub cancellation_details: Option<PaymentCancellationDetails>,
    pub authorization_details: Option<AuthorizationDetails>,
    pub transfers: Option<Vec<Transfer>>,
    pub deal: Option<PaymentDealInfo>,
    pub merchant_customer_id: Option<String>,
    pub invoice_details: Option<PaymentInvoiceDetails>,
}

#[derive(Debug, Clone, PartialEq)]
pub struct PaymentInvoiceDetails {
    pub id: InvoiceId,
}

} // verus!
