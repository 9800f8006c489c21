//! Webhooks and the account settings (`me`).

use vstd::prelude::*;
use crate::model::common::{AccountId, MonetaryAmount, PaymentMethodTypeCode, WebhookId};

verus! {

#[derive(Debug, Clone, Copy, PartialEq, Eq, Structural)]
pub enum NotificationEventType {
    PaymentWaitingForCapture,
    PaymentSucceeded,
    PaymentCanceled,
    RefundSucceeded,
    PaymentMethodActive,
}

#[derive(Debug, Clone, PartialEq)]
pub struct CreateWebhookRequest {
    pub event: NotificationEventType,
    pub url: String,
}

#[derive(Debug, Clone, PartialEq)]
pub struct Webhook {
    pub id: WebhookId,
    pub event: NotificationEventType,
    pub url: String,
}

#[derive(Debug, Clone, PartialEq)]
pub struct SettingsQuery {
    pub on_behalf_of: Option<AccountId>,
}

#[derive(Debug, Clone, Copy, PartialEq, Eq, Structural)]
pub enum ShopStatus {
    Enabled,
    Disabled,
}

#[derive(Debug, Clone, PartialEq)]
pub struct FiscalizationData {
    pub enabled: Option<bool>,
    pub provider: Option<String>,
}

#[derive(Debug, Clone, Copy, PartialEq, Eq, Structural)]
pub enum PayoutMethodType {
    BankCard,
    YooMoney,
    Sbp,
}

#[derive(Debug, Clone, PartialEq)]
pub struct Me {
    pub account_id: AccountId,
    pub status: ShopStatus,
    pub test: bool,
    pub fiscalization: Option<FiscalizationData>,
    pub fiscalization_enabled: Option<bool>,
    pub payment_methods: Option<Vec<PaymentMethodTypeCode>>,
    pub itn: Option<String>,
    pub payout_methods: Option<Vec<PayoutMethodType>>,
    pub name: Option<String>,
    pub payout_balance: Option<MonetaryAmount>,
}

} // verus!
