//! Payouts, SBP participant banks and personal data.

use vstd::prelude::*;
use crate::model::common::{CardData, DealId, Metadata, MonetaryAmount, PaymentMethodId, PayoutId, PersonalDataId, SbpBankId, TimeFilter, Timestamp};
use std::collections::BTreeMap;
use chrono::NaiveDate;
use serde_json::Value;

verus! {

#[derive(Debug, Clone, Copy, PartialEq, Eq, Structural)]
pub enum PayoutStatus {
    Pending,
    Succeeded,
    Canceled,
}

#[derive(Debug, Clone, Copy, PartialEq, Eq, Structural)]
pub enum PayoutDestinationType {
    YooMoney,
    BankCard,
    Sbp,
}

#[derive(Debug, Clone, PartialEq)]
pub enum PayoutDestinationData {
    YooMoney { account_number: String },
    BankCard { card: PayoutCardRequest },
    Sbp { phone: String, bank_id: SbpBankId },
}

#[derive(Debug, Clone, PartialEq)]
pub struct PayoutCardRequest {
    pub number: String,
}

#[derive(Debug, Clone, PartialEq)]
pub enum PayoutDestination {
    YooMoney {
        account_number: String,
    },
    BankCard {
        card: CardData,
    },
    Sbp {
        phone: String,
        bank_id: SbpBankId,
        sbp_operation_id: Option<String>,
        recipient_checked: bool,
    },
}

#[derive(Debug, Clone, PartialEq)]
pub struct PayoutDealInfo {
    pub id: DealId,
}

#[derive(Debug, Clone, PartialEq)]
pub struct PayoutPersonalDataRef {
    pub id: PersonalDataId,
}

#[derive(Debug, Clone, PartialEq)]
pub struct CreatePayoutRequest {
    pub amount: MonetaryAmount,
    pub payout_destination_data: Option<PayoutDestinationData>,
    pub payout_token: Option<String>,
    pub payment_method_id: Option<PaymentMethodId>,
    pub description: Option<String>,
    pub deal: Option<PayoutDealInfo>,
    pub personal_data: Option<Vec<PayoutPersonalDataRef>>,
    pub metadata: Option<Metadata>,
}

#[derive(Debug, Clone, PartialEq)]
pub struct PayoutListQuery {
    pub time: TimeFilter,
    pub succeeded_at_gte: Option<Timestamp>,
    pub succeeded_at_gt: Option<Timestamp>,
    pub succeeded_at_lte: Option<Timestamp>,
    pub succeeded_at_lt: Option<Timestamp>,
    pub payout_destination_type: Option<PayoutDestinationType>,
    pub status: Option<PayoutStatus>,
}

#[derive(Debug, Clone, PartialEq)]
pub struct PayoutSearchQuery {
    pub time: TimeFilter,
    pub metadata: Option<BTreeMap<String, String>>,
}

#[derive(Debug, Clone, PartialEq)]
pub struct Payout {
    pub id: PayoutId,
    pub amount: MonetaryAmount,
    pub status: PayoutStatus,
    pub payout_destination: PayoutDestination,
    pub description: Option<String>,
    pub created_at: Timestamp,
    pub succeeded_at: Option<Timestamp>,
    pub deal: Option<PayoutDealInfo>,
    pub self_employed: Option<Value>,
    pub receipt: Option<Value>,
    pub cancellation_details: Option<Value>,
    pub metadata: Option<Metadata>,
    pub test: bool,
}

#[derive(Debug, Clone, PartialEq)]
pub struct SbpParticipantBank {
    pub bank_id: SbpBankId,
    pub name: String,
    pub bic: String,
}

#[derive(Debug, Clone, Copy, PartialEq, Eq, Structural)]
pub enum PersonalDataType {
    PayoutStatementRecipient,
    SbpPayoutRecipient,
}

#[derive(Debug, Clone, Copy, PartialEq, Eq, Structural)]
pub enum PersonalDataStatus {
    WaitingForOperation,
    Active,
    Canceled,
}

#[derive(Debug, Clone, Copy, PartialEq, Eq, Structural)]
pub enum PersonalDataCancellationParty {
    YooMoney,
}

#[derive(Debug, Clone, Copy, PartialEq, Eq, Structural)]
pub enum PersonalDataCancellationReason {
    ExpiredByTimeout,
}

#[derive(Debug, Clone, PartialEq)]
pub struct PersonalDataCancellationDetails {
    pub party: PersonalDataCancellationParty,
    pub reason: PersonalDataCancellationReason,
}

#[derive(Debug, Clone, PartialEq)]
pub enum PersonalDataRequest {
    SbpPayoutRecipient {
        metadata: Option<Metadata>,
        last_name: String,
        first_name: String,
        middle_name: Option<String>,
    },
    PayoutStatementRecipient {
        metadata: Option<Metadata>,
        last_name: String,
        first_name: String,
        middle_name: Option<String>,
        birthdate: NaiveDate,
    },
}

#[derive(Debug, Clone, PartialEq)]
pub struct PersonalData {
    pub id: PersonalDataId,
    pub type_: PersonalDataType,
    pub status: PersonalDataStatus,
    pub cancellation_details: Option<PersonalDataCancellationDetails>,
    pub created_at: Timestamp,
    pub expires_at: Option<Timestamp>,
    pub metadata: Option<Metadata>,
}

} // verus!
