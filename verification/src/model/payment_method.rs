//! Payment methods, as attached to payments and as saved for reuse.

use vstd::prelude::*;
use crate::model::common::{AccountId, B2bVatData, CardData, CardRequestData, GatewayId, Locale, MonetaryAmount, PaymentMethodId, PaymentMethodStatus, PaymentMethodTypeCode, Recipient, Timestamp};
use serde_json::Value;

verus! {

#[derive(Debug, Clone, PartialEq)]
pub struct PaymentMethodCommon {
    pub id: PaymentMethodId,
    pub saved: bool,
    pub status: PaymentMethodStatus,
    pub title: Option<String>,
}

#[derive(Debug, Clone, PartialEq)]
pub enum PaymentMethod {
    BankCard {
        common: PaymentMethodCommon,
        card: Option<CardData>,
    },
    Cash {
        common: PaymentMethodCommon,
    },
    Qiwi {
        common: PaymentMethodCommon,
    },
    Alfabank {
        common: PaymentMethodCommon,
        login: Option<String>,
    },
    Webmoney {
        common: PaymentMethodCommon,
    },
    ApplePay {
        common: PaymentMethodCommon,
    },
    GooglePay {
        common: PaymentMethodCommon,
    },
    YooMoney {
        common: PaymentMethodCommon,
        account_number: Option<String>,
    },
    Sberbank {
        common: PaymentMethodCommon,
        phone: Option<String>,
        card: Option<CardData>,
    },
    MobileBalance {
        common: PaymentMethodCommon,
    },
    Installments {
        common: PaymentMethodCommon,
    },
    B2bSberbank {
        common: PaymentMethodCommon,
        payment_purpose: String,
        vat_data: B2bVatData,
        payer_bank_details: Option<Value>,
    },
    TinkoffBank {
        common: PaymentMethodCommon,
        card: Option<CardData>,
    },
    Wechat {
        common: PaymentMethodCommon,
    },
    Sbp {
        common: PaymentMethodCommon,
        sbp_operation_id: Option<String>,
        payer_bank_details: Option<Value>,
    },
    SberLoan {
        common: PaymentMethodCommon,
        loan_option: Option<String>,
        discount_amount: Option<MonetaryAmount>,
        suspended_until: Option<Timestamp>,
    },
    ElectronicCertificate {
        common: PaymentMethodCommon,
        card: Option<CardData>,
        electronic_certificate: Option<Value>,
        articles: Option<Vec<Value>>,
    },
    SberBnpl {
        common: PaymentMethodCommon,
    },
}

#[derive(Debug, Clone, PartialEq)]
pub struct SavePaymentMethodCommon {
    pub id: PaymentMethodId,
    pub saved: bool,
    pub status: PaymentMethodStatus,
    pub holder: SavePaymentMethodHolder,
    pub title: Option<String>,
    pub confirmation: Option<PaymentMethodsConfirmation>,
}

#[derive(Debug, Clone, PartialEq)]
pub struct SavePaymentMethodHolder {
    pub account_id: AccountId,
    pub gateway_id: Option<GatewayId>,
}

#[derive(Debug, Clone, PartialEq)]
pub enum SavePaymentMethod {
    BankCard {
        common: SavePaymentMethodCommon,
        card: Option<CardData>,
    },
}

#[derive(Debug, Clone, PartialEq)]
pub struct SavePaymentMethodRequest {
    pub data: SavePaymentMethodData,
    pub holder: Option<Recipient>,
    pub client_ip: Option<String>,
    pub confirmation: Option<PaymentMethodsConfirmationData>,
}

#[derive(Debug, Clone, PartialEq)]
pub enum SavePaymentMethodData {
    BankCard { card: Option<CardRequestData> },
}

#[derive(Debug, Clone, PartialEq)]
pub enum PaymentMethodsConfirmationData {
    Redirect {
        return_url: String,
        enforce: Option<bool>,
        locale: Option<Locale>,
    },
}

#[derive(Debug, Clone, PartialEq)]
pub enum PaymentMethodsConfirmation {
    Redirect {
        confirmation_url: String,
        enforce: Option<bool>,
        return_url: Option<String>,
    },
}

impl PaymentMethod {
    /// The type code that names this variant.
    pub open spec fn spec_kind(&self) -> PaymentMethodTypeCode {
        match self {
            PaymentMethod::BankCard { .. } => PaymentMethodTypeCode::BankCard,
            PaymentMethod::Cash { .. } => PaymentMethodTypeCode::Cash,
            PaymentMethod::Qiwi { .. } => PaymentMethodTypeCode::Qiwi,
            PaymentMethod::Alfabank { .. } => PaymentMethodTypeCode::Alfabank,
            PaymentMethod::Webmoney { .. } => PaymentMethodTypeCode::Webmoney,
            PaymentMethod::ApplePay { .. } => PaymentMethodTypeCode::ApplePay,
            PaymentMethod::GooglePay { .. } => PaymentMethodTypeCode::GooglePay,
            PaymentMethod::YooMoney { .. } => PaymentMethodTypeCode::YooMoney,
            PaymentMethod::Sberbank { .. } => PaymentMethodTypeCode::Sberbank,
            PaymentMethod::MobileBalance { .. } => PaymentMethodTypeCode::MobileBalance,
            PaymentMethod::Installments { .. } => PaymentMethodTypeCode::Installments,
            PaymentMethod::B2bSberbank { .. } => PaymentMethodTypeCode::B2bSberbank,
            PaymentMethod::TinkoffBank { .. } => PaymentMethodTypeCode::TinkoffBank,
            PaymentMethod::Wechat { .. } => PaymentMethodTypeCode::Wechat,
            PaymentMethod::Sbp { .. } => PaymentMethodTypeCode::Sbp,
            PaymentMethod::SberLoan { .. } => PaymentMethodTypeCode::SberLoan,
            PaymentMethod::ElectronicCertificate { .. } => PaymentMethodTypeCode::ElectronicCertificate,
            PaymentMethod::SberBnpl { .. } => PaymentMethodTypeCode::SberBnpl,
        }
    }

    /// The type code of this payment method.
    pub fn kind(&self) -> (k: PaymentMethodTypeCode)
        ensures
            k == self.spec_kind(),
    {
        match self {
            PaymentMethod::BankCard { .. } => PaymentMethodTypeCode::BankCard,
            PaymentMethod::Cash { .. } => PaymentMethodTypeCode::Cash,
            PaymentMethod::Qiwi { .. } => PaymentMethodTypeCode::Qiwi,
            PaymentMethod::Alfabank { .. } => PaymentMethodTypeCode::Alfabank,
            PaymentMethod::Webmoney { .. } => PaymentMethodTypeCode::Webmoney,
            PaymentMethod::ApplePay { .. } => PaymentMethodTypeCode::ApplePay,
            PaymentMethod::GooglePay { .. } => PaymentMethodTypeCode::GooglePay,
            PaymentMethod::YooMoney { .. } => PaymentMethodTypeCode::YooMoney,
            PaymentMethod::Sberbank { .. } => PaymentMethodTypeCode::Sberbank,
            PaymentMethod::MobileBalance { .. } => PaymentMethodTypeCode::MobileBalance,
            PaymentMethod::Installments { .. } => PaymentMethodTypeCode::Installments,
            PaymentMethod::B2bSberbank { .. } => PaymentMethodTypeCode::B2bSberbank,
            PaymentMethod::TinkoffBank { .. } => PaymentMethodTypeCode::TinkoffBank,
            PaymentMethod::Wechat { .. } => PaymentMethodTypeCode::Wechat,
            PaymentMethod::Sbp { .. } => PaymentMethodTypeCode::Sbp,
            PaymentMethod::SberLoan { .. } => PaymentMethodTypeCode::SberLoan,
            PaymentMethod::ElectronicCertificate { .. } => PaymentMethodTypeCode::ElectronicCertificate,
            PaymentMethod::SberBnpl { .. } => PaymentMethodTypeCode::SberBnpl,
        }
    }
}

/// A payment method's type code is the code of the same name as its variant:
/// a bank card reports `BankCard`, cash reports `Cash`, and so on; no two
/// variants report the same code.
pub proof fn lemma_kind_names_the_variant(pm: PaymentMethod)
    ensures
        pm is BankCard <==> pm.spec_kind() == PaymentMethodTypeCode::BankCard,
        pm is Cash <==> pm.spec_kind() == PaymentMethodTypeCode::Cash,
        pm is Qiwi <==> pm.spec_kind() == PaymentMethodTypeCode::Qiwi,
        pm is Alfabank <==> pm.spec_kind() == PaymentMethodTypeCode::Alfabank,
        pm is Webmoney <==> pm.spec_kind() == PaymentMethodTypeCode::Webmoney,
        pm is ApplePay <==> pm.spec_kind() == PaymentMethodTypeCode::ApplePay,
        pm is GooglePay <==> pm.spec_kind() == PaymentMethodTypeCode::GooglePay,
        pm is YooMoney <==> pm.spec_kind() == PaymentMethodTypeCode::YooMoney,
        pm is Sberbank <==> pm.spec_kind() == PaymentMethodTypeCode::Sberbank,
        pm is MobileBalance <==> pm.spec_kind() == PaymentMethodTypeCode::MobileBalance,
        pm is Installments <==> pm.spec_kind() == PaymentMethodTypeCode::Installments,
        pm is B2bSberbank <==> pm.spec_kind() == PaymentMethodTypeCode::B2bSberbank,
        pm is TinkoffBank <==> pm.spec_kind() == PaymentMethodTypeCode::TinkoffBank,
        pm is Wechat <==> pm.spec_kind() == PaymentMethodTypeCode::Wechat,
        pm is Sbp <==> pm.spec_kind() == PaymentMethodTypeCode::Sbp,
        pm is SberLoan <==> pm.spec_kind() == PaymentMethodTypeCode::SberLoan,
        pm is ElectronicCertificate <==> pm.spec_kind() == PaymentMethodTypeCode::ElectronicCertificate,
        pm is SberBnpl <==> pm.spec_kind() == PaymentMethodTypeCode::SberBnpl,
{
}

} // verus!
