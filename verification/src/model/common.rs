//! Types shared by several resources: identifiers, money, statuses, cards, settlements, list responses.

use vstd::prelude::*;
use std::collections::BTreeMap;
use serde_json::Value;
use rust_decimal::Decimal;
use chrono::NaiveDate;

verus! {

#[verifier::external_type_specification]
#[verifier::external_body]
pub struct ExDecimal(rust_decimal::Decimal);

#[verifier::external_type_specification]
#[verifier::external_body]
pub struct ExNaiveDate(chrono::NaiveDate);

#[verifier::external_type_specification]
#[verifier::external_body]
pub struct ExJsonValue(serde_json::Value);

/// `rust_decimal::Decimal` derives `Clone` and `Copy`: a clone is the same
/// value.
pub assume_specification[ <Decimal as Clone>::clone ](d: &Decimal) -> (r: Decimal)
    ensures
        r == *d,
;

/// `chrono::NaiveDate` derives `Clone` and `Copy`: a clone is the same value.
pub assume_specification[ <NaiveDate as Clone>::clone ](d: &NaiveDate) -> (r: NaiveDate)
    ensures
        r == *d,
;

/// `serde_json::Value` derives `Clone`, which copies the JSON tree. Nothing is
/// stated of the opaque result.
pub assume_specification[ <Value as Clone>::clone ](v: &Value) -> Value;

/// The identifier of an account (a shop or a gateway owner).
#[derive(Debug, Clone, PartialEq, Eq, PartialOrd, Ord, Hash)]
pub struct AccountId(pub String);

impl From<String> for AccountId {
    fn from(value: String) -> (id: Self) {
        AccountId(value)
    }
}

impl vstd::std_specs::convert::FromSpecImpl<String> for AccountId {
    open spec fn obeys_from_spec() -> bool {
        true
    }

    open spec fn from_spec(v: String) -> Self {
        AccountId(v)
    }
}

/// A `String` is no spec value that a spec function can build from a `&str`,
/// so `from` states its result by its own `ensures` instead.
impl vstd::std_specs::convert::FromSpecImpl<&str> for AccountId {
    open spec fn obeys_from_spec() -> bool {
        false
    }

    open spec fn from_spec(v: &str) -> Self {
        choose|id: Self| id.0@ == v@
    }
}

impl From<&str> for AccountId {
    fn from(value: &str) -> (id: Self)
        ensures
            id.0@ == value@,
    {
        AccountId(value.to_owned())
    }
}

impl AsRef<str> for AccountId {
    fn as_ref(&self) -> (s: &str)
        ensures
            s@ == self.0@,
    {
        self.0.as_str()
    }
}

/// The identifier of a gateway.
#[derive(Debug, Clone, PartialEq, Eq, PartialOrd, Ord, Hash)]
pub struct GatewayId(pub String);

impl From<String> for GatewayId {
    fn from(value: String) -> (id: Self) {
        GatewayId(value)
    }
}

impl vstd::std_specs::convert::FromSpecImpl<String> for GatewayId {
    open spec fn obeys_from_spec() -> bool {
        true
    }

    open spec fn from_spec(v: String) -> Self {
        GatewayId(v)
    }
}

/// A `String` is no spec value that a spec function can build from a `&str`,
/// so `from` states its result by its own `ensures` instead.
impl vstd::std_specs::convert::FromSpecImpl<&str> for GatewayId {
    open spec fn obeys_from_spec() -> bool {
        false
    }

    open spec fn from_spec(v: &str) -> Self {
        choose|id: Self| id.0@ == v@
    }
}

impl From<&str> for GatewayId {
    fn from(value: &str) -> (id: Self)
        ensures
            id.0@ == value@,
    {
        GatewayId(value.to_owned())
    }
}

impl AsRef<str> for GatewayId {
    fn as_ref(&self) -> (s: &str)
        ensures
            s@ == self.0@,
    {
        self.0.as_str()
    }
}

/// The identifier of a payment.
#[derive(Debug, Clone, PartialEq, Eq, PartialOrd, Ord, Hash)]
pub struct PaymentId(pub String);

impl From<String> for PaymentId {
    fn from(value: String) -> (id: Self) {
        PaymentId(value)
    }
}

impl vstd::std_specs::convert::FromSpecImpl<String> for PaymentId {
    open spec fn obeys_from_spec() -> bool {
        true
    }

    open spec fn from_spec(v: String) -> Self {
        PaymentId(v)
    }
}

/// A `String` is no spec value that a spec function can build from a `&str`,
/// so `from` states its result by its own `ensures` instead.
impl vstd::std_specs::convert::FromSpecImpl<&str> for PaymentId {
    open spec fn obeys_from_spec() -> bool {
        false
    }

    open spec fn from_spec(v: &str) -> Self {
        choose|id: Self| id.0@ == v@
    }
}

impl From<&str> for PaymentId {
    fn from(value: &str) -> (id: Self)
        ensures
            id.0@ == value@,
    {
        PaymentId(value.to_owned())
    }
}

impl AsRef<str> for PaymentId {
    fn as_ref(&self) -> (s: &str)
        ensures
            s@ == self.0@,
    {
        self.0.as_str()
    }
}

/// The identifier of a refund.
#[derive(Debug, Clone, PartialEq, Eq, PartialOrd, Ord, Hash)]
pub struct RefundId(pub String);

impl From<String> for RefundId {
    fn from(value: String) -> (id: Self) {
        RefundId(value)
    }
}

impl vstd::std_specs::convert::FromSpecImpl<String> for RefundId {
    open spec fn obeys_from_spec() -> bool {
        true
    }

    open spec fn from_spec(v: String) -> Self {
        RefundId(v)
    }
}

/// A `String` is no spec value that a spec function can build from a `&str`,
/// so `from` states its result by its own `ensures` instead.
impl vstd::std_specs::convert::FromSpecImpl<&str> for RefundId {
    open spec fn obeys_from_spec() -> bool {
        false
    }

    open spec fn from_spec(v: &str) -> Self {
        choose|id: Self| id.0@ == v@
    }
}

impl From<&str> for RefundId {
    fn from(value: &str) -> (id: Self)
        ensures
            id.0@ == value@,
    {
        RefundId(value.to_owned())
    }
}

impl AsRef<str> for RefundId {
    fn as_ref(&self) -> (s: &str)
        ensures
            s@ == self.0@,
    {
        self.0.as_str()
    }
}

/// The identifier of a receipt.
#[derive(Debug, Clone, PartialEq, Eq, PartialOrd, Ord, Hash)]
pub struct ReceiptId(pub String);

impl From<String> for ReceiptId {
    fn from(value: String) -> (id: Self) {
        ReceiptId(value)
    }
}

impl vstd::std_specs::convert::FromSpecImpl<String> for ReceiptId {
    open spec fn obeys_from_spec() -> bool {
        true
    }

    open spec fn from_spec(v: String) -> Self {
        ReceiptId(v)
    }
}

/// A `String` is no spec value that a spec function can build from a `&str`,
/// so `from` states its result by its own `ensures` instead.
impl vstd::std_specs::convert::FromSpecImpl<&str> for ReceiptId {
    open spec fn obeys_from_spec() -> bool {
        false
    }

    open spec fn from_spec(v: &str) -> Self {
        choose|id: Self| id.0@ == v@
    }
}

impl From<&str> for ReceiptId {
    fn from(value: &str) -> (id: Self)
        ensures
            id.0@ == value@,
    {
        ReceiptId(value.to_owned())
    }
}

impl AsRef<str> for ReceiptId {
    fn as_ref(&self) -> (s: &str)
        ensures
            s@ == self.0@,
    {
        self.0.as_str()
    }
}

/// The identifier of an invoice.
#[derive(Debug, Clone, PartialEq, Eq, PartialOrd, Ord, Hash)]
pub struct InvoiceId(pub String);

impl From<String> for InvoiceId {
    fn from(value: String) -> (id: Self) {
        InvoiceId(value)
    }
}

impl vstd::std_specs::convert::FromSpecImpl<String> for InvoiceId {
    open spec fn obeys_from_spec() -> bool {
        true
    }

    open spec fn from_spec(v: String) -> Self {
        InvoiceId(v)
    }
}

/// A `String` is no spec value that a spec function can build from a `&str`,
/// so `from` states its result by its own `ensures` instead.
impl vstd::std_specs::convert::FromSpecImpl<&str> for InvoiceId {
    open spec fn obeys_from_spec() -> bool {
        false
    }

    open spec fn from_spec(v: &str) -> Self {
        choose|id: Self| id.0@ == v@
    }
}

impl From<&str> for InvoiceId {
    fn from(value: &str) -> (id: Self)
        ensures
            id.0@ == value@,
    {
        InvoiceId(value.to_owned())
    }
}

impl AsRef<str> for InvoiceId {
    fn as_ref(&self) -> (s: &str)
        ensures
            s@ == self.0@,
    {
        self.0.as_str()
    }
}

/// The identifier of a saved payment method.
#[derive(Debug, Clone, PartialEq, Eq, PartialOrd, Ord, Hash)]
pub struct PaymentMethodId(pub String);

impl From<String> for PaymentMethodId {
    fn from(value: String) -> (id: Self) {
        PaymentMethodId(value)
    }
}

impl vstd::std_specs::convert::FromSpecImpl<String> for PaymentMethodId {
    open spec fn obeys_from_spec() -> bool {
        true
    }

    open spec fn from_spec(v: String) -> Self {
        PaymentMethodId(v)
    }
}

/// A `String` is no spec value that a spec function can build from a `&str`,
/// so `from` states its result by its own `ensures` instead.
impl vstd::std_specs::convert::FromSpecImpl<&str> for PaymentMethodId {
    open spec fn obeys_from_spec() -> bool {
        false
    }

    open spec fn from_spec(v: &str) -> Self {
        choose|id: Self| id.0@ == v@
    }
}

impl From<&str> for PaymentMethodId {
    fn from(value: &str) -> (id: Self)
        ensures
            id.0@ == value@,
    {
        PaymentMethodId(value.to_owned())
    }
}

impl AsRef<str> for PaymentMethodId {
    fn as_ref(&self) -> (s: &str)
        ensures
            s@ == self.0@,
    {
        self.0.as_str()
    }
}

/// The identifier of a safe deal.
#[derive(Debug, Clone, PartialEq, Eq, PartialOrd, Ord, Hash)]
pub struct DealId(pub String);

impl From<String> for DealId {
    fn from(value: String) -> (id: Self) {
        DealId(value)
    }
}

impl vstd::std_specs::convert::FromSpecImpl<String> for DealId {
    open spec fn obeys_from_spec() -> bool {
        true
    }

    open spec fn from_spec(v: String) -> Self {
        DealId(v)
    }
}

/// A `String` is no spec value that a spec function can build from a `&str`,
/// so `from` states its result by its own `ensures` instead.
impl vstd::std_specs::convert::FromSpecImpl<&str> for DealId {
    open spec fn obeys_from_spec() -> bool {
        false
    }

    open spec fn from_spec(v: &str) -> Self {
        choose|id: Self| id.0@ == v@
    }
}

impl From<&str> for DealId {
    fn from(value: &str) -> (id: Self)
        ensures
            id.0@ == value@,
    {
        DealId(value.to_owned())
    }
}

impl AsRef<str> for DealId {
    fn as_ref(&self) -> (s: &str)
        ensures
            s@ == self.0@,
    {
        self.0.as_str()
    }
}

/// The identifier of a payout.
#[derive(Debug, Clone, PartialEq, Eq, PartialOrd, Ord, Hash)]
pub struct PayoutId(pub String);

impl From<String> for PayoutId {
    fn from(value: String) -> (id: Self) {
        PayoutId(value)
    }
}

impl vstd::std_specs::convert::FromSpecImpl<String> for PayoutId {
    open spec fn obeys_from_spec() -> bool {
        true
    }

    open spec fn from_spec(v: String) -> Self {
        PayoutId(v)
    }
}

/// A `String` is no spec value that a spec function can build from a `&str`,
/// so `from` states its result by its own `ensures` instead.
impl vstd::std_specs::convert::FromSpecImpl<&str> for PayoutId {
    open spec fn obeys_from_spec() -> bool {
        false
    }

    open spec fn from_spec(v: &str) -> Self {
        choose|id: Self| id.0@ == v@
    }
}

impl From<&str> for PayoutId {
    fn from(value: &str) -> (id: Self)
        ensures
            id.0@ == value@,
    {
        PayoutId(value.to_owned())
    }
}

impl AsRef<str> for PayoutId {
    fn as_ref(&self) -> (s: &str)
        ensures
            s@ == self.0@,
    {
        self.0.as_str()
    }
}

/// The identifier of a personal data record.
#[derive(Debug, Clone, PartialEq, Eq, PartialOrd, Ord, Hash)]
pub struct PersonalDataId(pub String);

impl From<String> for PersonalDataId {
    fn from(value: String) -> (id: Self) {
        PersonalDataId(value)
    }
}

impl vstd::std_specs::convert::FromSpecImpl<String> for PersonalDataId {
    open spec fn obeys_from_spec() -> bool {
        true
    }

    open spec fn from_spec(v: String) -> Self {
        PersonalDataId(v)
    }
}

/// A `String` is no spec value that a spec function can build from a `&str`,
/// so `from` states its result by its own `ensures` instead.
impl vstd::std_specs::convert::FromSpecImpl<&str> for PersonalDataId {
    open spec fn obeys_from_spec() -> bool {
        false
    }

    open spec fn from_spec(v: &str) -> Self {
        choose|id: Self| id.0@ == v@
    }
}

impl From<&str> for PersonalDataId {
    fn from(value: &str) -> (id: Self)
        ensures
            id.0@ == value@,
    {
        PersonalDataId(value.to_owned())
    }
}

impl AsRef<str> for PersonalDataId {
    fn as_ref(&self) -> (s: &str)
        ensures
            s@ == self.0@,
    {
        self.0.as_str()
    }
}

/// The identifier of a webhook.
#[derive(Debug, Clone, PartialEq, Eq, PartialOrd, Ord, Hash)]
pub struct WebhookId(pub String);

impl From<String> for WebhookId {
    fn from(value: String) -> (id: Self) {
        WebhookId(value)
    }
}

impl vstd::std_specs::convert::FromSpecImpl<String> for WebhookId {
    open spec fn obeys_from_spec() -> bool {
        true
    }

    open spec fn from_spec(v: String) -> Self {
        WebhookId(v)
    }
}

/// A `String` is no spec value that a spec function can build from a `&str`,
/// so `from` states its result by its own `ensures` instead.
impl vstd::std_specs::convert::FromSpecImpl<&str> for WebhookId {
    open spec fn obeys_from_spec() -> bool {
        false
    }

    open spec fn from_spec(v: &str) -> Self {
        choose|id: Self| id.0@ == v@
    }
}

impl From<&str> for WebhookId {
    fn from(value: &str) -> (id: Self)
        ensures
            id.0@ == value@,
    {
        WebhookId(value.to_owned())
    }
}

impl AsRef<str> for WebhookId {
    fn as_ref(&self) -> (s: &str)
        ensures
            s@ == self.0@,
    {
        self.0.as_str()
    }
}

/// The identifier of an SBP participant bank.
#[derive(Debug, Clone, PartialEq, Eq, PartialOrd, Ord, Hash)]
pub struct SbpBankId(pub String);

impl From<String> for SbpBankId {
    fn from(value: String) -> (id: Self) {
        SbpBankId(value)
    }
}

impl vstd::std_specs::convert::FromSpecImpl<String> for SbpBankId {
    open spec fn obeys_from_spec() -> bool {
        true
    }

    open spec fn from_spec(v: String) -> Self {
        SbpBankId(v)
    }
}

/// A `String` is no spec value that a spec function can build from a `&str`,
/// so `from` states its result by its own `ensures` instead.
impl vstd::std_specs::convert::FromSpecImpl<&str> for SbpBankId {
    open spec fn obeys_from_spec() -> bool {
        false
    }

    open spec fn from_spec(v: &str) -> Self {
        choose|id: Self| id.0@ == v@
    }
}

impl From<&str> for SbpBankId {
    fn from(value: &str) -> (id: Self)
        ensures
            id.0@ == value@,
    {
        SbpBankId(value.to_owned())
    }
}

impl AsRef<str> for SbpBankId {
    fn as_ref(&self) -> (s: &str)
        ensures
            s@ == self.0@,
    {
        self.0.as_str()
    }
}

/// Whether `chrono` represents the instant `secs` seconds and `nanos`
/// nanoseconds after the Unix epoch as a `DateTime<Utc>`: the name of what
/// `DateTime::<Utc>::from_timestamp(secs, nanos).is_some()` returns. Its range
/// (some 262,000 years either side of year 0) is chrono's own.
pub uninterp spec fn utc_timestamp_in_range(secs: i64, nanos: u32) -> bool;

/// Calls `chrono::DateTime::<Utc>::from_timestamp` and reports whether it gave
/// an instant; the result is named by `utc_timestamp_in_range`.
#[verifier::external_body]
fn chrono_accepts_timestamp(secs: i64, nanos: u32) -> (b: bool)
    ensures
        b == utc_timestamp_in_range(secs, nanos),
{
    chrono::DateTime::<chrono::Utc>::from_timestamp(secs, nanos).is_some()
}

/// An instant in UTC, as `chrono::DateTime<Utc>` holds it: whole seconds since
/// the Unix epoch and the nanoseconds within that second (at or above one
/// billion only during a leap second). Every value is one that chrono can
/// represent.
#[derive(Debug, Clone, Copy, PartialEq, Eq, Hash)]
pub struct Timestamp {
    secs: i64,
    nanos: u32,
}

impl Timestamp {
    #[verifier::type_invariant]
    spec fn representable(&self) -> bool {
        utc_timestamp_in_range(self.secs, self.nanos)
    }

    /// Seconds since the Unix epoch.
    pub closed spec fn spec_secs(&self) -> i64 {
        self.secs
    }

    /// Nanoseconds within the second.
    pub closed spec fn spec_nanos(&self) -> u32 {
        self.nanos
    }

    /// The instant `secs` seconds and `nanos` nanoseconds after the Unix epoch,
    /// if chrono can represent it.
    pub fn from_unix(secs: i64, nanos: u32) -> (r: Option<Self>)
        ensures
            r is Some <==> utc_timestamp_in_range(secs, nanos),
            r matches Some(t) ==> t.spec_secs() == secs && t.spec_nanos() == nanos,
    {
        if chrono_accepts_timestamp(secs, nanos) {
            Some(Timestamp { secs, nanos })
        } else {
            None
        }
    }

    /// Seconds since the Unix epoch.
    pub fn unix_seconds(&self) -> (s: i64)
        ensures
            s == self.spec_secs(),
            utc_timestamp_in_range(s, self.spec_nanos()),
    {
        proof {
            use_type_invariant(self);
        }
        self.secs
    }

    /// Nanoseconds within the second.
    pub fn subsec_nanos(&self) -> (n: u32)
        ensures
            n == self.spec_nanos(),
            utc_timestamp_in_range(self.spec_secs(), n),
    {
        proof {
            use_type_invariant(self);
        }
        self.nanos
    }
}

pub type Metadata = BTreeMap<String, Value>;

#[derive(Debug, Clone, Copy, PartialEq, Eq, Structural)]
pub enum CurrencyCode {
    Rub,
    Eur,
    Usd,
    Kzt,
    Byn,
    Uah,
    Uzs,
    Try,
    Inr,
    Mdl,
    Azn,
    Amd,
}

#[derive(Debug, Clone, PartialEq)]
pub struct MonetaryAmount {
    pub value: Decimal,
    pub currency: CurrencyCode,
}

#[derive(Debug, Clone, Copy, PartialEq, Eq, Structural)]
pub enum PaymentStatus {
    Pending,
    WaitingForCapture,
    Succeeded,
    Canceled,
}

#[derive(Debug, Clone, Copy, PartialEq, Eq, Structural)]
pub enum ReceiptRegistrationStatus {
    Pending,
    Succeeded,
    Canceled,
}

#[derive(Debug, Clone, Copy, PartialEq, Eq, Structural)]
pub enum PaymentMethodStatus {
    Pending,
    Active,
    Inactive,
}

#[derive(Debug, Clone, Copy, PartialEq, Eq, Structural)]
pub enum PaymentMethodTypeCode {
    BankCard,
    Cash,
    Alfabank,
    Webmoney,
    Wechat,
    ApplePay,
    GooglePay,
    Qiwi,
    Installments,
    YooMoney,
    Sberbank,
    MobileBalance,
    B2bSberbank,
    TinkoffBank,
    Sbp,
    SberLoan,
    ElectronicCertificate,
    SberBnpl,
}

#[derive(Debug, Clone, Copy, PartialEq, Eq, Structural)]
pub enum Locale {
    RuRu,
    EnUs,
}

#[derive(Debug, Clone, Copy, PartialEq, Eq, Structural)]
pub enum BankCardType {
    MasterCard,
    Visa,
    Mir,
    UnionPay,
    Jcb,
    AmericanExpress,
    DinersClub,
    DiscoverCard,
    InstaPayment,
    InstaPaymentTm,
    Laser,
    Dankort,
    Solo,
    Switch,
    Unknown,
}

#[derive(Debug, Clone, Copy, PartialEq, Eq, Structural)]
pub enum VatDataType {
    Calculated,
    Untaxed,
    Mixed,
}

#[derive(Debug, Clone, PartialEq)]
pub enum B2bVatData {
    Calculated {
        amount: MonetaryAmount,
        rate: String,
    },
    Untaxed,
    Mixed {
        amount: MonetaryAmount,
    },
}

#[derive(Debug, Clone, PartialEq)]
pub struct Recipient {
    pub gateway_id: GatewayId,
}

#[derive(Debug, Clone, PartialEq)]
pub struct RecipientInfo {
    pub account_id: AccountId,
    pub gateway_id: GatewayId,
}

#[derive(Debug, Clone, PartialEq)]
pub struct TimeFilter {
    pub created_at_gte: Option<Timestamp>,
    pub created_at_gt: Option<Timestamp>,
    pub created_at_lte: Option<Timestamp>,
    pub created_at_lt: Option<Timestamp>,
    pub limit: Option<u8>,
    pub next_cursor: Option<String>,
}

#[derive(Debug, Clone, PartialEq)]
pub struct ListResponse<T> {
    pub type_: String,
    pub items: Vec<T>,
    pub next_cursor: Option<String>,
}

#[derive(Debug, Clone, PartialEq)]
pub struct CardData {
    pub first6: Option<String>,
    pub last4: String,
    pub expiry_year: String,
    pub expiry_month: String,
    pub card_type: BankCardType,
    pub card_product: Option<CardProduct>,
    pub issuer_country: Option<String>,
    pub issuer_name: Option<String>,
    pub source: Option<String>,
}

#[derive(Debug, Clone, PartialEq)]
pub struct CardProduct {
    pub code: String,
    pub name: Option<String>,
}

#[derive(Debug, Clone, PartialEq)]
pub struct CardRequestData {
    pub number: String,
    pub expiry_year: String,
    pub expiry_month: String,
    pub cardholder: Option<String>,
    pub csc: Option<String>,
}

#[derive(Debug, Clone, PartialEq)]
pub struct MarkQuantity {
    pub numerator: u32,
    pub denominator: u32,
}

#[derive(Debug, Clone, PartialEq)]
pub struct IndustryDetails {
    pub federal_id: String,
    pub document_date: NaiveDate,
    pub document_number: String,
    pub value: String,
}

#[derive(Debug, Clone, PartialEq)]
pub struct OperationalDetails {
    pub operation_id: u8,
    pub value: String,
    pub created_at: Timestamp,
}

#[derive(Debug, Clone, PartialEq)]
pub struct Settlement {
    pub type_: SettlementType,
    pub amount: MonetaryAmount,
}

#[derive(Debug, Clone, Copy, PartialEq, Eq, Structural)]
pub enum SettlementType {
    Cashless,
    Prepayment,
    Postpayment,
    Consideration,
}

#[derive(Debug, Clone, PartialEq)]
pub struct PaymentDealInfo {
    pub id: DealId,
    pub settlements: Vec<Settlement>,
}

#[derive(Debug, Clone, PartialEq)]
pub struct TransferData {
    pub account_id: AccountId,
    pub amount: MonetaryAmount,
    pub platform_fee_amount: Option<MonetaryAmount>,
}

#[derive(Debug, Clone, PartialEq)]
pub struct Transfer {
    pub account_id: AccountId,
    pub amount: MonetaryAmount,
    pub status: PaymentStatus,
    pub platform_fee_amount: Option<MonetaryAmount>,
    pub description: Option<String>,
    pub metadata: Option<Metadata>,
}

#[derive(Debug, Clone, PartialEq)]
pub struct AuthorizationDetails {
    pub rrn: Option<String>,
    pub auth_code: Option<String>,
    pub three_d_secure: ThreeDSecureDetails,
}

#[derive(Debug, Clone, PartialEq)]
pub struct ThreeDSecureDetails {
    pub applied: bool,
}

#[derive(Debug, Clone, PartialEq)]
pub struct PaymentCancellationDetails {
    pub party: PaymentCancellationParty,
    pub reason: PaymentCancellationReason,
}

#[derive(Debug, Clone, Copy, PartialEq, Eq, Structural)]
pub enum PaymentCancellationParty {
    YooMoney,
    PaymentNetwork,
    Merchant,
}

#[derive(Debug, Clone, Copy, PartialEq, Eq, Structural)]
pub enum PaymentCancellationReason {
    ThreeDSecureFailed,
    CallIssuer,
    CardExpired,
    PaymentMethodLimitExceeded,
    PaymentMethodRestricted,
    CountryForbidden,
    GeneralDecline,
    FraudSuspected,
    IdentificationRequired,
    InsufficientFunds,
    InvalidCardNumber,
    InvalidCsc,
    IssuerUnavailable,
    CanceledByMerchant,
    PermissionRevoked,
    InternalTimeout,
    ExpiredOnConfirmation,
    ExpiredOnCapture,
    UnsupportedMobileOperator,
    DealExpired,
}

impl MonetaryAmount {
    /// An amount of `value` in `currency`.
    pub fn new(value: Decimal, currency: CurrencyCode) -> (m: Self)
        ensures
            m.value == value,
            m.currency == currency,
    {
        MonetaryAmount { value, currency }
    }
}

} // verus!
