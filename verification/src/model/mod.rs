//! The API's data model.

pub mod common;
pub mod deal;
pub mod invoice;
pub mod payment;
pub mod payment_method;
pub mod payout;
pub mod receipt;
pub mod refund;
pub mod webhook;

pub use common::{AccountId, GatewayId, PaymentId, RefundId, ReceiptId, InvoiceId, PaymentMethodId, DealId, PayoutId, PersonalDataId, WebhookId, SbpBankId, Timestamp, Metadata, CurrencyCode, MonetaryAmount, PaymentStatus, ReceiptRegistrationStatus, PaymentMethodStatus, PaymentMethodTypeCode, Locale, BankCardType, VatDataType, B2bVatData, Recipient, RecipientInfo, TimeFilter, ListResponse, CardData, CardProduct, CardRequestData, MarkQuantity, IndustryDetails, OperationalDetails, Settlement, SettlementType, PaymentDealInfo, TransferData, Transfer, AuthorizationDetails, ThreeDSecureDetails, PaymentCancellationDetails, PaymentCancellationParty, PaymentCancellationReason};
pub use deal::{DealType, FeeMoment, DealStatus, CreateDealRequest, DealListQuery, Deal};
pub use invoice::{DeliveryMethodData, DeliveryMethod, InvoiceStatus, PaymentDetails, InvoiceCancellationDetails};
pub use payment::{PaymentMethodData, ConfirmationData, Confirmation, ReceiptCustomer, CapturePaymentDeal, PaymentListQuery, Payment, PaymentInvoiceDetails};
pub use payment_method::{PaymentMethodCommon, PaymentMethod, SavePaymentMethodCommon, SavePaymentMethodHolder, SavePaymentMethod, SavePaymentMethodRequest, SavePaymentMethodData, PaymentMethodsConfirmationData, PaymentMethodsConfirmation};
pub use payout::{PayoutStatus, PayoutDestinationType, PayoutDestinationData, PayoutCardRequest, PayoutDestination, PayoutDealInfo, PayoutPersonalDataRef, CreatePayoutRequest, PayoutListQuery, PayoutSearchQuery, Payout, SbpParticipantBank, PersonalDataType, PersonalDataStatus, PersonalDataCancellationParty, PersonalDataCancellationReason, PersonalDataCancellationDetails, PersonalDataRequest, PersonalData};
pub use receipt::{ReceiptType, ReceiptListQuery};
pub use refund::{RefundSourceData, RefundDealData, RefundStatus, RefundListQuery, Refund};
pub use webhook::{NotificationEventType, CreateWebhookRequest, Webhook, SettingsQuery, ShopStatus, FiscalizationData, PayoutMethodType, Me};
