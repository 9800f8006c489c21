//! The operations of the API: for each, its HTTP method, its path below the
//! base URL, and whether it needs OAuth credentials.

use vstd::prelude::*;
use crate::client::RequestMethod;
use crate::model::{DealId, InvoiceId, PaymentId, PaymentMethodId, PayoutId, PersonalDataId, ReceiptId, RefundId, WebhookId};
use crate::client::endpoint_url;
use crate::text::strip_leading;

verus! {

/// One call of the API, with the identifier it addresses where it addresses one.
#[derive(Debug, Clone, PartialEq)]
pub enum Operation {
    /// Create a payment.
    CreatePayment,
    /// List payments.
    ListPayments,
    /// Read a payment.
    GetPayment(PaymentId),
    /// Capture a payment that waits for capture.
    CapturePayment(PaymentId),
    /// Cancel a payment that waits for capture.
    CancelPayment(PaymentId),
    /// Create a refund.
    CreateRefund,
    /// List refunds.
    ListRefunds,
    /// Read a refund.
    GetRefund(RefundId),
    /// Save a payment method.
    CreatePaymentMethod,
    /// Read a saved payment method.
    GetPaymentMethod(PaymentMethodId),
    /// Open a safe deal.
    CreateDeal,
    /// List safe deals.
    ListDeals,
    /// Read a safe deal.
    GetDeal(DealId),
    /// Create an invoice.
    CreateInvoice,
    /// Read an invoice.
    GetInvoice(InvoiceId),
    /// Create a payout.
    CreatePayout,
    /// List payouts.
    ListPayouts,
    /// Search payouts by metadata.
    SearchPayouts,
    /// Read a payout.
    GetPayout(PayoutId),
    /// List the banks that take part in SBP.
    ListSbpBanks,
    /// Store personal data for payouts.
    CreatePersonalData,
    /// Read stored personal data.
    GetPersonalData(PersonalDataId),
    /// Create a receipt.
    CreateReceipt,
    /// List receipts.
    ListReceipts,
    /// Read a receipt.
    GetReceipt(ReceiptId),
    /// Subscribe a URL to an event (OAuth only).
    CreateWebhook,
    /// List webhooks (OAuth only).
    ListWebhooks,
    /// Remove a webhook (OAuth only).
    DeleteWebhook(WebhookId),
    /// Read the account settings.
    GetMe,
}

impl Operation {
    /// The HTTP method of this operation.
    pub open spec fn spec_method(&self) -> RequestMethod {
        match self {
            Operation::CreatePayment => RequestMethod::Post,
            Operation::ListPayments => RequestMethod::Get,
            Operation::GetPayment(_) => RequestMethod::Get,
            Operation::CapturePayment(_) => RequestMethod::Post,
            Operation::CancelPayment(_) => RequestMethod::Post,
            Operation::CreateRefund => RequestMethod::Post,
            Operation::ListRefunds => RequestMethod::Get,
            Operation::GetRefund(_) => RequestMethod::Get,
            Operation::CreatePaymentMethod => RequestMethod::Post,
            Operation::GetPaymentMethod(_) => RequestMethod::Get,
            Operation::CreateDeal => RequestMethod::Post,
            Operation::ListDeals => RequestMethod::Get,
            Operation::GetDeal(_) => RequestMethod::Get,
            Operation::CreateInvoice => RequestMethod::Post,
            Operation::GetInvoice(_) => RequestMethod::Get,
            Operation::CreatePayout => RequestMethod::Post,
            Operation::ListPayouts => RequestMethod::Get,
            Operation::SearchPayouts => RequestMethod::Get,
            Operation::GetPayout(_) => RequestMethod::Get,
            Operation::ListSbpBanks => RequestMethod::Get,
            Operation::CreatePersonalData => RequestMethod::Post,
            Operation::GetPersonalData(_) => RequestMethod::Get,
            Operation::CreateReceipt => RequestMethod::Post,
            Operation::ListReceipts => RequestMethod::Get,
            Operation::GetReceipt(_) => RequestMethod::Get,
            Operation::CreateWebhook => RequestMethod::Post,
            Operation::ListWebhooks => RequestMethod::Get,
            Operation::DeleteWebhook(_) => RequestMethod::Delete,
            Operation::GetMe => RequestMethod::Get,
        }
    }

    /// The path of this operation below the base URL.
    pub open spec fn spec_path(&self) -> Seq<char> {
        match self {
            Operation::CreatePayment => "payments"@,
            Operation::ListPayments => "payments"@,
            Operation::GetPayment(id) => "payments/"@ + id.0@,
            Operation::CapturePayment(id) => "payments/"@ + id.0@ + "/capture"@,
            Operation::CancelPayment(id) => "payments/"@ + id.0@ + "/cancel"@,
            Operation::CreateRefund => "refunds"@,
            Operation::ListRefunds => "refunds"@,
            Operation::GetRefund(id) => "refunds/"@ + id.0@,
            Operation::CreatePaymentMethod => "payment_methods"@,
            Operation::GetPaymentMethod(id) => "payment_methods/"@ + id.0@,
            Operation::CreateDeal => "deals"@,
            Operation::ListDeals => "deals"@,
            Operation::GetDeal(id) => "deals/"@ + id.0@,
            Operation::CreateInvoice => "invoices"@,
            Operation::GetInvoice(id) => "invoices/"@ + id.0@,
            Operation::CreatePayout => "payouts"@,
            Operation::ListPayouts => "payouts"@,
            Operation::SearchPayouts => "payouts/search"@,
            Operation::GetPayout(id) => "payouts/"@ + id.0@,
            Operation::ListSbpBanks => "sbp_banks"@,
            Operation::CreatePersonalData => "personal_data"@,
            Operation::GetPersonalData(id) => "personal_data/"@ + id.0@,
            Operation::CreateReceipt => "receipts"@,
            Operation::ListReceipts => "receipts"@,
            Operation::GetReceipt(id) => "receipts/"@ + id.0@,
            Operation::CreateWebhook => "webhooks"@,
            Operation::ListWebhooks => "webhooks"@,
            Operation::DeleteWebhook(id) => "webhooks/"@ + id.0@,
            Operation::GetMe => "me"@,
        }
    }

    /// Whether this operation needs OAuth credentials: the webhook operations do.
    pub open spec fn spec_requires_oauth(&self) -> bool {
        self is CreateWebhook || self is ListWebhooks || self is DeleteWebhook
    }

    /// The HTTP method of this operation.
    pub fn method(&self) -> (m: RequestMethod)
        ensures
            m == self.spec_method(),
    {
        match self {
            Operation::CreatePayment => RequestMethod::Post,
            Operation::ListPayments => RequestMethod::Get,
            Operation::GetPayment(_) => RequestMethod::Get,
            Operation::CapturePayment(_) => RequestMethod::Post,
            Operation::CancelPayment(_) => RequestMethod::Post,
            Operation::CreateRefund => RequestMethod::Post,
            Operation::ListRefunds => RequestMethod::Get,
            Operation::GetRefund(_) => RequestMethod::Get,
            Operation::CreatePaymentMethod => RequestMethod::Post,
            Operation::GetPaymentMethod(_) => RequestMethod::Get,
            Operation::CreateDeal => RequestMethod::Post,
            Operation::ListDeals => RequestMethod::Get,
            Operation::GetDeal(_) => RequestMethod::Get,
            Operation::CreateInvoice => RequestMethod::Post,
            Operation::GetInvoice(_) => RequestMethod::Get,
            Operation::CreatePayout => RequestMethod::Post,
            Operation::ListPayouts => RequestMethod::Get,
            Operation::SearchPayouts => RequestMethod::Get,
            Operation::GetPayout(_) => RequestMethod::Get,
            Operation::ListSbpBanks => RequestMethod::Get,
            Operation::CreatePersonalData => RequestMethod::Post,
            Operation::GetPersonalData(_) => RequestMethod::Get,
            Operation::CreateReceipt => RequestMethod::Post,
            Operation::ListReceipts => RequestMethod::Get,
            Operation::GetReceipt(_) => RequestMethod::Get,
            Operation::CreateWebhook => RequestMethod::Post,
            Operation::ListWebhooks => RequestMethod::Get,
            Operation::DeleteWebhook(_) => RequestMethod::Delete,
            Operation::GetMe => RequestMethod::Get,
        }
    }

    /// The path of this operation below the base URL.
    pub fn path(&self) -> (p: String)
        ensures
            p@ == self.spec_path(),
    {
        match self {
            Operation::CreatePayment => String::from_str("payments"),
            Operation::ListPayments => String::from_str("payments"),
            Operation::GetPayment(id) => resource_path("payments/", &id.0),
            Operation::CapturePayment(id) => resource_action_path("payments/", &id.0, "/capture"),
            Operation::CancelPayment(id) => resource_action_path("payments/", &id.0, "/cancel"),
            Operation::CreateRefund => String::from_str("refunds"),
            Operation::ListRefunds => String::from_str("refunds"),
            Operation::GetRefund(id) => resource_path("refunds/", &id.0),
            Operation::CreatePaymentMethod => String::from_str("payment_methods"),
            Operation::GetPaymentMethod(id) => resource_path("payment_methods/", &id.0),
            Operation::CreateDeal => String::from_str("deals"),
            Operation::ListDeals => String::from_str("deals"),
            Operation::GetDeal(id) => resource_path("deals/", &id.0),
            Operation::CreateInvoice => String::from_str("invoices"),
            Operation::GetInvoice(id) => resource_path("invoices/", &id.0),
            Operation::CreatePayout => String::from_str("payouts"),
            Operation::ListPayouts => String::from_str("payouts"),
            Operation::SearchPayouts => String::from_str("payouts/search"),
            Operation::GetPayout(id) => resource_path("payouts/", &id.0),
            Operation::ListSbpBanks => String::from_str("sbp_banks"),
            Operation::CreatePersonalData => String::from_str("personal_data"),
            Operation::GetPersonalData(id) => resource_path("personal_data/", &id.0),
            Operation::CreateReceipt => String::from_str("receipts"),
            Operation::ListReceipts => String::from_str("receipts"),
            Operation::GetReceipt(id) => resource_path("receipts/", &id.0),
            Operation::CreateWebhook => String::from_str("webhooks"),
            Operation::ListWebhooks => String::from_str("webhooks"),
            Operation::DeleteWebhook(id) => resource_path("webhooks/", &id.0),
            Operation::GetMe => String::from_str("me"),
        }
    }

    /// Whether this operation needs OAuth credentials.
    pub fn requires_oauth(&self) -> (b: bool)
        ensures
            b == self.spec_requires_oauth(),
    {
        match self {
            Operation::CreateWebhook | Operation::ListWebhooks | Operation::DeleteWebhook(_) => true,
            _ => false,
        }
    }
}

/// `prefix` followed by `id`.
fn resource_path(prefix: &str, id: &String) -> (p: String)
    ensures
        p@ == prefix@ + id@,
{
    let mut p = String::from_str(prefix);
    p.append(id.as_str());
    p
}

/// `prefix`, then `id`, then `suffix`.
fn resource_action_path(prefix: &str, id: &String, suffix: &str) -> (p: String)
    ensures
        p@ == prefix@ + id@ + suffix@,
{
    let mut p = resource_path(prefix, id);
    p.append(suffix);
    p
}

/// No operation's path starts with `/`, and none is empty: the URL of an
/// operation is the base URL, one `/`, and the path as it stands.
pub proof fn lemma_operation_paths_are_relative(op: Operation)
    ensures
        op.spec_path().len() > 0,
        op.spec_path()[0] != '/',
        strip_leading(op.spec_path(), '/') == op.spec_path(),
{
    reveal_strlit("deals");
    reveal_strlit("deals/");
    reveal_strlit("invoices");
    reveal_strlit("invoices/");
    reveal_strlit("me");
    reveal_strlit("payment_methods");
    reveal_strlit("payment_methods/");
    reveal_strlit("payments");
    reveal_strlit("payments/");
    reveal_strlit("payouts");
    reveal_strlit("payouts/");
    reveal_strlit("payouts/search");
    reveal_strlit("personal_data");
    reveal_strlit("personal_data/");
    reveal_strlit("receipts");
    reveal_strlit("receipts/");
    reveal_strlit("refunds");
    reveal_strlit("refunds/");
    reveal_strlit("sbp_banks");
    reveal_strlit("webhooks");
    reveal_strlit("webhooks/");
    match op {
        Operation::CreatePayment => {},
        Operation::ListPayments => {},
        Operation::GetPayment(id) => {
            assert(("payments/"@ + id.0@)[0] == "payments/"@[0]);
        },
        Operation::CapturePayment(id) => {
            assert(("payments/"@ + id.0@ + "/capture"@)[0] == "payments/"@[0]);
        },
        Operation::CancelPayment(id) => {
            assert(("payments/"@ + id.0@ + "/cancel"@)[0] == "payments/"@[0]);
        },
        Operation::CreateRefund => {},
        Operation::ListRefunds => {},
        Operation::GetRefund(id) => {
            assert(("refunds/"@ + id.0@)[0] == "refunds/"@[0]);
        },
        Operation::CreatePaymentMethod => {},
        Operation::GetPaymentMethod(id) => {
            assert(("payment_methods/"@ + id.0@)[0] == "payment_methods/"@[0]);
        },
        Operation::CreateDeal => {},
        Operation::ListDeals => {},
        Operation::GetDeal(id) => {
            assert(("deals/"@ + id.0@)[0] == "deals/"@[0]);
        },
        Operation::CreateInvoice => {},
        Operation::GetInvoice(id) => {
            assert(("invoices/"@ + id.0@)[0] == "invoices/"@[0]);
        },
        Operation::CreatePayout => {},
        Operation::ListPayouts => {},
        Operation::SearchPayouts => {},
        Operation::GetPayout(id) => {
            assert(("payouts/"@ + id.0@)[0] == "payouts/"@[0]);
        },
        Operation::ListSbpBanks => {},
        Operation::CreatePersonalData => {},
        Operation::GetPersonalData(id) => {
            assert(("personal_data/"@ + id.0@)[0] == "personal_data/"@[0]);
        },
        Operation::CreateReceipt => {},
        Operation::ListReceipts => {},
        Operation::GetReceipt(id) => {
            assert(("receipts/"@ + id.0@)[0] == "receipts/"@[0]);
        },
        Operation::CreateWebhook => {},
        Operation::ListWebhooks => {},
        Operation::DeleteWebhook(id) => {
            assert(("webhooks/"@ + id.0@)[0] == "webhooks/"@[0]);
        },
        Operation::GetMe => {},
    }
}

/// The collection paths of the API: payments under `payments`, refunds under
/// `refunds`, saved payment methods under `payment_methods`, deals under
/// `deals`, invoices under `invoices`, payouts under `payouts`, SBP banks at
/// `sbp_banks`, personal data under `personal_data`, receipts under
/// `receipts`, webhooks under `webhooks`, and the account settings at `me`.
pub proof fn lemma_collection_paths()
    ensures
        Operation::ListPayments.spec_path() == "payments"@,
        Operation::ListRefunds.spec_path() == "refunds"@,
        Operation::CreatePaymentMethod.spec_path() == "payment_methods"@,
        Operation::ListDeals.spec_path() == "deals"@,
        Operation::CreateInvoice.spec_path() == "invoices"@,
        Operation::ListPayouts.spec_path() == "payouts"@,
        Operation::CreatePersonalData.spec_path() == "personal_data"@,
        Operation::ListReceipts.spec_path() == "receipts"@,
        Operation::ListWebhooks.spec_path() == "webhooks"@,
        Operation::ListSbpBanks.spec_path() == "sbp_banks"@,
        Operation::GetMe.spec_path() == "me"@,
{
}

/// Every item lives under its collection: creating and listing use the
/// collection path itself; reading (or deleting) one item is the collection
/// path, `/` and the item's id; capturing and cancelling a payment add
/// `/capture` and `/cancel` to that payment's path; searching payouts adds
/// `/search` to the payouts path.
pub proof fn lemma_items_live_under_their_collection(
    payment: PaymentId,
    refund: RefundId,
    payment_method: PaymentMethodId,
    deal: DealId,
    invoice: InvoiceId,
    payout: PayoutId,
    personal_data: PersonalDataId,
    receipt: ReceiptId,
    webhook: WebhookId,
)
    ensures
        Operation::CreatePayment.spec_path() == Operation::ListPayments.spec_path(),
        Operation::GetPayment(payment).spec_path() == Operation::ListPayments.spec_path() + seq![
            '/',
        ] + payment.0@,
        Operation::CapturePayment(payment).spec_path() == Operation::GetPayment(payment).spec_path()
            + seq!['/', 'c', 'a', 'p', 't', 'u', 'r', 'e'],
        Operation::CancelPayment(payment).spec_path() == Operation::GetPayment(payment).spec_path()
            + seq!['/', 'c', 'a', 'n', 'c', 'e', 'l'],
        Operation::CreateRefund.spec_path() == Operation::ListRefunds.spec_path(),
        Operation::GetRefund(refund).spec_path() == Operation::ListRefunds.spec_path() + seq!['/']
            + refund.0@,
        Operation::GetPaymentMethod(payment_method).spec_path()
            == Operation::CreatePaymentMethod.spec_path() + seq!['/'] + payment_method.0@,
        Operation::CreateDeal.spec_path() == Operation::ListDeals.spec_path(),
        Operation::GetDeal(deal).spec_path() == Operation::ListDeals.spec_path() + seq!['/']
            + deal.0@,
        Operation::GetInvoice(invoice).spec_path() == Operation::CreateInvoice.spec_path()
            + seq!['/'] + invoice.0@,
        Operation::CreatePayout.spec_path() == Operation::ListPayouts.spec_path(),
        Operation::GetPayout(payout).spec_path() == Operation::ListPayouts.spec_path() + seq!['/']
            + payout.0@,
        Operation::SearchPayouts.spec_path() == Operation::ListPayouts.spec_path() + seq![
            '/',
            's',
            'e',
            'a',
            'r',
            'c',
            'h',
        ],
        Operation::GetPersonalData(personal_data).spec_path()
            == Operation::CreatePersonalData.spec_path() + seq!['/'] + personal_data.0@,
        Operation::CreateReceipt.spec_path() == Operation::ListReceipts.spec_path(),
        Operation::GetReceipt(receipt).spec_path() == Operation::ListReceipts.spec_path() + seq![
            '/',
        ] + receipt.0@,
        Operation::CreateWebhook.spec_path() == Operation::ListWebhooks.spec_path(),
        Operation::DeleteWebhook(webhook).spec_path() == Operation::ListWebhooks.spec_path()
            + seq!['/'] + webhook.0@,
{
    reveal_strlit("payments");
    reveal_strlit("payments/");
    reveal_strlit("/capture");
    reveal_strlit("/cancel");
    reveal_strlit("refunds");
    reveal_strlit("refunds/");
    reveal_strlit("payment_methods");
    reveal_strlit("payment_methods/");
    reveal_strlit("deals");
    reveal_strlit("deals/");
    reveal_strlit("invoices");
    reveal_strlit("invoices/");
    reveal_strlit("payouts");
    reveal_strlit("payouts/");
    reveal_strlit("payouts/search");
    reveal_strlit("personal_data");
    reveal_strlit("personal_data/");
    reveal_strlit("receipts");
    reveal_strlit("receipts/");
    reveal_strlit("webhooks");
    reveal_strlit("webhooks/");
    assert("payments/"@ =~= "payments"@ + seq!['/']);
    assert("/capture"@ =~= seq!['/', 'c', 'a', 'p', 't', 'u', 'r', 'e']);
    assert("/cancel"@ =~= seq!['/', 'c', 'a', 'n', 'c', 'e', 'l']);
    assert("refunds/"@ =~= "refunds"@ + seq!['/']);
    assert("payment_methods/"@ =~= "payment_methods"@ + seq!['/']);
    assert("deals/"@ =~= "deals"@ + seq!['/']);
    assert("invoices/"@ =~= "invoices"@ + seq!['/']);
    assert("payouts/"@ =~= "payouts"@ + seq!['/']);
    assert("payouts/search"@ =~= "payouts"@ + seq!['/', 's', 'e', 'a', 'r', 'c', 'h']);
    assert("personal_data/"@ =~= "personal_data"@ + seq!['/']);
    assert("receipts/"@ =~= "receipts"@ + seq!['/']);
    assert("webhooks/"@ =~= "webhooks"@ + seq!['/']);
}

/// The URL of an item is the base URL, `/`, its collection, `/` and its id;
/// for instance, reading refund `id` under `base` goes to
/// `base/refunds/id`, and reading payment `id` to `base/payments/id`.
pub proof fn lemma_item_urls(base: Seq<char>, payment: PaymentId, refund: RefundId)
    ensures
        endpoint_url(base, Operation::GetRefund(refund).spec_path()) == base + "/refunds/"@
            + refund.0@,
        endpoint_url(base, Operation::GetPayment(payment).spec_path()) == base + "/payments/"@
            + payment.0@,
{
    reveal_strlit("refunds/");
    reveal_strlit("/refunds/");
    reveal_strlit("payments/");
    reveal_strlit("/payments/");
    crate::client::lemma_operation_url(base, Operation::GetRefund(refund));
    crate::client::lemma_operation_url(base, Operation::GetPayment(payment));
    assert(base + seq!['/'] + ("refunds/"@ + refund.0@) =~= base + "/refunds/"@ + refund.0@);
    assert(base + seq!['/'] + ("payments/"@ + payment.0@) =~= base + "/payments/"@ + payment.0@);
}

/// Operations that create or change something are `POST` (creating any
/// resource, capturing and cancelling a payment) or `DELETE` (removing a
/// webhook), and so carry an idempotence key; reading, listing and searching
/// are `GET` and carry none.
pub proof fn lemma_operation_methods(
    payment: PaymentId,
    refund: RefundId,
    payment_method: PaymentMethodId,
    deal: DealId,
    invoice: InvoiceId,
    payout: PayoutId,
    personal_data: PersonalDataId,
    receipt: ReceiptId,
    webhook: WebhookId,
)
    ensures
        Operation::CreatePayment.spec_method() == RequestMethod::Post,
        Operation::CapturePayment(payment).spec_method() == RequestMethod::Post,
        Operation::CancelPayment(payment).spec_method() == RequestMethod::Post,
        Operation::CreateRefund.spec_method() == RequestMethod::Post,
        Operation::CreatePaymentMethod.spec_method() == RequestMethod::Post,
        Operation::CreateDeal.spec_method() == RequestMethod::Post,
        Operation::CreateInvoice.spec_method() == RequestMethod::Post,
        Operation::CreatePayout.spec_method() == RequestMethod::Post,
        Operation::CreatePersonalData.spec_method() == RequestMethod::Post,
        Operation::CreateReceipt.spec_method() == RequestMethod::Post,
        Operation::CreateWebhook.spec_method() == RequestMethod::Post,
        Operation::DeleteWebhook(webhook).spec_method() == RequestMethod::Delete,
        Operation::ListPayments.spec_method() == RequestMethod::Get,
        Operation::GetPayment(payment).spec_method() == RequestMethod::Get,
        Operation::ListRefunds.spec_method() == RequestMethod::Get,
        Operation::GetRefund(refund).spec_method() == RequestMethod::Get,
        Operation::GetPaymentMethod(payment_method).spec_method() == RequestMethod::Get,
        Operation::ListDeals.spec_method() == RequestMethod::Get,
        Operation::GetDeal(deal).spec_method() == RequestMethod::Get,
        Operation::GetInvoice(invoice).spec_method() == RequestMethod::Get,
        Operation::ListPayouts.spec_method() == RequestMethod::Get,
        Operation::SearchPayouts.spec_method() == RequestMethod::Get,
        Operation::GetPayout(payout).spec_method() == RequestMethod::Get,
        Operation::ListSbpBanks.spec_method() == RequestMethod::Get,
        Operation::GetPersonalData(personal_data).spec_method() == RequestMethod::Get,
        Operation::ListReceipts.spec_method() == RequestMethod::Get,
        Operation::GetReceipt(receipt).spec_method() == RequestMethod::Get,
        Operation::ListWebhooks.spec_method() == RequestMethod::Get,
        Operation::GetMe.spec_method() == RequestMethod::Get,
{
}

/// An operation carries an idempotence key exactly when it is not a `GET`:
/// every create, capture, cancel and delete carries one; every read, list and
/// search carries none. The operations sharing a collection path are told
/// apart by method: creating is never the same method as listing.
pub proof fn lemma_writes_carry_keys(op: Operation)
    ensures
        op.spec_method().carries_idempotence_key() <==> op.spec_method() != RequestMethod::Get,
        Operation::CreatePayment.spec_method() != Operation::ListPayments.spec_method(),
        Operation::CreateRefund.spec_method() != Operation::ListRefunds.spec_method(),
        Operation::CreateDeal.spec_method() != Operation::ListDeals.spec_method(),
        Operation::CreatePayout.spec_method() != Operation::ListPayouts.spec_method(),
        Operation::CreateReceipt.spec_method() != Operation::ListReceipts.spec_method(),
        Operation::CreateWebhook.spec_method() != Operation::ListWebhooks.spec_method(),
{
}

/// Only webhooks need OAuth: an operation needs OAuth credentials exactly when
/// its path lies under `webhooks`, which holds of creating, listing and
/// deleting webhooks and of nothing else. Every other operation, payouts, SBP
/// banks and personal data among them, works with Basic credentials.
pub proof fn lemma_only_webhooks_need_oauth(op: Operation)
    ensures
        op.spec_requires_oauth() <==> "webhooks"@.is_prefix_of(op.spec_path()),
        op.spec_requires_oauth() <==> (op is CreateWebhook || op is ListWebhooks
            || op is DeleteWebhook),
{
    reveal_strlit("deals");
    reveal_strlit("deals/");
    reveal_strlit("invoices");
    reveal_strlit("invoices/");
    reveal_strlit("me");
    reveal_strlit("payment_methods");
    reveal_strlit("payment_methods/");
    reveal_strlit("payments");
    reveal_strlit("payments/");
    reveal_strlit("payouts");
    reveal_strlit("payouts/");
    reveal_strlit("payouts/search");
    reveal_strlit("personal_data");
    reveal_strlit("personal_data/");
    reveal_strlit("receipts");
    reveal_strlit("receipts/");
    reveal_strlit("refunds");
    reveal_strlit("refunds/");
    reveal_strlit("sbp_banks");
    reveal_strlit("webhooks");
    reveal_strlit("webhooks/");
    lemma_operation_paths_are_relative(op);
    let w = "webhooks"@;
    let p = op.spec_path();
    if op is CreateWebhook || op is ListWebhooks {
        assert(w.is_prefix_of(p));
    } else if let Operation::DeleteWebhook(id) = op {
        assert(p =~= "webhooks/"@ + id.0@);
        assert(w.is_prefix_of(p)) by {
            assert forall|i: int| 0 <= i < w.len() implies w[i] == p[i] by {
                assert(p[i] == "webhooks/"@[i]);
            }
        }
    } else {
        if w.is_prefix_of(p) {
            assert(w[0] == p[0]);
            if p.len() > 1 {
                assert(w[1] == p[1]);
            }
        }
    }
}

} // verus!
