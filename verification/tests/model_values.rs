use rust_decimal::Decimal;
use yookasa_sdk::model::{
    CurrencyCode, MonetaryAmount, PaymentId, PaymentMethod, PaymentMethodCommon,
    PaymentMethodId, PaymentMethodStatus, PaymentMethodTypeCode, Timestamp, WebhookId,
};
use yookasa_sdk::operation::Operation;
use yookasa_sdk::client::RequestMethod;
use yookasa_sdk::Auth;

fn common() -> PaymentMethodCommon {
    PaymentMethodCommon {
        id: PaymentMethodId::from("pm-1"),
        saved: false,
        status: PaymentMethodStatus::Active,
        title: None,
    }
}

#[test]
fn monetary_amount_new_keeps_value_and_currency() {
    let amount = MonetaryAmount::new(Decimal::new(12345, 2), CurrencyCode::Rub);
    assert_eq!(amount.value.to_string(), "123.45");
    assert_eq!(amount.currency, CurrencyCode::Rub);
}

#[test]
fn payment_method_kind_names_the_variant() {
    assert_eq!(PaymentMethod::BankCard { common: common(), card: None }.kind(), PaymentMethodTypeCode::BankCard);
    assert_eq!(PaymentMethod::Cash { common: common() }.kind(), PaymentMethodTypeCode::Cash);
    assert_eq!(PaymentMethod::Sbp { common: common(), sbp_operation_id: None, payer_bank_details: None }.kind(), PaymentMethodTypeCode::Sbp);
    assert_eq!(
        PaymentMethod::SberLoan { common: common(), loan_option: None, discount_amount: None, suspended_until: None }.kind(),
        PaymentMethodTypeCode::SberLoan
    );
    assert_eq!(PaymentMethod::SberBnpl { common: common() }.kind(), PaymentMethodTypeCode::SberBnpl);
    assert_eq!(PaymentMethod::YooMoney { common: common(), account_number: None }.kind(), PaymentMethodTypeCode::YooMoney);
}

#[test]
fn identifiers_convert_from_strings() {
    let a = PaymentId::from("pay-1");
    let b = PaymentId::from("pay-1".to_string());
    assert_eq!(a, b);
    assert_eq!(a.as_ref(), "pay-1");
    assert_eq!(WebhookId::from("w").0, "w");
}

#[test]
fn timestamps_in_chrono_range() {
    let t = Timestamp::from_unix(1_777_111_200, 5).expect("in range");
    assert_eq!(t.unix_seconds(), 1_777_111_200);
    assert_eq!(t.subsec_nanos(), 5);
    assert!(Timestamp::from_unix(i64::MAX, 0).is_none());
    assert!(Timestamp::from_unix(0, 2_000_000_000).is_none());
}

#[test]
fn auth_constructors() {
    assert!(Auth::oauth("t").is_oauth());
    assert!(!Auth::basic("s", "k").is_oauth());
    assert_eq!(Auth::basic("s", "k"), Auth::Basic { shop_id: "s".to_string(), secret_key: "k".to_string() });
    assert_eq!(Auth::oauth("t").clone(), Auth::OAuth { token: "t".to_string() });
}

#[test]
fn operation_routes() {
    let id = PaymentId::from("p");
    assert_eq!(Operation::CapturePayment(id.clone()).path(), "payments/p/capture");
    assert_eq!(Operation::CapturePayment(id.clone()).method(), RequestMethod::Post);
    assert_eq!(Operation::GetPayment(id).path(), "payments/p");
    assert_eq!(Operation::SearchPayouts.path(), "payouts/search");
    assert_eq!(Operation::SearchPayouts.method(), RequestMethod::Get);
    assert_eq!(Operation::GetMe.path(), "me");
    assert_eq!(Operation::ListSbpBanks.path(), "sbp_banks");
    assert_eq!(Operation::DeleteWebhook(WebhookId::from("w")).method(), RequestMethod::Delete);
    assert!(Operation::ListWebhooks.requires_oauth());
    assert!(!Operation::GetMe.requires_oauth());
    assert!(RequestMethod::Delete.needs_idempotence_key());
    assert!(!RequestMethod::Get.needs_idempotence_key());
}
