use json_order_service::error::AppError;
use json_order_service::auth::invalid_token;
use json_order_service::handlers::order::{direct_cancel_calls, direct_checkout_calls};
use json_order_service::infrastructure::worker::processed_mark;
use json_order_service::models::cancelled_by::CancelledBy;
use json_order_service::models::checkout_request::CheckoutRequest;
use json_order_service::models::order::{CreateOrderRequest, Order};
use json_order_service::models::order_state::OrderStatus;
use json_order_service::models::role::Role;
use json_order_service::models::shipping_address::ShippingAddress;
use json_order_service::orchestrator::cancel::{
    cancel_context, cancel_saga, expiry_cancellation, release_target_of, CancelSagaStep,
};
use json_order_service::orchestrator::confirm::{confirm_saga, ConfirmSagaStep};
use json_order_service::orchestrator::payment::{payment_saga, PaymentSagaStep};
use json_order_service::orchestrator::checkout::{
    checkout_saga, direct_product_snapshot, json_uuid_field, CheckoutSagaStep,
};
use json_order_service::orchestrator::steps::StockRequest;

const ORDER: &str = "11111111-2222-3333-4444-555555555555";
const PRODUCT: &str = "aaaaaaaa-bbbb-cccc-dddd-eeeeeeeeeeee";

fn id(s: &str) -> u128 {
    uuid::Uuid::parse_str(s).unwrap().as_u128()
}

fn order(status: OrderStatus, snapshot: &str) -> Order {
    Order {
        order_id: id(ORDER),
        titipers_id: 1,
        jastiper_id: 2,
        product_id: 7,
        product_snapshot: snapshot.into(),
        quantity: 3,
        unit_price: 100,
        service_fee: 10,
        total_price: 330,
        status,
        shipping_address: "{}".into(),
        note_to_jastiper: None,
        tracking_number: None,
        courier: None,
        cancellation_reason: None,
        cancelled_by: None,
        completed_at: None,
        created_at: 0,
        updated_at: 0,
    }
}

#[test]
fn names_parse_through_from_str() {
    assert_eq!("JASTIPER".parse::<Role>(), Ok(Role::Jastiper));
    assert!("boss".parse::<Role>().is_err());
    assert_eq!("ADMIN".parse::<CancelledBy>(), Ok(CancelledBy::Admin));
    assert_eq!("SHIPPED".parse::<OrderStatus>(), Ok(OrderStatus::Shipped));
    assert!("shipped".parse::<OrderStatus>().is_err());
}

#[test]
fn direct_checkout_call_arguments() {
    let c = direct_checkout_calls(1, id(ORDER), 7, 3, 330);
    assert_eq!(c.stock, StockRequest { product_id: 7, order_id: id(ORDER), quantity: 3 });
    assert_eq!((c.deduct.user_id, c.deduct.order_id, c.deduct.amount), (1, id(ORDER), 330));
    assert_eq!(c.deduct.description, format!("Pembayaran Order #{ORDER}"));
    assert_eq!((c.refund.user_id, c.refund.order_id, c.refund.amount), (1, id(ORDER), 330));
    assert_eq!(c.refund.description, format!("Refund Order #{ORDER} - gagal menyimpan pesanan"));
}

fn checkout_request() -> CheckoutRequest {
    CheckoutRequest {
        order_id: 5,
        titipers_id: 1,
        jastiper_id: 2,
        req: CreateOrderRequest {
            product_id: 7,
            quantity: 1,
            shipping_address: ShippingAddress {
                recipient_name: "Ani".into(),
                phone_number: "0812".into(),
                street: "Jl".into(),
                kelurahan: "K".into(),
                kecamatan: "K".into(),
                city: "C".into(),
                province: "P".into(),
                postal_code: "12345".into(),
                notes: None,
            },
            note_to_jastiper: None,
        },
        product: "{}".into(),
        idempotency_key: 44,
    }
}

#[test]
fn marked_processed_only_after_success() {
    let r = checkout_request();
    assert_eq!(processed_mark(&r, &Ok(())), Some((44, 5)));
    assert_eq!(processed_mark(&r, &Err(AppError::Internal)), None);
}

#[test]
fn checkout_saga_runs_wallet_stock_then_pending() {
    let saga = checkout_saga(1u8, 2u8, 3u8);
    assert_eq!(saga.saga_name(), "checkout_worker");
    let steps = saga.steps();
    assert_eq!(steps.len(), 3);
    assert!(matches!(&steps[0], CheckoutSagaStep::CheckWallet(s) if s.wallet_client == 1));
    assert!(matches!(&steps[1], CheckoutSagaStep::ReserveStock(s) if s.inventory_client == 2));
    assert!(matches!(&steps[2], CheckoutSagaStep::UpdateStatusToPending(s) if s.order_repo == 3));
}

#[test]
fn uuid_fields_of_json() {
    let json = format!("{{\"product_id\":\"{PRODUCT}\",\"n\":5}}");
    assert_eq!(json_uuid_field(&json, "product_id"), Some(id(PRODUCT)));
    assert_eq!(json_uuid_field(&json, "n"), None);
    assert_eq!(json_uuid_field(&json, "missing"), None);
    assert_eq!(json_uuid_field("not json", "product_id"), None);
    assert_eq!(json_uuid_field("{\"product_id\":\"x\"}", "product_id"), None);
}

#[test]
fn cancellation_targets_the_snapshot_product() {
    let snap = format!("{{\"product_id\":\"{PRODUCT}\"}}");
    assert_eq!(release_target_of(&order(OrderStatus::Paid, &snap)), id(PRODUCT));
    assert_eq!(release_target_of(&order(OrderStatus::Paid, "{}")), 7);
    let c = cancel_context(&order(OrderStatus::Paid, &snap), 2, Role::Jastiper, "habis".into());
    assert_eq!(c.order_id, id(ORDER));
    assert_eq!(c.requester_id, 2);
    assert_eq!(c.role, Role::Jastiper);
    assert_eq!(c.product_id, id(PRODUCT));
    assert_eq!(c.titipers_id, 1);
    assert_eq!(c.status, OrderStatus::Paid);
    assert_eq!((c.quantity, c.total_price), (3, 330));
    assert_eq!(c.cancellation_reason, "habis");
    assert!(!c.status_set_to_refunding && !c.stock_released && c.refunding_order.is_none());
}

#[test]
fn expired_pending_orders_are_cancelled_by_the_system() {
    let (status, p, release) = expiry_cancellation(&order(OrderStatus::Pending, "{}")).unwrap();
    assert_eq!(status, OrderStatus::Cancelled);
    assert_eq!(p.changed_by, "system");
    assert_eq!(*p.actor_role, Role::System);
    assert_eq!(p.cancellation_reason, Some("Timeout 15 menit, auto-cancel"));
    assert_eq!(release, StockRequest { product_id: 7, order_id: id(ORDER), quantity: 3 });
    for s in [OrderStatus::Reserving, OrderStatus::Paid, OrderStatus::Cancelled, OrderStatus::Completed] {
        assert!(expiry_cancellation(&order(s, "{}")).is_none());
    }
}

#[test]
fn payment_confirm_and_cancel_sagas_in_order() {
    let p = payment_saga(1u8, 2u8);
    assert_eq!(p.saga_name(), "payment");
    let st = p.steps();
    assert_eq!(st.len(), 2);
    assert!(matches!(&st[0], PaymentSagaStep::DeductWallet(s) if s.wallet_client == 1));
    assert!(matches!(&st[1], PaymentSagaStep::UpdateStatusToPaid(s) if s.order_repo == 2));

    let c = confirm_saga(1u8, 2u8, 3u8);
    assert_eq!(c.saga_name(), "confirm_order");
    let st = c.steps();
    assert_eq!(st.len(), 3);
    assert!(matches!(&st[0], ConfirmSagaStep::UpdateStatusToCompleted(s) if s.order_repo == 1));
    assert!(matches!(&st[1], ConfirmSagaStep::TransferEarnings(s) if s.wallet_client == 2));
    assert!(matches!(&st[2], ConfirmSagaStep::SendConfirmationProduct(s) if s.inventory_client == 3));

    let k = cancel_saga(1u8, 2u8, 3u8);
    assert_eq!(k.saga_name(), "cancel_order");
    let st = k.steps();
    assert_eq!(st.len(), 3);
    assert!(matches!(&st[0], CancelSagaStep::UpdateStatusToRefunding(s) if s.order_repo == 1));
    assert!(matches!(&st[1], CancelSagaStep::ReleaseStock(s) if s.inventory_client == 2));
    assert!(matches!(&st[2], CancelSagaStep::RefundWallet(s) if s.wallet_client == 3));
}

#[test]
fn direct_cancellation_releases_and_refunds() {
    let snap = format!("{{\"product_id\":\"{PRODUCT}\"}}");
    let c = direct_cancel_calls(&order(OrderStatus::Refunding, &snap));
    assert_eq!(c.release, StockRequest { product_id: id(PRODUCT), order_id: id(ORDER), quantity: 3 });
    assert_eq!((c.refund.user_id, c.refund.order_id, c.refund.amount), (1, id(ORDER), 330));
    assert_eq!(c.refund.description, format!("Refund Order #{ORDER} - pesanan dibatalkan"));
    let plain = direct_cancel_calls(&order(OrderStatus::Cancelled, "{}"));
    assert_eq!(plain.release.product_id, 7);
}

#[test]
fn direct_snapshot_is_what_serde_json_writes() {
    let product = r#"{"name":"Tas","description":"Kulit","images":["a.png"],"origin_country":"JP","purchase_date":"2024-01-02","originCountry":"X"}"#;
    let mut m = serde_json::Map::new();
    m.insert("product_id".into(), uuid::Uuid::from_u128(9).to_string().into());
    m.insert("name".into(), "Tas".into());
    m.insert("description".into(), "Kulit".into());
    m.insert("image_url".into(), "a.png".into());
    m.insert("origin_country".into(), "JP".into());
    m.insert("purchase_date".into(), "2024-01-02".into());
    m.insert("unit_price".into(), 100.into());
    m.insert("service_fee".into(), 5.into());
    assert_eq!(direct_product_snapshot(product, 9, 100, 5), serde_json::Value::Object(m).to_string());
}

#[test]
fn refused_tokens_quote_the_reason() {
    match invalid_token("ExpiredSignature") {
        AppError::Unauthorized(m) => assert_eq!(m, "Token tidak valid: ExpiredSignature"),
        other => panic!("unexpected {:?}", other),
    }
}
