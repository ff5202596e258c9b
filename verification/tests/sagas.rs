use json_order_service::error::AppError;
use json_order_service::models::order::CreateOrderRequest;
use json_order_service::models::order_state::OrderStatus;
use json_order_service::models::role::Role;
use json_order_service::models::shipping_address::ShippingAddress;
use json_order_service::orchestrator::cancel::{
    CancelOrderContext, RefundWalletStep, ReleaseStockStep, UpdateStatusToRefundingStep,
};
use json_order_service::orchestrator::checkout::{
    build_checkout_context, CheckWalletStep, ReserveStockStep, UpdateStatusToPendingStep,
};
use json_order_service::orchestrator::confirm::{
    ConfirmOrderContext, SendConfirmationProductStep, TransferEarningsStep,
    UpdateStatusToCompletedStep,
};
use json_order_service::orchestrator::payment::{
    DeductWalletStep, PaymentContext, UpdateStatusToPaidStep,
};

const ORDER: &str = "11111111-2222-3333-4444-555555555555";

fn id(s: &str) -> u128 {
    uuid::Uuid::parse_str(s).unwrap().as_u128()
}

fn request(quantity: i32) -> CreateOrderRequest {
    CreateOrderRequest {
        product_id: 9,
        quantity,
        shipping_address: ShippingAddress {
            recipient_name: "Ani".into(),
            phone_number: "0812".into(),
            street: "Jl".into(),
            kelurahan: "K".into(),
            kecamatan: "K".into(),
            city: "C".into(),
            province: "P".into(),
            postal_code: "12345".into(),
            notes: None,
        },
        note_to_jastiper: None,
    }
}

#[test]
fn checkout_context_reads_prices() {
    let product = r#"{"price": 100, "service_fee": 7, "name": "Tas", "images": ["a.png"]}"#;
    let ctx = build_checkout_context(id(ORDER), 1, 2, request(3), product.into()).unwrap();
    assert_eq!((ctx.unit_price, ctx.service_fee, ctx.total_price), (100, 7, 321));
    assert!(!ctx.stock_reserved);
    assert!(ctx.created_order.is_none());
    let snap: serde_json::Value = serde_json::from_str(&ctx.snapshot).unwrap();
    assert_eq!(snap["name"], "Tas");
    assert_eq!(snap["image_url"], "a.png");
    assert_eq!(snap["unit_price"], 100);

    let no_price = build_checkout_context(id(ORDER), 1, 2, request(2), "{}".into()).unwrap();
    assert_eq!(no_price.total_price, 0);

    let huge = format!("{{\"price\": {}}}", i64::MAX);
    assert!(build_checkout_context(id(ORDER), 1, 2, request(2), huge).is_none());
}

#[test]
fn checkout_steps() {
    let mut ctx = build_checkout_context(id(ORDER), 1, 2, request(3), "{\"price\":5}".into()).unwrap();
    let wallet = CheckWalletStep { wallet_client: () };
    assert_eq!(wallet.name(), "check_wallet");
    assert_eq!(wallet.wallet_check(&ctx), (1, 15));

    let stock = ReserveStockStep { inventory_client: () };
    assert!(stock.release(&ctx).is_none());
    let r = stock.reservation(&ctx);
    assert_eq!((r.product_id, r.order_id, r.quantity), (9, id(ORDER), 3));
    assert!(stock.record_reservation(&mut ctx, Err(AppError::Conflict("x".into()))).is_err());
    assert!(!ctx.stock_reserved);
    assert!(stock.record_reservation(&mut ctx, Ok(())).is_ok());
    assert_eq!(stock.release(&ctx), Some(r));
    assert!(stock.record_release(&mut ctx, Err(AppError::Internal)).is_err());
    assert!(ctx.stock_reserved);
    assert!(stock.record_release(&mut ctx, Ok(())).is_ok());
    assert!(!ctx.stock_reserved);

    let pending = UpdateStatusToPendingStep { order_repo: () };
    let u = pending.to_pending(&ctx);
    assert_eq!(u.status, OrderStatus::Pending);
    assert_eq!(u.changed_by, "system-worker");
    assert_eq!(u.actor_role, Role::System);
    let c = pending.to_cancelled(&ctx);
    assert_eq!(c.status, OrderStatus::Cancelled);
    assert_eq!(c.cancellation_reason.as_deref(), Some("Checkout gagal saat proses reservasi"));
    assert_eq!(c.params().cancellation_reason, Some("Checkout gagal saat proses reservasi"));
}

#[test]
fn payment_steps() {
    let mut ctx = PaymentContext {
        titipers_id: id(ORDER),
        order_id: id(ORDER),
        total_price: 500,
        wallet_transaction_id: None,
        updated_order: None,
    };
    let deduct = DeductWalletStep { wallet_client: () };
    let w = deduct.deduction(&ctx);
    assert_eq!(w.amount, 500);
    assert_eq!(w.description, format!("Pembayaran Order #{}", ORDER));
    assert!(deduct.record_deduction(&mut ctx, Ok("txn-1".into())).is_ok());
    assert_eq!(ctx.wallet_transaction_id.as_deref(), Some("txn-1"));
    let paid = UpdateStatusToPaidStep { order_repo: () };
    let u = paid.to_paid(&ctx);
    assert_eq!(u.status, OrderStatus::Paid);
    assert_eq!(u.changed_by, ORDER);
    assert_eq!(paid.back_to_pending(&ctx).status, OrderStatus::Pending);
}

fn cancel_ctx(status: OrderStatus, role: Role) -> CancelOrderContext {
    CancelOrderContext {
        order_id: id(ORDER),
        requester_id: id(ORDER),
        role,
        product_id: 9,
        titipers_id: 1,
        status,
        quantity: 2,
        total_price: 300,
        cancellation_reason: "berubah pikiran".into(),
        status_set_to_refunding: false,
        stock_released: false,
        refunding_order: None,
    }
}

#[test]
fn cancel_steps() {
    let step = UpdateStatusToRefundingStep { order_repo: () };
    let ctx = cancel_ctx(OrderStatus::Paid, Role::Jastiper);
    let u = step.to_refunding(&ctx, Some(OrderStatus::Paid)).unwrap();
    assert_eq!(u.status, OrderStatus::Refunding);
    assert_eq!(u.notes.as_deref(), Some("Order dibatalkan oleh JASTIPER"));
    assert_eq!(u.cancellation_reason.as_deref(), Some("berubah pikiran"));
    assert!(matches!(step.to_refunding(&ctx, None), Err(AppError::NotFound(m)) if m == "Pesanan tidak ditemukan"));
    assert!(matches!(step.to_refunding(&ctx, Some(OrderStatus::Shipped)), Err(AppError::Forbidden(_))));
    assert!(step.back_to_pending(&ctx).is_none());

    let mut ctx = cancel_ctx(OrderStatus::Pending, Role::Admin);
    let release = ReleaseStockStep { inventory_client: () };
    assert!(release.re_reserve(&ctx).is_none());
    assert!(release.record_release(&mut ctx, Ok(())).is_ok());
    assert_eq!(release.re_reserve(&ctx), Some(release.release(&ctx)));

    let refund = RefundWalletStep { wallet_client: () };
    assert!(refund.refund(&ctx).is_none());
    let paid = cancel_ctx(OrderStatus::Paid, Role::Admin);
    let w = refund.refund(&paid).unwrap();
    assert_eq!(w.amount, 300);
    assert_eq!(w.description, format!("Refund Order #{} — dibatalkan", ORDER));
}

#[test]
fn confirm_steps() {
    let mut ctx = ConfirmOrderContext {
        titipers_id: 1,
        jastiper_id: 2,
        order_id: id(ORDER),
        product_id: 9,
        total_price: 10,
        earnings_transaction_id: None,
        updated_order: None,
    };
    let done = UpdateStatusToCompletedStep { order_repo: () };
    assert_eq!(done.to_completed(&ctx).actor_role, Role::Titipers);
    assert_eq!(done.back_to_shipped(&ctx).status, OrderStatus::Shipped);
    let earn = TransferEarningsStep { wallet_client: () };
    assert_eq!(earn.earnings(&ctx).description, format!("Pendapatan Order #{}", ORDER));
    assert!(earn.reversal(&ctx).is_none());
    assert!(earn.record_earnings(&mut ctx, Ok("t9".into())).is_ok());
    let rev = earn.reversal(&ctx).unwrap();
    assert_eq!(rev.transaction_id, "t9");
    assert_eq!(rev.description, "Revert earnings order ");
    let confirm = SendConfirmationProductStep { inventory_client: () };
    assert_eq!(confirm.confirmation(&ctx), (9, id(ORDER)));
}

#[test]
fn snapshot_text_is_what_serde_json_writes() {
    let product = r#"{"name":"Tas","description":"Kulit","images":["a.png","b.png"],"originCountry":"JP","purchaseDate":"2024-01-02","price":100,"service_fee":-7}"#;
    let ctx = build_checkout_context(id(ORDER), 1, 2, request(1), product.into()).unwrap();
    let mut m = serde_json::Map::new();
    m.insert("product_id".into(), uuid::Uuid::from_u128(9).to_string().into());
    m.insert("name".into(), "Tas".into());
    m.insert("description".into(), "Kulit".into());
    m.insert("image_url".into(), "a.png".into());
    m.insert("origin_country".into(), "JP".into());
    m.insert("purchase_date".into(), "2024-01-02".into());
    m.insert("unit_price".into(), 100.into());
    m.insert("service_fee".into(), (-7).into());
    assert_eq!(ctx.snapshot, serde_json::Value::Object(m).to_string());
    assert_eq!(ctx.total_price, 93);
}
