use json_order_service::error::AppError;
use json_order_service::handlers::order::{
    cancel_authorization, check_admin, plan_status_update, check_not_own_product, check_order_access, check_update_permission,
    checkout_undo, order_or_not_found, price_breakdown, purchases_filter, released_product,
    reported_page_and_limit, sales_filter, CheckoutFailure, CheckoutUndo,
};
use json_order_service::models::cancelled_by::CancelledBy;
use json_order_service::models::order::Order;
use json_order_service::models::order_state::OrderStatus;
use json_order_service::models::role::Role;

const BUYER: u128 = 1;
const SELLER: u128 = 2;
const OTHER: u128 = 3;

#[test]
fn access_only_for_buyer_and_seller() {
    assert!(check_order_access(BUYER, SELLER, BUYER).is_ok());
    assert!(check_order_access(BUYER, SELLER, SELLER).is_ok());
    match check_order_access(BUYER, SELLER, OTHER) {
        Err(AppError::Forbidden(m)) => assert_eq!(m, "Anda tidak memiliki akses ke pesanan ini"),
        other => panic!("unexpected {:?}", other),
    }
    match order_or_not_found(None) {
        Err(AppError::NotFound(m)) => assert_eq!(m, "Pesanan tidak ditemukan"),
        other => panic!("unexpected {:?}", other),
    }
}

#[test]
fn seller_cannot_buy_own_product() {
    assert!(check_not_own_product(BUYER, SELLER).is_ok());
    match check_not_own_product(SELLER, SELLER) {
        Err(AppError::Forbidden(m)) => {
            assert_eq!(m, "Jastiper tidak dapat membeli produk milik sendiri")
        }
        other => panic!("unexpected {:?}", other),
    }
}

#[test]
fn pricing() {
    let p = price_breakdown(Some(50_000), Some(5_000), 3);
    assert_eq!((p.unit_price, p.service_fee, p.total_price), (50_000, 5_000, 165_000));
    let q = price_breakdown(None, Some(1_000), 2);
    assert_eq!((q.unit_price, q.service_fee, q.total_price), (0, 1_000, 2_000));
}

#[test]
fn checkout_undo_order() {
    assert!(checkout_undo(CheckoutFailure::ReserveStock).is_empty());
    assert_eq!(checkout_undo(CheckoutFailure::DeductWallet), vec![CheckoutUndo::ReleaseStock]);
    assert_eq!(
        checkout_undo(CheckoutFailure::SaveOrder),
        vec![CheckoutUndo::ReleaseStock, CheckoutUndo::RefundWallet]
    );
}

#[test]
fn update_permissions() {
    assert!(check_update_permission(OrderStatus::Purchased, "JASTIPER", BUYER, SELLER, SELLER).is_ok());
    match check_update_permission(OrderStatus::Shipped, "JASTIPER", BUYER, SELLER, OTHER) {
        Err(AppError::Forbidden(m)) => {
            assert_eq!(m, "Hanya jastiper pemilik produk yang dapat mengubah status ini")
        }
        other => panic!("unexpected {:?}", other),
    }
    assert!(check_update_permission(OrderStatus::Completed, "TITIPERS", BUYER, SELLER, BUYER).is_ok());
    match check_update_permission(OrderStatus::Completed, "TITIPERS", BUYER, SELLER, OTHER) {
        Err(AppError::Forbidden(m)) => assert_eq!(
            m,
            "Hanya titipers pemilik order yang dapat mengkonfirmasi penerimaan"
        ),
        other => panic!("unexpected {:?}", other),
    }
    assert!(check_update_permission(OrderStatus::Cancelled, "ADMIN", BUYER, SELLER, OTHER).is_ok());
    match check_update_permission(OrderStatus::Paid, "JASTIPER", BUYER, SELLER, SELLER) {
        Err(AppError::Forbidden(m)) => {
            assert_eq!(m, "Role Anda tidak memiliki izin untuk transisi status ini")
        }
        other => panic!("unexpected {:?}", other),
    }
}

#[test]
fn cancel_authorizations() {
    assert_eq!(
        cancel_authorization("TITIPERS", OrderStatus::Paid, BUYER, SELLER, BUYER).unwrap(),
        (CancelledBy::Jastiper, "TITIPERS")
    );
    match cancel_authorization("TITIPERS", OrderStatus::Shipped, BUYER, SELLER, BUYER) {
        Err(AppError::UnprocessableEntity(m)) => {
            assert_eq!(m, "Titipers hanya dapat membatalkan pesanan dengan status PAID")
        }
        other => panic!("unexpected {:?}", other),
    }
    match cancel_authorization("TITIPERS", OrderStatus::Paid, BUYER, SELLER, OTHER) {
        Err(AppError::Forbidden(m)) => {
            assert_eq!(m, "Hanya titipers pemilik order yang dapat membatalkan")
        }
        other => panic!("unexpected {:?}", other),
    }
    assert_eq!(
        cancel_authorization("JASTIPER", OrderStatus::Shipped, BUYER, SELLER, SELLER).unwrap(),
        (CancelledBy::Jastiper, "JASTIPER")
    );
    assert!(cancel_authorization("JASTIPER", OrderStatus::Paid, BUYER, SELLER, OTHER).is_err());
    assert_eq!(
        cancel_authorization("ADMIN", OrderStatus::Completed, BUYER, SELLER, OTHER).unwrap(),
        (CancelledBy::Admin, "ADMIN")
    );
    match cancel_authorization("SYSTEM", OrderStatus::Paid, BUYER, SELLER, OTHER) {
        Err(AppError::Forbidden(m)) => {
            assert_eq!(m, "Role Anda tidak memiliki izin membatalkan pesanan")
        }
        other => panic!("unexpected {:?}", other),
    }
}

#[test]
fn listing_helpers() {
    assert_eq!(released_product(Some(9), 4), 9);
    assert_eq!(released_product(None, 4), 4);
    assert_eq!(reported_page_and_limit(None, None), (1, 20));
    assert_eq!(reported_page_and_limit(Some(3), Some(5)), (3, 5));
    let p = purchases_filter(BUYER);
    assert_eq!(p.titipers_id, Some(BUYER));
    assert_eq!(p.jastiper_id, None);
    let s = sales_filter(SELLER);
    assert_eq!(s.jastiper_id, Some(SELLER));
    assert_eq!(s.titipers_id, None);
}

#[test]
fn only_admins_reach_admin_endpoints() {
    assert!(check_admin(Role::Admin).is_ok());
    for role in [Role::Titipers, Role::Jastiper, Role::System] {
        match check_admin(role) {
            Err(AppError::Forbidden(m)) => assert_eq!(m, "Hanya admin yang dapat mengakses endpoint ini"),
            other => panic!("unexpected {:?}", other),
        }
    }
}

fn order(status: OrderStatus) -> Order {
    Order {
        order_id: 9,
        titipers_id: BUYER,
        jastiper_id: SELLER,
        product_id: 7,
        product_snapshot: "{}".into(),
        quantity: 1,
        unit_price: 100,
        service_fee: 10,
        total_price: 110,
        status,
        shipping_address: "{}".into(),
        note_to_jastiper: None,
        tracking_number: None,
        courier: None,
        cancellation_reason: None,
        cancelled_by: None,
        completed_at: None,
        created_at: 0,
        updated_at: 0,
    }
}

#[test]
fn status_update_plans() {
    let paid = order(OrderStatus::Paid);
    assert_eq!(
        plan_status_update(OrderStatus::Purchased, "JASTIPER", Some(&paid), SELLER, None, None).unwrap(),
        OrderStatus::Purchased
    );
    let purchased = order(OrderStatus::Purchased);
    assert_eq!(
        plan_status_update(OrderStatus::Shipped, "ADMIN", Some(&purchased), OTHER, Some("JNE1"), Some("JNE"))
            .unwrap(),
        OrderStatus::Shipped
    );
    match plan_status_update(OrderStatus::Shipped, "JASTIPER", Some(&purchased), SELLER, None, Some("JNE")) {
        Err(AppError::Validation(_)) => {}
        other => panic!("unexpected {:?}", other),
    }
    match plan_status_update(OrderStatus::Shipped, "JASTIPER", None, SELLER, None, None) {
        Err(AppError::NotFound(m)) => assert_eq!(m, "Pesanan tidak ditemukan"),
        other => panic!("unexpected {:?}", other),
    }
    match plan_status_update(OrderStatus::Shipped, "TITIPERS", Some(&purchased), BUYER, None, None) {
        Err(AppError::Forbidden(_)) => {}
        other => panic!("unexpected {:?}", other),
    }
    match plan_status_update(OrderStatus::Purchased, "JASTIPER", None, SELLER, None, None) {
        Err(AppError::NotFound(m)) => assert_eq!(m, "Pesanan tidak ditemukan"),
        other => panic!("unexpected {:?}", other),
    }
    match plan_status_update(OrderStatus::Purchased, "JASTIPER", Some(&paid), OTHER, None, None) {
        Err(AppError::Forbidden(m)) => {
            assert_eq!(m, "Hanya jastiper pemilik produk yang dapat mengubah status ini")
        }
        other => panic!("unexpected {:?}", other),
    }
    let pending = order(OrderStatus::Pending);
    match plan_status_update(OrderStatus::Shipped, "JASTIPER", Some(&pending), SELLER, Some("T"), Some("C")) {
        Err(e @ AppError::InvalidStatusTransition { .. }) => {
            assert_eq!(e.status_code(), 422);
            match e {
                AppError::InvalidStatusTransition { current, requested, valid } => {
                    assert_eq!(current, "PENDING");
                    assert_eq!(requested, "SHIPPED");
                    assert!(valid.is_empty());
                }
                _ => unreachable!(),
            }
        }
        other => panic!("unexpected {:?}", other),
    }
    match plan_status_update(OrderStatus::Completed, "ADMIN", Some(&paid), OTHER, None, None) {
        Err(AppError::InvalidStatusTransition { valid, .. }) => assert_eq!(valid, vec!["PURCHASED".to_string()]),
        other => panic!("unexpected {:?}", other),
    }
}
