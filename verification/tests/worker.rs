use json_order_service::error::AppError;
use json_order_service::infrastructure::worker::{
    checkout_plan, delivery_decision, failed_checkout_cancellation, is_permanent, retry_count,
    CheckoutPlan, DeliveryDecision, HeaderValue,
};
use json_order_service::models::order_state::OrderStatus;
use json_order_service::models::role::Role;

#[test]
fn permanent_and_passing_errors() {
    assert!(is_permanent(&AppError::Conflict("stok".into())));
    assert!(is_permanent(&AppError::InsufficientBalance));
    assert!(is_permanent(&AppError::LimitExceeded));
    assert!(is_permanent(&AppError::NotFound("x".into())));
    assert!(!is_permanent(&AppError::Internal));
    assert!(!is_permanent(&AppError::Database("timeout".into())));
}

fn table(entries: Vec<(&str, HeaderValue)>) -> Vec<(String, HeaderValue)> {
    entries.into_iter().map(|(k, v)| (k.to_string(), v)).collect()
}

#[test]
fn retry_count_from_headers() {
    assert_eq!(retry_count(&None), 0);
    assert_eq!(retry_count(&Some(vec![])), 0);
    let direct = table(vec![("x-delivery-count", HeaderValue::ShortShortUInt(2))]);
    assert_eq!(retry_count(&Some(direct)), 2);
    let death = table(vec![(
        "x-death",
        HeaderValue::FieldArray(vec![
            HeaderValue::Other,
            HeaderValue::FieldTable(table(vec![("reason", HeaderValue::Other)])),
            HeaderValue::FieldTable(table(vec![("count", HeaderValue::LongUInt(260))])),
            HeaderValue::FieldTable(table(vec![("count", HeaderValue::LongUInt(7))])),
        ]),
    )]);
    // 260 does not fit in a byte: it wraps to 4.
    assert_eq!(retry_count(&Some(death)), 4);
    let wrong_kind = table(vec![("x-delivery-count", HeaderValue::LongUInt(9))]);
    assert_eq!(retry_count(&Some(wrong_kind)), 0);
}

#[test]
fn delivery_decisions() {
    assert_eq!(delivery_decision(&Ok(()), 9), DeliveryDecision::Ack);
    assert_eq!(
        delivery_decision(&Err(AppError::Forbidden("x".into())), 0),
        DeliveryDecision::CancelAndAck
    );
    assert_eq!(delivery_decision(&Err(AppError::Internal), 2), DeliveryDecision::Requeue);
    assert_eq!(
        delivery_decision(&Err(AppError::Internal), 3),
        DeliveryDecision::CancelAndDeadLetter
    );
}

#[test]
fn checkout_plans() {
    assert_eq!(checkout_plan(true, None).unwrap(), CheckoutPlan::SkipDuplicate);
    match checkout_plan(false, None) {
        Err(AppError::NotFound(m)) => assert_eq!(m, "Order tidak ditemukan"),
        other => panic!("unexpected {:?}", other),
    }
    assert_eq!(
        checkout_plan(false, Some(OrderStatus::Pending)).unwrap(),
        CheckoutPlan::MarkProcessedAndSkip
    );
    assert_eq!(checkout_plan(false, Some(OrderStatus::Reserving)).unwrap(), CheckoutPlan::RunSaga);
}

#[test]
fn failed_checkout_cancels_orders_still_waiting() {
    assert!(failed_checkout_cancellation(None).is_none());
    for s in [OrderStatus::Reserving, OrderStatus::Pending] {
        let (status, p) = failed_checkout_cancellation(Some(s)).unwrap();
        assert_eq!(status, OrderStatus::Cancelled);
        assert_eq!(p.changed_by, "system");
        assert_eq!(*p.actor_role, Role::System);
        assert_eq!(p.notes, Some("Checkout gagal, order dibatalkan otomatis"));
        assert_eq!(p.cancellation_reason, Some("Checkout gagal saat proses worker"));
        assert_eq!(p.tracking_number, None);
        assert_eq!(p.courier, None);
    }
    for s in [
        OrderStatus::Paid,
        OrderStatus::Purchased,
        OrderStatus::Shipped,
        OrderStatus::Completed,
        OrderStatus::Refunding,
        OrderStatus::RefundFailed,
        OrderStatus::Cancelled,
    ] {
        assert!(failed_checkout_cancellation(Some(s)).is_none());
    }
}
