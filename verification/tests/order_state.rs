use json_order_service::error::AppError;
use json_order_service::models::cancelled_by::CancelledBy;
use json_order_service::models::order_state::{
    CancelledState, CompletedState, OrderMachine, OrderState, OrderStatus, PaidState, PendingState,
    PurchasedState, RefundFailedState, RefundingState, ReservingState, ShippedState,
};
use json_order_service::models::role::Role;

const ALL_STATUSES: [OrderStatus; 9] = [
    OrderStatus::Reserving,
    OrderStatus::Pending,
    OrderStatus::Paid,
    OrderStatus::Purchased,
    OrderStatus::Shipped,
    OrderStatus::Completed,
    OrderStatus::Refunding,
    OrderStatus::RefundFailed,
    OrderStatus::Cancelled,
];

const ALL_ROLES: [Role; 4] = [Role::Titipers, Role::Jastiper, Role::Admin, Role::System];

fn expected_next(from: OrderStatus, role: Role) -> Option<OrderStatus> {
    match (from, role) {
        (OrderStatus::Pending, Role::System) => Some(OrderStatus::Paid),
        (OrderStatus::Paid, Role::Jastiper) | (OrderStatus::Paid, Role::Admin) => {
            Some(OrderStatus::Purchased)
        }
        (OrderStatus::Purchased, Role::Jastiper) | (OrderStatus::Purchased, Role::Admin) => {
            Some(OrderStatus::Shipped)
        }
        (OrderStatus::Shipped, Role::Titipers) | (OrderStatus::Shipped, Role::Admin) => {
            Some(OrderStatus::Completed)
        }
        (OrderStatus::Refunding, Role::System) | (OrderStatus::Refunding, Role::Admin) => {
            Some(OrderStatus::Completed)
        }
        (OrderStatus::RefundFailed, Role::Admin) => Some(OrderStatus::Completed),
        _ => None,
    }
}

#[test]
fn status_names_round_trip() {
    for s in ALL_STATUSES {
        assert_eq!(OrderStatus::from_str(s.as_str()).unwrap(), s);
    }
    assert_eq!(OrderStatus::RefundFailed.as_str(), "REFUND_FAILED");
    assert_eq!(OrderStatus::Reserving.as_str(), "RESERVING");
}

#[test]
fn unknown_status_is_refused_with_quoted_text() {
    assert_eq!(
        OrderStatus::from_str("pending").unwrap_err(),
        "Nilai Order Status tidak valid: 'pending'"
    );
}

#[test]
fn role_names_round_trip() {
    for r in ALL_ROLES {
        assert_eq!(Role::from_str(r.as_str()).unwrap(), r);
    }
    assert_eq!(Role::Titipers.as_str(), "TITIPERS");
    assert_eq!(Role::from_str("BUYER").unwrap_err(), "Nilai Role tidak valid: 'BUYER'");
}

#[test]
fn cancelled_by_names_round_trip() {
    assert_eq!(CancelledBy::from_str("JASTIPER").unwrap(), CancelledBy::Jastiper);
    assert_eq!(CancelledBy::from_str(CancelledBy::Admin.as_str()).unwrap(), CancelledBy::Admin);
    assert_eq!(
        CancelledBy::from_str("X").unwrap_err(),
        "Nilai CancelledBy tidak valid: 'X'"
    );
}

#[test]
fn machine_follows_the_transition_table() {
    for from in ALL_STATUSES {
        for role in ALL_ROLES {
            for next in ALL_STATUSES {
                let mut m = OrderMachine::from_status(&from);
                let r = m.update_status(&role, &next);
                let allowed = expected_next(from, role) == Some(next);
                assert_eq!(r.is_ok(), allowed, "{:?} {:?} {:?}", from, role, next);
                if allowed {
                    assert_eq!(r.unwrap(), next);
                    assert_eq!(m.current_status(), next);
                } else {
                    assert_eq!(m.current_status(), from);
                }
            }
        }
    }
}

#[test]
fn refusals_carry_the_status_message() {
    let mut m = OrderMachine::from_status(&OrderStatus::Pending);
    match m.update_status(&Role::Admin, &OrderStatus::Paid) {
        Err(AppError::Forbidden(msg)) => {
            assert_eq!(msg, "Status PENDING hanya bisa berubah ke PAID oleh SYSTEM")
        }
        other => panic!("unexpected {:?}", other),
    }
    let mut done = OrderMachine::from_status(&OrderStatus::Completed);
    match done.update_status(&Role::Admin, &OrderStatus::Cancelled) {
        Err(AppError::UnprocessableEntity(msg)) => {
            assert_eq!(msg, "Order sudah COMPLETED, tidak bisa diubah")
        }
        other => panic!("unexpected {:?}", other),
    }
    let failed = OrderMachine::from_status(&OrderStatus::RefundFailed);
    match failed.cancel(&Role::Admin) {
        Err(AppError::UnprocessableEntity(msg)) => {
            assert_eq!(msg, "Order sedang dalam proses REFUND_FAILED, tidak bisa dibatalkan")
        }
        other => panic!("unexpected {:?}", other),
    }
}

#[test]
fn cancel_permissions() {
    for s in [OrderStatus::Pending, OrderStatus::Paid, OrderStatus::Purchased] {
        let m = OrderMachine::from_status(&s);
        assert!(m.cancel(&Role::Jastiper).is_ok());
        assert!(m.cancel(&Role::Admin).is_ok());
        assert!(m.cancel(&Role::Titipers).is_err());
        assert!(m.cancel(&Role::System).is_err());
    }
    let shipped = OrderMachine::from_status(&OrderStatus::Shipped);
    assert!(shipped.cancel(&Role::Admin).is_ok());
    match shipped.cancel(&Role::Jastiper) {
        Err(AppError::Forbidden(msg)) => assert_eq!(msg, "Hanya ADMIN yang bisa cancel order SHIPPED"),
        other => panic!("unexpected {:?}", other),
    }
    for s in [
        OrderStatus::Reserving,
        OrderStatus::Completed,
        OrderStatus::Refunding,
        OrderStatus::RefundFailed,
        OrderStatus::Cancelled,
    ] {
        for r in ALL_ROLES {
            assert!(OrderMachine::from_status(&s).cancel(&r).is_err());
        }
    }
}

#[test]
fn state_objects_report_their_status() {
    assert_eq!(ReservingState.current_status(), OrderStatus::Reserving);
    assert_eq!(PendingState.current_status(), OrderStatus::Pending);
    assert_eq!(PaidState.current_status(), OrderStatus::Paid);
    assert_eq!(PurchasedState.current_status(), OrderStatus::Purchased);
    assert_eq!(ShippedState.current_status(), OrderStatus::Shipped);
    assert_eq!(CompletedState.current_status(), OrderStatus::Completed);
    assert_eq!(RefundingState.current_status(), OrderStatus::Refunding);
    assert_eq!(RefundFailedState.current_status(), OrderStatus::RefundFailed);
    assert_eq!(CancelledState.current_status(), OrderStatus::Cancelled);
    assert_eq!(
        ShippedState.update_status(&Role::Titipers, &OrderStatus::Completed).unwrap(),
        OrderStatus::Completed
    );
    assert!(CancelledState.cancel(&Role::Admin).is_err());
}

#[test]
fn full_lifecycle_walk() {
    let mut m = OrderMachine::from_status(&OrderStatus::Pending);
    assert_eq!(m.update_status(&Role::System, &OrderStatus::Paid).unwrap(), OrderStatus::Paid);
    assert_eq!(
        m.update_status(&Role::Jastiper, &OrderStatus::Purchased).unwrap(),
        OrderStatus::Purchased
    );
    assert_eq!(m.update_status(&Role::Admin, &OrderStatus::Shipped).unwrap(), OrderStatus::Shipped);
    assert_eq!(
        m.update_status(&Role::Titipers, &OrderStatus::Completed).unwrap(),
        OrderStatus::Completed
    );
    for r in ALL_ROLES {
        for n in ALL_STATUSES {
            assert!(m.update_status(&r, &n).is_err());
        }
    }
    assert_eq!(m.current_status(), OrderStatus::Completed);
}
