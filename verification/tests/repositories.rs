use json_order_service::models::filter_pagination::{optional_number, OrderFilter, SortOrder};
use json_order_service::models::order::{
    CreateOrderRequest, OrderIden, PriceBreakdown, UpdateOrderParams,
};
use json_order_service::models::order_state::OrderStatus;
use json_order_service::models::order_status_history::OrderStatusHistoryIden;
use json_order_service::models::rating_idens::{RatingIden, RatingJastiperIden, RatingProductIden};
use json_order_service::models::role::Role;
use json_order_service::models::shipping_address::ShippingAddress;
use json_order_service::repositories::query::{
    expired_pending_conditions, filter_conditions, page_window, page_window_fits, sort_column,
    sort_direction,
    Condition,
};
use json_order_service::repositories::records::{
    apply_changes, history_entry, new_order_record, order_changes, text_array_literal,
    PAYMENT_WINDOW_MICROS,
};

#[test]
fn page_windows() {
    assert_eq!(page_window(None, None), (20, 0));
    assert_eq!(page_window(Some(3), Some(10)), (10, 20));
    assert_eq!(page_window(Some(2), Some(500)), (100, 100));
    assert_eq!(page_window(Some(-4), Some(10)), (10, 0));
    assert_eq!(page_window(Some(0), None), (20, 0));
    assert_eq!(page_window(Some(2), Some(-3)), (-3, -3));
}

#[test]
fn page_windows_that_overflow() {
    assert!(page_window_fits(None, None));
    assert!(page_window_fits(Some(i64::MAX), Some(1)));
    assert!(!page_window_fits(Some(i64::MAX), Some(2)));
    assert!(!page_window_fits(Some(i64::MAX), None));
    assert!(page_window_fits(Some(i64::MIN), Some(i64::MIN)));
    assert!(!page_window_fits(Some(3), Some(i64::MIN)));
    assert!(page_window_fits(Some(2), Some(i64::MIN)));
}

#[test]
fn sorting() {
    assert_eq!(sort_column(None), OrderIden::CreatedAt);
    assert_eq!(sort_column(Some("created_at")), OrderIden::CreatedAt);
    assert_eq!(sort_column(Some("updated_at")), OrderIden::UpdatedAt);
    assert_eq!(sort_column(Some("total_price")), OrderIden::TotalPrice);
    assert_eq!(sort_column(Some("status")), OrderIden::CreatedAt);
    assert_eq!(sort_direction(None), SortOrder::Asc);
    assert_eq!(sort_direction(Some(SortOrder::Desc)), SortOrder::Desc);
    assert_eq!(sort_direction(Some(SortOrder::Asc)), SortOrder::Asc);
}

#[test]
fn filter_condition_lists() {
    assert!(filter_conditions(None).is_empty());
    assert!(filter_conditions(Some(&OrderFilter::any())).is_empty());
    let f = OrderFilter {
        status: Some(OrderStatus::Paid),
        jastiper_id: Some(2),
        titipers_id: Some(1),
        product_id: None,
        date_from: Some(100),
        date_to: None,
    };
    assert_eq!(
        filter_conditions(Some(&f)),
        vec![
            Condition::TitipersIs(1),
            Condition::JastiperIs(2),
            Condition::StatusIs(OrderStatus::Paid),
            Condition::CreatedFrom(100)
        ]
    );
    assert_eq!(
        expired_pending_conditions(77),
        vec![Condition::StatusIs(OrderStatus::Pending), Condition::ExpiresBefore(77)]
    );
}

#[test]
fn column_names() {
    assert_eq!(OrderIden::Order.name(), "order");
    assert_eq!(OrderIden::NoteToJastiper.name(), "note_to_jastiper");
    assert_eq!(OrderIden::ExpiredAt.name(), "expired_at");
    assert_eq!(OrderStatusHistoryIden::OrderStatusHistory.name(), "order_status_history");
    assert_eq!(OrderStatusHistoryIden::StatusHisId.name(), "status_his_id");
    assert_eq!(RatingIden::ProductImages.name(), "product_images");
    assert_eq!(RatingJastiperIden::RatingJastiperId.name(), "rating_jastiper_id");
    assert_eq!(RatingProductIden::RatingProduct.name(), "rating_product");
}

#[test]
fn query_numbers() {
    assert_eq!(optional_number(None), Some(None));
    assert_eq!(optional_number(Some("")), Some(None));
    assert_eq!(optional_number(Some("42")), Some(Some(42)));
    assert_eq!(optional_number(Some("-7")), Some(Some(-7)));
    assert_eq!(optional_number(Some("x1")), None);
    assert_eq!(optional_number(Some("+5")), Some(Some(5)));
    assert_eq!(optional_number(Some("007")), Some(Some(7)));
    assert_eq!(optional_number(Some("-9223372036854775808")), Some(Some(i64::MIN)));
    assert_eq!(optional_number(Some("9223372036854775807")), Some(Some(i64::MAX)));
    assert_eq!(optional_number(Some("9223372036854775808")), None);
    assert_eq!(optional_number(Some("-")), None);
    assert_eq!(optional_number(Some("+")), None);
    assert_eq!(optional_number(Some(" 5")), None);
    assert_eq!(optional_number(Some("5 ")), None);
    assert_eq!(optional_number(Some("1_000")), None);
}

fn address() -> ShippingAddress {
    ShippingAddress {
        recipient_name: "Ani".into(),
        phone_number: "0812".into(),
        street: "Jl. Mawar 1".into(),
        kelurahan: "Kel".into(),
        kecamatan: "Kec".into(),
        city: "Depok".into(),
        province: "Jawa Barat".into(),
        postal_code: "16424".into(),
        notes: None,
    }
}

#[test]
fn new_orders_start_reserving() {
    let req = CreateOrderRequest {
        product_id: 9,
        quantity: 2,
        shipping_address: address(),
        note_to_jastiper: None,
    };
    let price = PriceBreakdown { unit_price: 10, service_fee: 1, total_price: 22 };
    let titipers = uuid::Uuid::parse_str("550e8400-e29b-41d4-a716-446655440000").unwrap();
    let (row, hist) = new_order_record(
        5,
        titipers.as_u128(),
        7,
        &req,
        "{}".into(),
        "{\"city\":\"Depok\"}".into(),
        &price,
        1_000,
    );
    assert_eq!(row.order.status, OrderStatus::Reserving);
    assert_eq!(row.order.total_price, 22);
    assert_eq!(row.order.quantity, 2);
    assert_eq!(row.order.note_to_jastiper.as_deref(), Some(""));
    assert_eq!(row.order.created_at, 1_000);
    assert_eq!(row.expired_at, 1_000 + PAYMENT_WINDOW_MICROS);
    assert_eq!(PAYMENT_WINDOW_MICROS, 15 * 60 * 1_000_000);
    assert_eq!(hist.status, OrderStatus::Reserving);
    assert_eq!(hist.changed_by, titipers.to_string());
    assert_eq!(hist.actor_role, Role::System);
    assert_eq!(hist.notes, "Pesanan berhasil dibuat");
}

#[test]
fn status_changes_write_only_given_columns() {
    let req = CreateOrderRequest {
        product_id: 9,
        quantity: 1,
        shipping_address: address(),
        note_to_jastiper: Some("hati-hati".into()),
    };
    let price = PriceBreakdown { unit_price: 10, service_fee: 0, total_price: 10 };
    let (row, _) = new_order_record(5, 6, 7, &req, "{}".into(), "{}".into(), &price, 1);
    let params = UpdateOrderParams {
        changed_by: "u",
        actor_role: &Role::Jastiper,
        notes: None,
        tracking_number: Some("JNE123"),
        courier: Some("JNE"),
        cancellation_reason: None,
    };
    let shipped = apply_changes(row.order, order_changes(&OrderStatus::Shipped, &params), 50);
    assert_eq!(shipped.status, OrderStatus::Shipped);
    assert_eq!(shipped.tracking_number.as_deref(), Some("JNE123"));
    assert_eq!(shipped.courier.as_deref(), Some("JNE"));
    assert_eq!(shipped.completed_at, None);
    assert_eq!(shipped.updated_at, 50);
    let none = UpdateOrderParams {
        changed_by: "u",
        actor_role: &Role::Titipers,
        notes: Some("ok"),
        tracking_number: None,
        courier: None,
        cancellation_reason: None,
    };
    let done = apply_changes(shipped, order_changes(&OrderStatus::Completed, &none), 90);
    assert_eq!(done.completed_at, Some(90));
    assert_eq!(done.tracking_number.as_deref(), Some("JNE123"));
    let h = history_entry(5, &OrderStatus::Completed, "u", &Role::Titipers, None);
    assert_eq!(h.notes, "");
    assert_eq!(h.changed_by, "u");
}

#[test]
fn text_array_literals_escape_quotes() {
    assert_eq!(text_array_literal(&vec![]), "ARRAY[]::TEXT[]");
    assert_eq!(
        text_array_literal(&vec!["a.png".to_string(), "it's.jpg".to_string()]),
        "ARRAY['a.png','it''s.jpg']::TEXT[]"
    );
}
