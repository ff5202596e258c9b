//! Orders and the requests that act on them.

use vstd::prelude::*;
use crate::models::order_state::OrderStatus;
use crate::models::role::Role;
use crate::models::shipping_address::ShippingAddress;

verus! {

/// The columns of the `order` table (and the table itself).
#[derive(Clone, Copy, Debug, PartialEq, Eq, Structural)]
pub enum OrderIden {
    Order,
    OrderId,
    TitipersId,
    JastiperId,
    ProductId,
    ProductSnapshot,
    Quantity,
    UnitPrice,
    ServiceFee,
    TotalPrice,
    Status,
    ShippingAddress,
    NoteToJastiper,
    TrackingNumber,
    Courier,
    CancellationReason,
    CancelledBy,
    CompletedAt,
    CreatedAt,
    UpdatedAt,
    ExpiredAt,
}

/// The SQL name of a column of the `order` table, or of the table itself.
pub open spec fn order_column_name(c: OrderIden) -> Seq<char> {
    match c {
        OrderIden::Order => "order"@,
        OrderIden::OrderId => "order_id"@,
        OrderIden::TitipersId => "titipers_id"@,
        OrderIden::JastiperId => "jastiper_id"@,
        OrderIden::ProductId => "product_id"@,
        OrderIden::ProductSnapshot => "product_snapshot"@,
        OrderIden::Quantity => "quantity"@,
        OrderIden::UnitPrice => "unit_price"@,
        OrderIden::ServiceFee => "service_fee"@,
        OrderIden::TotalPrice => "total_price"@,
        OrderIden::Status => "status"@,
        OrderIden::ShippingAddress => "shipping_address"@,
        OrderIden::NoteToJastiper => "note_to_jastiper"@,
        OrderIden::TrackingNumber => "tracking_number"@,
        OrderIden::Courier => "courier"@,
        OrderIden::CancellationReason => "cancellation_reason"@,
        OrderIden::CancelledBy => "cancelled_by"@,
        OrderIden::CompletedAt => "completed_at"@,
        OrderIden::CreatedAt => "created_at"@,
        OrderIden::UpdatedAt => "updated_at"@,
        OrderIden::ExpiredAt => "expired_at"@,
    }
}

impl OrderIden {
    /// The SQL name of the column (or table).
    pub fn name(&self) -> (r: &'static str)
        ensures
            r@ == order_column_name(*self),
    {
        match self {
            OrderIden::Order => "order",
            OrderIden::OrderId => "order_id",
            OrderIden::TitipersId => "titipers_id",
            OrderIden::JastiperId => "jastiper_id",
            OrderIden::ProductId => "product_id",
            OrderIden::ProductSnapshot => "product_snapshot",
            OrderIden::Quantity => "quantity",
            OrderIden::UnitPrice => "unit_price",
            OrderIden::ServiceFee => "service_fee",
            OrderIden::TotalPrice => "total_price",
            OrderIden::Status => "status",
            OrderIden::ShippingAddress => "shipping_address",
            OrderIden::NoteToJastiper => "note_to_jastiper",
            OrderIden::TrackingNumber => "tracking_number",
            OrderIden::Courier => "courier",
            OrderIden::CancellationReason => "cancellation_reason",
            OrderIden::CancelledBy => "cancelled_by",
            OrderIden::CompletedAt => "completed_at",
            OrderIden::CreatedAt => "created_at",
            OrderIden::UpdatedAt => "updated_at",
            OrderIden::ExpiredAt => "expired_at",
        }
    }
}

/// An order as stored. Ids are UUID values; `product_snapshot` and
/// `shipping_address` hold JSON text; times are microseconds since the Unix epoch.
#[derive(Debug)]
pub struct Order {
    pub order_id: u128,
    pub titipers_id: u128,
    pub jastiper_id: u128,
    pub product_id: u128,
    pub product_snapshot: String,
    pub quantity: i32,
    pub unit_price: i64,
    pub service_fee: i64,
    pub total_price: i64,
    pub status: OrderStatus,
    pub shipping_address: String,
    pub note_to_jastiper: Option<String>,
    pub tracking_number: Option<String>,
    pub courier: Option<String>,
    pub cancellation_reason: Option<String>,
    pub cancelled_by: Option<Role>,
    pub completed_at: Option<i64>,
    pub created_at: i64,
    pub updated_at: i64,
}

/// What a buyer sends to place an order.
#[derive(Debug)]
pub struct CreateOrderRequest {
    pub product_id: u128,
    /// At least 1 in a valid request.
    pub quantity: i32,
    pub shipping_address: ShippingAddress,
    /// At most 500 characters in a valid request.
    pub note_to_jastiper: Option<String>,
}

/// A request to move an order to another status.
pub struct UpdateStatusRequest {
    pub status: OrderStatus,
    pub notes: Option<String>,
    /// Required when the new status is SHIPPED.
    pub tracking_number: Option<String>,
    /// Required when the new status is SHIPPED.
    pub courier: Option<String>,
    /// Given when the order is being refunded after a cancellation.
    pub cancellation_reason: Option<String>,
}

/// A request to cancel an order.
pub struct CancelRequest {
    /// At most 500 characters in a valid request.
    pub cancellation_reason: String,
}

/// The shipment details a seller gives when sending an order.
pub struct ShippedRequest {
    pub tracking_number: Option<String>,
    pub courier: Option<String>,
}

/// The wallet service's notice that an order's payment went through.
pub struct PaymentConfirmedRequest {
    pub wallet_transaction_id: u128,
    pub amount_deducted: i64,
}

/// The wallet service's notice of how an order's refund went.
pub struct RefundConfirmedRequest {
    pub success: bool,
    pub wallet_transaction_id: u128,
    pub amount_refunded: i64,
    pub notes: Option<String>,
}

/// The prices of an order.
#[derive(Debug)]
pub struct PriceBreakdown {
    pub unit_price: i64,
    pub service_fee: i64,
    pub total_price: i64,
}

/// Who changes an order's status, and the details recorded with the change.
#[derive(Debug)]
pub struct UpdateOrderParams<'a> {
    pub changed_by: &'a str,
    pub actor_role: &'a Role,
    pub notes: Option<&'a str>,
    pub tracking_number: Option<&'a str>,
    pub courier: Option<&'a str>,
    pub cancellation_reason: Option<&'a str>,
}

} // verus!
