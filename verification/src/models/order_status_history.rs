//! The history of an order's status changes.

use vstd::prelude::*;
use crate::models::order_state::OrderStatus;
use crate::models::role::Role;

verus! {

/// The columns of the `order_status_history` table (and the table itself).
#[derive(Clone, Copy, Debug, PartialEq, Eq, Structural)]
pub enum OrderStatusHistoryIden {
    OrderStatusHistory,
    StatusHisId,
    OrderId,
    Status,
    ChangedBy,
    ActorRole,
    Notes,
    Timestamp,
}

/// The SQL name of a column of `order_status_history`, or of the table.
pub open spec fn history_column_name(c: OrderStatusHistoryIden) -> Seq<char> {
    match c {
        OrderStatusHistoryIden::OrderStatusHistory => "order_status_history"@,
        OrderStatusHistoryIden::StatusHisId => "status_his_id"@,
        OrderStatusHistoryIden::OrderId => "order_id"@,
        OrderStatusHistoryIden::Status => "status"@,
        OrderStatusHistoryIden::ChangedBy => "changed_by"@,
        OrderStatusHistoryIden::ActorRole => "actor_role"@,
        OrderStatusHistoryIden::Notes => "notes"@,
        OrderStatusHistoryIden::Timestamp => "timestamp"@,
    }
}

impl OrderStatusHistoryIden {
    /// The SQL name of the column (or table).
    pub fn name(&self) -> (r: &'static str)
        ensures
            r@ == history_column_name(*self),
    {
        match self {
            OrderStatusHistoryIden::OrderStatusHistory => "order_status_history",
            OrderStatusHistoryIden::StatusHisId => "status_his_id",
            OrderStatusHistoryIden::OrderId => "order_id",
            OrderStatusHistoryIden::Status => "status",
            OrderStatusHistoryIden::ChangedBy => "changed_by",
            OrderStatusHistoryIden::ActorRole => "actor_role",
            OrderStatusHistoryIden::Notes => "notes",
            OrderStatusHistoryIden::Timestamp => "timestamp",
        }
    }
}

/// One recorded status change. Ids are UUID values; the time is in
/// microseconds since the Unix epoch.
pub struct OrderStatusHistory {
    pub statushis_id: u128,
    pub order_id: u128,
    pub status: OrderStatus,
    pub changed_by: String,
    pub actor_role: Role,
    pub notes: Option<String>,
    pub timestamp: i64,
}

} // verus!
