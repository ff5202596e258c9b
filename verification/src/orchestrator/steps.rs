//! What saga steps ask of the other services and of the order repository.

use vstd::prelude::*;
use crate::models::order::UpdateOrderParams;
use crate::models::order_state::OrderStatus;
use crate::models::role::Role;
use crate::text::{opt_str_view, opt_string_view};

verus! {

/// A stock reservation or release for one order.
#[derive(Clone, Copy, Debug, PartialEq, Eq, Structural)]
pub struct StockRequest {
    pub product_id: u128,
    pub order_id: u128,
    pub quantity: i32,
}

/// A movement of money on a user's wallet for one order.
#[derive(Debug)]
pub struct WalletRequest {
    pub user_id: u128,
    pub order_id: u128,
    pub amount: i64,
    pub description: String,
}

/// A status change of an order, with who makes it and what is recorded.
#[derive(Debug)]
pub struct OrderUpdate {
    pub order_id: u128,
    pub status: OrderStatus,
    pub changed_by: String,
    pub actor_role: Role,
    pub notes: Option<String>,
    pub tracking_number: Option<String>,
    pub courier: Option<String>,
    pub cancellation_reason: Option<String>,
}

impl OrderUpdate {
    /// The details of the change, as the repository takes them.
    pub fn params(&self) -> (r: UpdateOrderParams<'_>)
        ensures
            r.changed_by@ == self.changed_by@,
            *r.actor_role == self.actor_role,
            opt_str_view(r.notes) == opt_string_view(self.notes),
            opt_str_view(r.tracking_number) == opt_string_view(self.tracking_number),
            opt_str_view(r.courier) == opt_string_view(self.courier),
            opt_str_view(r.cancellation_reason) == opt_string_view(self.cancellation_reason),
    {
        UpdateOrderParams {
            changed_by: self.changed_by.as_str(),
            actor_role: &self.actor_role,
            notes: as_opt_str(&self.notes),
            tracking_number: as_opt_str(&self.tracking_number),
            courier: as_opt_str(&self.courier),
            cancellation_reason: as_opt_str(&self.cancellation_reason),
        }
    }
}

/// Borrows an optional owned string as an optional slice.
pub fn as_opt_str(o: &Option<String>) -> (r: Option<&str>)
    ensures
        opt_str_view(r) == opt_string_view(*o),
{
    match o {
        Some(s) => Some(s.as_str()),
        None => None,
    }
}

/// Whether `u` is the change of order `order_id` to `status`, made by
/// `changed_by` under `role`, recording `notes` and the cancellation reason
/// `reason`, with no shipment details.
pub open spec fn is_update(
    u: OrderUpdate,
    order_id: u128,
    status: OrderStatus,
    changed_by: Seq<char>,
    role: Role,
    notes: Seq<char>,
    reason: Option<Seq<char>>,
) -> bool {
    &&& u.order_id == order_id
    &&& u.status == status
    &&& u.changed_by@ == changed_by
    &&& u.actor_role == role
    &&& opt_string_view(u.notes) == Some(notes)
    &&& u.tracking_number is None
    &&& u.courier is None
    &&& opt_string_view(u.cancellation_reason) == reason
}

} // verus!
