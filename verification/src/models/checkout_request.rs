//! The message by which a checkout is handed to the worker.

use vstd::prelude::*;
use crate::models::order::CreateOrderRequest;

verus! {

/// A queued checkout. Ids are UUID values; `product` is the product's JSON
/// as the inventory service returned it.
pub struct CheckoutRequest {
    pub order_id: u128,
    pub titipers_id: u128,
    pub jastiper_id: u128,
    pub req: CreateOrderRequest,
    pub product: String,
    pub idempotency_key: u128,
}

} // verus!
