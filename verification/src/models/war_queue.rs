//! Places in the queue for a limited-stock ("war") product.

use vstd::prelude::*;

verus! {

/// A buyer's place in a war queue. Ids are UUID values; times are
/// microseconds since the Unix epoch.
pub struct WarQueue {
    pub id: u128,
    pub product_id: u128,
    pub titipers_id: u128,
    pub quantity: i32,
    /// Waiting, Processing, Success or Failed.
    pub status: String,
    pub joined_at: i64,
    pub processed_at: Option<i64>,
}

/// A request to join the war queue for a product.
pub struct JoinWarRequest {
    pub product_id: u128,
    pub quantity: i32,
}

} // verus!
