//! What an order remembers of the product it was placed for.

use vstd::prelude::*;

verus! {

/// The product as it was when the order was placed. The id is a UUID value,
/// the purchase date microseconds since the Unix epoch; in a valid snapshot
/// both prices are at least 0.
pub struct ProductSnapshot {
    pub product_id: u128,
    pub name: String,
    pub description: String,
    pub image_url: String,
    pub origin_country: String,
    pub purchase_date: i64,
    pub unit_price: i64,
    pub service_fee: i64,
}

} // verus!
