//! Where an order is delivered.

use vstd::prelude::*;

verus! {

/// A delivery address, as the buyer gives it at checkout.
#[derive(Debug)]
pub struct ShippingAddress {
    pub recipient_name: String,
    pub phone_number: String,
    pub street: String,
    pub kelurahan: String,
    pub kecamatan: String,
    pub city: String,
    pub province: String,
    /// Five characters long in a valid request.
    pub postal_code: String,
    pub notes: Option<String>,
}

} // verus!
