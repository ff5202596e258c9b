//! Requests of the order handlers.

use vstd::prelude::*;

verus! {

/// A request to cancel an order, with an optional note for the status history.
pub struct CancelRequest {
    pub cancellation_reason: String,
    /// At most 500 characters in a valid request.
    pub notes: Option<String>,
}

} // verus!
