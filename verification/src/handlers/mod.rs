//! The rules the order endpoints apply before and after they call the
//! database and the other services.

pub mod order;
