//! The checkout worker's decisions: which failures are final, how often a
//! message has been retried, and what to do with a message afterwards.

pub mod worker;
