//! Order lifecycle and checkout orchestration for the jastip order service:
//! the order state machine, the saga engine that drives checkout, payment,
//! confirmation and cancellation, the checkout worker's message decisions,
//! and the request-level rules of the HTTP handlers.

pub mod text;
pub mod ids;
pub mod error;
pub mod models;
pub mod orchestrator;
pub mod repositories;
pub mod clients;
pub mod auth;
pub mod infrastructure;
pub mod handlers;
