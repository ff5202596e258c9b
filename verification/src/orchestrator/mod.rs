//! The saga engine and the sagas of the order service. A saga runs its
//! steps in order and, when one fails, compensates the steps that had
//! succeeded, newest first.

pub mod engine;
pub mod steps;
pub mod checkout;

pub use engine::{SagaAction, SagaOrchestrator, SagaRun};
pub mod payment;
pub mod cancel;
pub mod confirm;
