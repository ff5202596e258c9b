//! The confirmation saga, when the buyer confirms receipt: mark the order
//! COMPLETED, pay the seller their earnings, then tell the inventory service.

use vstd::prelude::*;
use crate::clients::order_description;
use crate::error::AppError;
use crate::ids::{uuid_text, uuid_to_string};
use crate::models::order::Order;
use crate::models::order_state::OrderStatus;
use crate::models::role::Role;
use crate::orchestrator::steps::{OrderUpdate, is_update};
use crate::orchestrator::engine::SagaOrchestrator;
use crate::text::owned;

verus! {

/// What the confirmation saga knows and records. Ids are UUID values.
pub struct ConfirmOrderContext {
    pub titipers_id: u128,
    pub jastiper_id: u128,
    pub order_id: u128,
    pub product_id: u128,
    pub total_price: i64,
    /// The wallet transaction of the seller's earnings, once paid.
    pub earnings_transaction_id: Option<String>,
    /// The order once it has been marked COMPLETED.
    pub updated_order: Option<Order>,
}

/// Marks the order COMPLETED; compensated by putting it back to SHIPPED.
pub struct UpdateStatusToCompletedStep<R> {
    pub order_repo: R,
}

impl<R> UpdateStatusToCompletedStep<R> {
    /// The step's name.
    pub fn name(&self) -> (r: &'static str)
        ensures
            r@ == "update_status_to_completed"@,
    {
        "update_status_to_completed"
    }

    /// The change to make: the order to COMPLETED, by the buyer as TITIPERS.
    pub fn to_completed(&self, ctx: &ConfirmOrderContext) -> (r: OrderUpdate)
        ensures
            is_update(
                r,
                ctx.order_id,
                OrderStatus::Completed,
                uuid_text(ctx.titipers_id),
                Role::Titipers,
                "Order sudah diterima oleh titipers"@,
                None,
            ),
    {
        OrderUpdate {
            order_id: ctx.order_id,
            status: OrderStatus::Completed,
            changed_by: uuid_to_string(ctx.titipers_id),
            actor_role: Role::Titipers,
            notes: Some(owned("Order sudah diterima oleh titipers")),
            tracking_number: None,
            courier: None,
            cancellation_reason: None,
        }
    }

    /// Records the updated order on success; a failure is the step's failure.
    pub fn record_completed(&self, ctx: &mut ConfirmOrderContext, outcome: Result<Order, AppError>) -> (r:
        Result<(), AppError>)
        ensures
            outcome is Ok <==> r is Ok,
            outcome matches Err(e) ==> r == Err::<(), AppError>(e),
            outcome matches Ok(o) ==> *final(ctx) == (ConfirmOrderContext {
                updated_order: Some(o),
                ..*old(ctx)
            }),
            outcome is Err ==> *final(ctx) == *old(ctx),
    {
        match outcome {
            Ok(o) => {
                ctx.updated_order = Some(o);
                Ok(())
            },
            Err(e) => Err(e),
        }
    }

    /// The compensating change: the order back to SHIPPED, by the system.
    pub fn back_to_shipped(&self, ctx: &ConfirmOrderContext) -> (r: OrderUpdate)
        ensures
            is_update(
                r,
                ctx.order_id,
                OrderStatus::Shipped,
                "system"@,
                Role::System,
                "Revert COMPLETED → SHIPPED karena transfer earnings gagal"@,
                None,
            ),
    {
        OrderUpdate {
            order_id: ctx.order_id,
            status: OrderStatus::Shipped,
            changed_by: owned("system"),
            actor_role: Role::System,
            notes: Some(owned("Revert COMPLETED → SHIPPED karena transfer earnings gagal")),
            tracking_number: None,
            courier: None,
            cancellation_reason: None,
        }
    }
}

/// A payment of earnings to the seller for one order.
pub struct EarningsRequest {
    pub jastiper_id: u128,
    pub order_id: u128,
    pub description: String,
}

/// The reversal of an earnings payment.
pub struct ReverseEarningsRequest {
    pub jastiper_id: u128,
    pub order_id: u128,
    pub transaction_id: String,
    pub description: String,
}

/// Pays the seller their earnings; compensated by reversing that payment.
pub struct TransferEarningsStep<W> {
    pub wallet_client: W,
}

impl<W> TransferEarningsStep<W> {
    /// The step's name.
    pub fn name(&self) -> (r: &'static str)
        ensures
            r@ == "transfer_earnings_to_jastiper"@,
    {
        "transfer_earnings_to_jastiper"
    }

    /// The payment to make: the seller's earnings for the order.
    pub fn earnings(&self, ctx: &ConfirmOrderContext) -> (r: EarningsRequest)
        ensures
            r.jastiper_id == ctx.jastiper_id,
            r.order_id == ctx.order_id,
            r.description@ == "Pendapatan Order #"@ + uuid_text(ctx.order_id) + ""@,
    {
        EarningsRequest {
            jastiper_id: ctx.jastiper_id,
            order_id: ctx.order_id,
            description: order_description("Pendapatan Order #", ctx.order_id, ""),
        }
    }

    /// Records the payment's transaction on success; a failure is the step's failure.
    pub fn record_earnings(&self, ctx: &mut ConfirmOrderContext, outcome: Result<String, AppError>) -> (r:
        Result<(), AppError>)
        ensures
            outcome is Ok <==> r is Ok,
            outcome matches Err(e) ==> r == Err::<(), AppError>(e),
            outcome matches Ok(t) ==> *final(ctx) == (ConfirmOrderContext {
                earnings_transaction_id: Some(t),
                ..*old(ctx)
            }),
            outcome is Err ==> *final(ctx) == *old(ctx),
    {
        match outcome {
            Ok(t) => {
                ctx.earnings_transaction_id = Some(t);
                Ok(())
            },
            Err(e) => Err(e),
        }
    }

    /// The compensating reversal: of the recorded earnings transaction, and
    /// only when one was recorded.
    pub fn reversal(&self, ctx: &ConfirmOrderContext) -> (r: Option<ReverseEarningsRequest>)
        ensures
            r is Some <==> ctx.earnings_transaction_id is Some,
            r matches Some(v) ==> v.jastiper_id == ctx.jastiper_id && v.order_id == ctx.order_id
                && Some(v.transaction_id) == ctx.earnings_transaction_id && v.description@
                == "Revert earnings order "@,
    {
        match &ctx.earnings_transaction_id {
            Some(t) => Some(
                ReverseEarningsRequest {
                    jastiper_id: ctx.jastiper_id,
                    order_id: ctx.order_id,
                    transaction_id: t.clone(),
                    description: owned("Revert earnings order "),
                },
            ),
            None => None,
        }
    }
}

/// Tells the inventory service that the buyer received the order. Nothing
/// is compensated.
pub struct SendConfirmationProductStep<I> {
    pub inventory_client: I,
}

impl<I> SendConfirmationProductStep<I> {
    /// The step's name.
    pub fn name(&self) -> (r: &'static str)
        ensures
            r@ == "send_confirmation_product"@,
    {
        "send_confirmation_product"
    }

    /// The confirmation to send: the order's product and the order.
    pub fn confirmation(&self, ctx: &ConfirmOrderContext) -> (r: (u128, u128))
        ensures
            r == (ctx.product_id, ctx.order_id),
    {
        (ctx.product_id, ctx.order_id)
    }
}

/// A step of the confirm_order saga.
pub enum ConfirmSagaStep<R, W, I> {
    UpdateStatusToCompleted(UpdateStatusToCompletedStep<R>),
    TransferEarnings(TransferEarningsStep<W>),
    SendConfirmationProduct(SendConfirmationProductStep<I>),
}

/// The confirmation saga, named `confirm_order`: mark the order COMPLETED, pay the seller's earnings, then tell the inventory service the order was received.
pub fn confirm_saga<R, W, I>(order_repo: R, wallet_client: W, inventory_client: I) -> (s: SagaOrchestrator<ConfirmSagaStep<R, W, I>>)
    ensures
        s.name_spec() == "confirm_order"@,
        s.steps_spec() == seq![
            ConfirmSagaStep::UpdateStatusToCompleted(UpdateStatusToCompletedStep { order_repo: order_repo }),
            ConfirmSagaStep::TransferEarnings(TransferEarningsStep { wallet_client: wallet_client }),
            ConfirmSagaStep::SendConfirmationProduct(SendConfirmationProductStep { inventory_client: inventory_client }),
        ],
{
    let saga = SagaOrchestrator::new("confirm_order");
    let saga = saga.step(ConfirmSagaStep::UpdateStatusToCompleted(UpdateStatusToCompletedStep { order_repo: order_repo }));
    let saga = saga.step(ConfirmSagaStep::TransferEarnings(TransferEarningsStep { wallet_client: wallet_client }));
    let saga = saga.step(ConfirmSagaStep::SendConfirmationProduct(SendConfirmationProductStep { inventory_client: inventory_client }));
    proof {
        assert(saga.steps_spec() =~= seq![
            ConfirmSagaStep::UpdateStatusToCompleted(UpdateStatusToCompletedStep { order_repo: order_repo }),
            ConfirmSagaStep::TransferEarnings(TransferEarningsStep { wallet_client: wallet_client }),
            ConfirmSagaStep::SendConfirmationProduct(SendConfirmationProductStep { inventory_client: inventory_client }),
        ]);
    }
    saga
}

} // verus!
