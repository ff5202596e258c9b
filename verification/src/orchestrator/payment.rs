//! The payment saga: take the order's total from the buyer's wallet, then
//! mark the order PAID (steps registered in the order the caller chooses).

use vstd::prelude::*;
use crate::clients::order_description;
use crate::error::AppError;
use crate::ids::{uuid_text, uuid_to_string};
use crate::models::order::Order;
use crate::models::order_state::OrderStatus;
use crate::models::role::Role;
use crate::orchestrator::steps::{OrderUpdate, WalletRequest, is_update};
use crate::orchestrator::engine::SagaOrchestrator;
use crate::text::owned;

verus! {

/// What the payment saga knows and records. Ids are UUID values.
pub struct PaymentContext {
    pub titipers_id: u128,
    pub order_id: u128,
    pub total_price: i64,
    /// The wallet transaction of the payment, once taken.
    pub wallet_transaction_id: Option<String>,
    /// The order once it has been marked PAID.
    pub updated_order: Option<Order>,
}

/// Marks the order PAID; compensated by putting it back to PENDING.
pub struct UpdateStatusToPaidStep<R> {
    pub order_repo: R,
}

impl<R> UpdateStatusToPaidStep<R> {
    /// The step's name.
    pub fn name(&self) -> (r: &'static str)
        ensures
            r@ == "update_status_to_paid"@,
    {
        "update_status_to_paid"
    }

    /// The change to make: the order to PAID, recorded as made by the buyer
    /// under the SYSTEM role.
    pub fn to_paid(&self, ctx: &PaymentContext) -> (r: OrderUpdate)
        ensures
            is_update(
                r,
                ctx.order_id,
                OrderStatus::Paid,
                uuid_text(ctx.titipers_id),
                Role::System,
                "Pembayaran berhasil dilakukan titipers"@,
                None,
            ),
    {
        OrderUpdate {
            order_id: ctx.order_id,
            status: OrderStatus::Paid,
            changed_by: uuid_to_string(ctx.titipers_id),
            actor_role: Role::System,
            notes: Some(owned("Pembayaran berhasil dilakukan titipers")),
            tracking_number: None,
            courier: None,
            cancellation_reason: None,
        }
    }

    /// Records the updated order on success; a failure is the step's failure.
    pub fn record_paid(&self, ctx: &mut PaymentContext, outcome: Result<Order, AppError>) -> (r:
        Result<(), AppError>)
        ensures
            outcome is Ok <==> r is Ok,
            outcome matches Err(e) ==> r == Err::<(), AppError>(e),
            outcome matches Ok(o) ==> *final(ctx) == (PaymentContext {
                updated_order: Some(o),
                ..*old(ctx)
            }),
            outcome is Err ==> *final(ctx) == *old(ctx),
    {
        match outcome {
            Ok(o) => {
                ctx.updated_order = Some(o);
                Ok(())
            },
            Err(e) => Err(e),
        }
    }

    /// The compensating change: the order back to PENDING, by the system.
    pub fn back_to_pending(&self, ctx: &PaymentContext) -> (r: OrderUpdate)
        ensures
            is_update(
                r,
                ctx.order_id,
                OrderStatus::Pending,
                "system"@,
                Role::System,
                "Revert PAID → PENDING karena deduct wallet gagal"@,
                None,
            ),
    {
        OrderUpdate {
            order_id: ctx.order_id,
            status: OrderStatus::Pending,
            changed_by: owned("system"),
            actor_role: Role::System,
            notes: Some(owned("Revert PAID → PENDING karena deduct wallet gagal")),
            tracking_number: None,
            courier: None,
            cancellation_reason: None,
        }
    }
}

/// Takes the order's total from the buyer's wallet. Nothing is compensated:
/// a failed deduction has taken nothing.
pub struct DeductWalletStep<W> {
    pub wallet_client: W,
}

impl<W> DeductWalletStep<W> {
    /// The step's name.
    pub fn name(&self) -> (r: &'static str)
        ensures
            r@ == "deduct_wallet"@,
    {
        "deduct_wallet"
    }

    /// The deduction to make: the buyer pays the order's total, described
    /// as the payment of the order.
    pub fn deduction(&self, ctx: &PaymentContext) -> (r: WalletRequest)
        ensures
            r.user_id == ctx.titipers_id,
            r.order_id == ctx.order_id,
            r.amount == ctx.total_price,
            r.description@ == "Pembayaran Order #"@ + uuid_text(ctx.order_id) + ""@,
    {
        WalletRequest {
            user_id: ctx.titipers_id,
            order_id: ctx.order_id,
            amount: ctx.total_price,
            description: order_description("Pembayaran Order #", ctx.order_id, ""),
        }
    }

    /// Records the wallet transaction on success; a failure is the step's failure.
    pub fn record_deduction(&self, ctx: &mut PaymentContext, outcome: Result<String, AppError>) -> (r:
        Result<(), AppError>)
        ensures
            outcome is Ok <==> r is Ok,
            outcome matches Err(e) ==> r == Err::<(), AppError>(e),
            outcome matches Ok(t) ==> *final(ctx) == (PaymentContext {
                wallet_transaction_id: Some(t),
                ..*old(ctx)
            }),
            outcome is Err ==> *final(ctx) == *old(ctx),
    {
        match outcome {
            Ok(t) => {
                ctx.wallet_transaction_id = Some(t);
                Ok(())
            },
            Err(e) => Err(e),
        }
    }
}

/// A step of the payment saga.
pub enum PaymentSagaStep<W, R> {
    DeductWallet(DeductWalletStep<W>),
    UpdateStatusToPaid(UpdateStatusToPaidStep<R>),
}

/// The payment saga, named `payment`: take the payment from the buyer's wallet, then mark the order PAID.
pub fn payment_saga<W, R>(wallet_client: W, order_repo: R) -> (s: SagaOrchestrator<PaymentSagaStep<W, R>>)
    ensures
        s.name_spec() == "payment"@,
        s.steps_spec() == seq![
            PaymentSagaStep::DeductWallet(DeductWalletStep { wallet_client: wallet_client }),
            PaymentSagaStep::UpdateStatusToPaid(UpdateStatusToPaidStep { order_repo: order_repo }),
        ],
{
    let saga = SagaOrchestrator::new("payment");
    let saga = saga.step(PaymentSagaStep::DeductWallet(DeductWalletStep { wallet_client: wallet_client }));
    let saga = saga.step(PaymentSagaStep::UpdateStatusToPaid(UpdateStatusToPaidStep { order_repo: order_repo }));
    proof {
        assert(saga.steps_spec() =~= seq![
            PaymentSagaStep::DeductWallet(DeductWalletStep { wallet_client: wallet_client }),
            PaymentSagaStep::UpdateStatusToPaid(UpdateStatusToPaidStep { order_repo: order_repo }),
        ]);
    }
    saga
}

} // verus!
