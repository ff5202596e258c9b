//! The cancellation saga: mark the order REFUNDING (when the caller may
//! cancel it), release its stock, then refund the buyer unless the order
//! was never paid.

use vstd::prelude::*;
use crate::clients::order_description;
use crate::error::{AppError, AppErrorView, not_found};
use crate::ids::{uuid_text, uuid_to_string};
use crate::models::order::Order;
use crate::models::order_state::{OrderMachine, OrderStatus, cancel_allowed, cancel_refusal};
use crate::models::role::{Role, role_name};
use crate::models::order::UpdateOrderParams;
use crate::orchestrator::checkout::{json_uuid_field, json_uuid_field_spec};
use crate::orchestrator::steps::{OrderUpdate, StockRequest, WalletRequest, is_update};
use crate::orchestrator::engine::SagaOrchestrator;
use crate::text::{enclose, owned};

verus! {

/// What the cancellation saga knows and records. Ids are UUID values.
pub struct CancelOrderContext {
    pub order_id: u128,
    pub requester_id: u128,
    pub role: Role,
    pub product_id: u128,
    pub titipers_id: u128,
    /// The order's status when the cancellation was asked for.
    pub status: OrderStatus,
    pub quantity: i32,
    pub total_price: i64,
    pub cancellation_reason: String,
    /// Whether the order has been moved to REFUNDING by this saga.
    pub status_set_to_refunding: bool,
    /// Whether this saga has released the order's stock.
    pub stock_released: bool,
    /// The order once it has been moved to REFUNDING.
    pub refunding_order: Option<Order>,
}

/// The product whose stock cancelling `o` releases: the one recorded in the
/// order's snapshot when it reads as a UUID there, else the order's product.
pub open spec fn release_target(o: Order) -> u128 {
    match json_uuid_field_spec(o.product_snapshot@, "product_id"@) {
        Some(p) => p,
        None => o.product_id,
    }
}

/// The product whose stock cancelling `order` releases; see [`release_target`].
pub fn release_target_of(order: &Order) -> (r: u128)
    ensures
        r == release_target(*order),
{
    crate::handlers::order::released_product(json_uuid_field(order.product_snapshot.as_str(), "product_id"), order.product_id)
}

/// The context with which the cancellation saga starts for `order`, asked
/// for by `requester_id` acting as `role` with `reason`: the order's ids,
/// status, quantity and total, the product from [`release_target`], and
/// nothing done yet.
pub fn cancel_context(order: &Order, requester_id: u128, role: Role, reason: String) -> (c:
    CancelOrderContext)
    ensures
        c == (CancelOrderContext {
            order_id: order.order_id,
            requester_id,
            role,
            product_id: release_target(*order),
            titipers_id: order.titipers_id,
            status: order.status,
            quantity: order.quantity,
            total_price: order.total_price,
            cancellation_reason: reason,
            status_set_to_refunding: false,
            stock_released: false,
            refunding_order: None,
        }),
{
    CancelOrderContext {
        order_id: order.order_id,
        requester_id,
        role,
        product_id: release_target_of(order),
        titipers_id: order.titipers_id,
        status: order.status,
        quantity: order.quantity,
        total_price: order.total_price,
        cancellation_reason: reason,
        status_set_to_refunding: false,
        stock_released: false,
        refunding_order: None,
    }
}

/// How the service cancels an order left unpaid past its payment window:
/// only a PENDING order, to CANCELLED, recorded as done by the system with
/// the timeout reason, and its reserved stock released (the product from
/// [`release_target`], the order, its quantity).
pub fn expiry_cancellation(order: &Order) -> (r: Option<
    (OrderStatus, UpdateOrderParams<'static>, StockRequest),
>)
    ensures
        r is Some <==> order.status == OrderStatus::Pending,
        r matches Some(u) ==> u.0 == OrderStatus::Cancelled && u.1.changed_by@ == "system"@
            && *u.1.actor_role == Role::System && u.1.notes == Some(
            "Order dibatalkan otomatis karena melewati batas waktu pembayaran",
        ) && u.1.tracking_number is None && u.1.courier is None && u.1.cancellation_reason
            == Some("Timeout 15 menit, auto-cancel") && u.2 == (StockRequest {
            product_id: release_target(*order),
            order_id: order.order_id,
            quantity: order.quantity,
        }),
{
    match order.status {
        OrderStatus::Pending => Some(
            (
                OrderStatus::Cancelled,
                UpdateOrderParams {
                    changed_by: "system",
                    actor_role: &Role::System,
                    notes: Some("Order dibatalkan otomatis karena melewati batas waktu pembayaran"),
                    tracking_number: None,
                    courier: None,
                    cancellation_reason: Some("Timeout 15 menit, auto-cancel"),
                },
                StockRequest {
                    product_id: release_target_of(order),
                    order_id: order.order_id,
                    quantity: order.quantity,
                },
            ),
        ),
        _ => None,
    }
}

/// Marks the order REFUNDING, after checking that the caller's role may
/// cancel it in its current status; compensated by putting it back to PENDING.
pub struct UpdateStatusToRefundingStep<R> {
    pub order_repo: R,
}

/// The refusal or change that follows from the order found for a cancellation.
pub open spec fn refunding_change_spec(ctx: CancelOrderContext, found: Option<OrderStatus>) -> Result<(), AppErrorView> {
    match found {
        None => Err(AppErrorView::NotFound("Pesanan tidak ditemukan"@)),
        Some(s) => if cancel_allowed(s, ctx.role) {
            Ok(())
        } else {
            Err(cancel_refusal(s))
        },
    }
}

impl<R> UpdateStatusToRefundingStep<R> {
    /// The step's name.
    pub fn name(&self) -> (r: &'static str)
        ensures
            r@ == "update_status_to_refunding"@,
    {
        "update_status_to_refunding"
    }

    /// After the order has been looked up: refuses when it does not exist or
    /// the caller's role may not cancel it in its status, and otherwise gives
    /// the change to make: the order to REFUNDING, recorded as made by the
    /// caller under their role, noting who cancelled, with the reason given.
    pub fn to_refunding(&self, ctx: &CancelOrderContext, found: Option<OrderStatus>) -> (r: Result<
        OrderUpdate,
        AppError,
    >)
        ensures
            match r {
                Ok(u) => refunding_change_spec(*ctx, found) is Ok && is_update(
                    u,
                    ctx.order_id,
                    OrderStatus::Refunding,
                    uuid_text(ctx.requester_id),
                    ctx.role,
                    "Order dibatalkan oleh "@ + role_name(ctx.role),
                    Some(ctx.cancellation_reason@),
                ),
                Err(e) => refunding_change_spec(*ctx, found) == Err::<(), AppErrorView>(e@),
            },
    {
        let s = match found {
            None => return Err(not_found("Pesanan tidak ditemukan")),
            Some(s) => s,
        };
        let machine = OrderMachine::from_status(&s);
        match machine.cancel(&ctx.role) {
            Ok(()) => {},
            Err(e) => return Err(e),
        }
        proof {
            reveal_strlit("");
        }
        let notes = enclose("Order dibatalkan oleh ", ctx.role.as_str(), "");
        assert(notes@ =~= "Order dibatalkan oleh "@ + role_name(ctx.role));
        Ok(
            OrderUpdate {
                order_id: ctx.order_id,
                status: OrderStatus::Refunding,
                changed_by: uuid_to_string(ctx.requester_id),
                actor_role: ctx.role,
                notes: Some(notes),
                tracking_number: None,
                courier: None,
                cancellation_reason: Some(ctx.cancellation_reason.clone()),
            },
        )
    }

    /// Records the updated order on success; a failure is the step's failure.
    pub fn record_refunding(&self, ctx: &mut CancelOrderContext, outcome: Result<Order, AppError>) -> (r:
        Result<(), AppError>)
        ensures
            outcome is Ok <==> r is Ok,
            outcome matches Err(e) ==> r == Err::<(), AppError>(e),
            outcome matches Ok(o) ==> *final(ctx) == (CancelOrderContext {
                status_set_to_refunding: true,
                refunding_order: Some(o),
                ..*old(ctx)
            }),
            outcome is Err ==> *final(ctx) == *old(ctx),
    {
        match outcome {
            Ok(o) => {
                ctx.status_set_to_refunding = true;
                ctx.refunding_order = Some(o);
                Ok(())
            },
            Err(e) => Err(e),
        }
    }

    /// The compensating change, only when this saga moved the order to
    /// REFUNDING: back to PENDING, by the system.
    pub fn back_to_pending(&self, ctx: &CancelOrderContext) -> (r: Option<OrderUpdate>)
        ensures
            r is Some <==> ctx.status_set_to_refunding,
            r matches Some(u) ==> is_update(
                u,
                ctx.order_id,
                OrderStatus::Pending,
                "system"@,
                Role::System,
                "Revert REFUNDING → PENDING karena proses cancel gagal"@,
                None,
            ),
    {
        if !ctx.status_set_to_refunding {
            return None;
        }
        Some(
            OrderUpdate {
                order_id: ctx.order_id,
                status: OrderStatus::Pending,
                changed_by: owned("system"),
                actor_role: Role::System,
                notes: Some(owned("Revert REFUNDING → PENDING karena proses cancel gagal")),
                tracking_number: None,
                courier: None,
                cancellation_reason: None,
            },
        )
    }

    /// Records the compensation's outcome: on success the order no longer
    /// counts as moved to REFUNDING; a failure changes nothing.
    pub fn record_back_to_pending(&self, ctx: &mut CancelOrderContext, outcome: Result<(), AppError>) -> (r:
        Result<(), AppError>)
        ensures
            r == outcome,
            outcome is Ok ==> *final(ctx) == (CancelOrderContext {
                status_set_to_refunding: false,
                refunding_order: None,
                ..*old(ctx)
            }),
            outcome is Err ==> *final(ctx) == *old(ctx),
    {
        if outcome.is_ok() {
            ctx.status_set_to_refunding = false;
            ctx.refunding_order = None;
        }
        outcome
    }
}

/// The stock movement of a cancellation (released, and re-reserved by the
/// compensation).
pub open spec fn cancel_stock_request(ctx: CancelOrderContext) -> StockRequest {
    StockRequest { product_id: ctx.product_id, order_id: ctx.order_id, quantity: ctx.quantity }
}

/// Releases the order's stock; compensated by reserving it again.
pub struct ReleaseStockStep<I> {
    pub inventory_client: I,
}

impl<I> ReleaseStockStep<I> {
    /// The step's name.
    pub fn name(&self) -> (r: &'static str)
        ensures
            r@ == "release_stock"@,
    {
        "release_stock"
    }

    /// The release to make.
    pub fn release(&self, ctx: &CancelOrderContext) -> (r: StockRequest)
        ensures
            r == cancel_stock_request(*ctx),
    {
        StockRequest { product_id: ctx.product_id, order_id: ctx.order_id, quantity: ctx.quantity }
    }

    /// Records the release's outcome: on success the stock counts as released.
    pub fn record_release(&self, ctx: &mut CancelOrderContext, outcome: Result<(), AppError>) -> (r:
        Result<(), AppError>)
        ensures
            r == outcome,
            outcome is Ok ==> *final(ctx) == (CancelOrderContext { stock_released: true, ..*old(ctx) }),
            outcome is Err ==> *final(ctx) == *old(ctx),
    {
        if outcome.is_ok() {
            ctx.stock_released = true;
        }
        outcome
    }

    /// The compensating reservation: the same product, order and quantity,
    /// and only when this saga released the stock.
    pub fn re_reserve(&self, ctx: &CancelOrderContext) -> (r: Option<StockRequest>)
        ensures
            ctx.stock_released ==> r == Some(cancel_stock_request(*ctx)),
            !ctx.stock_released ==> r is None,
    {
        if !ctx.stock_released {
            return None;
        }
        Some(StockRequest { product_id: ctx.product_id, order_id: ctx.order_id, quantity: ctx.quantity })
    }

    /// Records the compensation's outcome: on success the stock no longer
    /// counts as released.
    pub fn record_re_reserve(&self, ctx: &mut CancelOrderContext, outcome: Result<(), AppError>) -> (r:
        Result<(), AppError>)
        ensures
            r == outcome,
            outcome is Ok ==> *final(ctx) == (CancelOrderContext { stock_released: false, ..*old(ctx) }),
            outcome is Err ==> *final(ctx) == *old(ctx),
    {
        if outcome.is_ok() {
            ctx.stock_released = false;
        }
        outcome
    }
}

/// Asks the wallet service to refund the buyer, unless the order was still
/// PENDING (and so never paid). Nothing is compensated: a failed refund
/// request changed nothing.
pub struct RefundWalletStep<W> {
    pub wallet_client: W,
}

impl<W> RefundWalletStep<W> {
    /// The step's name.
    pub fn name(&self) -> (r: &'static str)
        ensures
            r@ == "refund_wallet"@,
    {
        "refund_wallet"
    }

    /// The refund to ask for: none for an order that was PENDING; otherwise
    /// the order's total back to the buyer, described as the order's refund.
    pub fn refund(&self, ctx: &CancelOrderContext) -> (r: Option<WalletRequest>)
        ensures
            r is None <==> ctx.status == OrderStatus::Pending,
            r matches Some(w) ==> w.user_id == ctx.titipers_id && w.order_id == ctx.order_id
                && w.amount == ctx.total_price && w.description@ == "Refund Order #"@ + uuid_text(
                ctx.order_id,
            ) + " — dibatalkan"@,
    {
        if ctx.status == OrderStatus::Pending {
            return None;
        }
        Some(
            WalletRequest {
                user_id: ctx.titipers_id,
                order_id: ctx.order_id,
                amount: ctx.total_price,
                description: order_description("Refund Order #", ctx.order_id, " — dibatalkan"),
            },
        )
    }
}

/// A step of the cancel_order saga.
pub enum CancelSagaStep<R, I, W> {
    UpdateStatusToRefunding(UpdateStatusToRefundingStep<R>),
    ReleaseStock(ReleaseStockStep<I>),
    RefundWallet(RefundWalletStep<W>),
}

/// The cancellation saga, named `cancel_order`: mark the order REFUNDING, release its stock, then refund the buyer.
pub fn cancel_saga<R, I, W>(order_repo: R, inventory_client: I, wallet_client: W) -> (s: SagaOrchestrator<CancelSagaStep<R, I, W>>)
    ensures
        s.name_spec() == "cancel_order"@,
        s.steps_spec() == seq![
            CancelSagaStep::UpdateStatusToRefunding(UpdateStatusToRefundingStep { order_repo: order_repo }),
            CancelSagaStep::ReleaseStock(ReleaseStockStep { inventory_client: inventory_client }),
            CancelSagaStep::RefundWallet(RefundWalletStep { wallet_client: wallet_client }),
        ],
{
    let saga = SagaOrchestrator::new("cancel_order");
    let saga = saga.step(CancelSagaStep::UpdateStatusToRefunding(UpdateStatusToRefundingStep { order_repo: order_repo }));
    let saga = saga.step(CancelSagaStep::ReleaseStock(ReleaseStockStep { inventory_client: inventory_client }));
    let saga = saga.step(CancelSagaStep::RefundWallet(RefundWalletStep { wallet_client: wallet_client }));
    proof {
        assert(saga.steps_spec() =~= seq![
            CancelSagaStep::UpdateStatusToRefunding(UpdateStatusToRefundingStep { order_repo: order_repo }),
            CancelSagaStep::ReleaseStock(ReleaseStockStep { inventory_client: inventory_client }),
            CancelSagaStep::RefundWallet(RefundWalletStep { wallet_client: wallet_client }),
        ]);
    }
    saga
}

} // verus!
