//! Rules of the order endpoints: who may see, change and cancel an order,
//! how a checkout is priced, and what is undone when a checkout fails.

use vstd::prelude::*;
use crate::error::{AppError, AppErrorView, forbidden, not_found, unprocessable};
use crate::models::cancelled_by::CancelledBy;
use crate::models::filter_pagination::OrderFilter;
use crate::models::order::{Order, PriceBreakdown};
use crate::models::order_state::{OrderMachine, OrderStatus, status_name, transition_allowed};
use crate::models::role::{Role, parse_role};
use crate::text::{opt_str_view, owned};
use crate::clients::order_description;
use crate::ids::uuid_text;
use crate::orchestrator::cancel::{release_target, release_target_of};
use crate::orchestrator::steps::{StockRequest, WalletRequest};
use crate::text::str_eq;

verus! {

/// The order, or a `NotFound` refusal when there is none.
pub fn order_or_not_found(order: Option<Order>) -> (r: Result<Order, AppError>)
    ensures
        match order {
            Some(o) => r == Ok::<Order, AppError>(o),
            None => r matches Err(e) && e@ == AppErrorView::NotFound("Pesanan tidak ditemukan"@),
        },
{
    match order {
        Some(o) => Ok(o),
        None => Err(not_found("Pesanan tidak ditemukan")),
    }
}

/// Lets a caller see an order only when the caller is its buyer or its seller.
pub fn check_order_access(titipers_id: u128, jastiper_id: u128, requester_id: u128) -> (r: Result<
    (),
    AppError,
>)
    ensures
        r is Ok <==> (requester_id == titipers_id || requester_id == jastiper_id),
        r matches Err(e) ==> e@ == AppErrorView::Forbidden(
            "Anda tidak memiliki akses ke pesanan ini"@,
        ),
{
    if titipers_id != requester_id && jastiper_id != requester_id {
        return Err(forbidden("Anda tidak memiliki akses ke pesanan ini"));
    }
    Ok(())
}

/// Refuses a checkout in which the seller would buy their own product.
pub fn check_not_own_product(titipers_id: u128, jastiper_id: u128) -> (r: Result<(), AppError>)
    ensures
        r is Ok <==> titipers_id != jastiper_id,
        r matches Err(e) ==> e@ == AppErrorView::Forbidden(
            "Jastiper tidak dapat membeli produk milik sendiri"@,
        ),
{
    if titipers_id == jastiper_id {
        return Err(forbidden("Jastiper tidak dapat membeli produk milik sendiri"));
    }
    Ok(())
}

/// A price read from the product, 0 when the product gives none.
pub open spec fn price_or_zero(p: Option<i64>) -> int {
    match p {
        Some(v) => v as int,
        None => 0,
    }
}

/// The total of an order: unit price plus service fee, times the quantity.
pub open spec fn order_total(unit_price: Option<i64>, service_fee: Option<i64>, quantity: i32) -> int {
    (price_or_zero(unit_price) + price_or_zero(service_fee)) * quantity
}

/// Prices an order from the product's price and service fee (0 when the
/// product gives none) and the quantity. The sum and the total must fit in an `i64`.
pub fn price_breakdown(unit_price: Option<i64>, service_fee: Option<i64>, quantity: i32) -> (r:
    PriceBreakdown)
    requires
        i64::MIN <= price_or_zero(unit_price) + price_or_zero(service_fee) <= i64::MAX,
        i64::MIN <= order_total(unit_price, service_fee, quantity) <= i64::MAX,
    ensures
        r.unit_price == price_or_zero(unit_price),
        r.service_fee == price_or_zero(service_fee),
        r.total_price == order_total(unit_price, service_fee, quantity),
{
    let unit: i64 = match unit_price {
        Some(v) => v,
        None => 0,
    };
    let fee: i64 = match service_fee {
        Some(v) => v,
        None => 0,
    };
    let per_item: i64 = unit + fee;
    let q: i64 = quantity as i64;
    let total: i64 = per_item * q;
    PriceBreakdown { unit_price: unit, service_fee: fee, total_price: total }
}

/// The stage of a direct checkout that failed.
#[derive(Clone, Copy, Debug, PartialEq, Eq, Structural)]
pub enum CheckoutFailure {
    /// Reserving the stock failed.
    ReserveStock,
    /// Taking the payment from the buyer's wallet failed.
    DeductWallet,
    /// Saving the order failed.
    SaveOrder,
}

/// What is undone after a direct checkout fails.
#[derive(Clone, Copy, Debug, PartialEq, Eq, Structural)]
pub enum CheckoutUndo {
    /// Release the reserved stock.
    ReleaseStock,
    /// Give the payment back to the buyer.
    RefundWallet,
}

/// What is undone, in order, after a direct checkout fails at `stage`:
/// nothing when the reservation failed; the reservation when the payment
/// failed; the reservation and then the payment when saving failed.
pub open spec fn checkout_undo_spec(stage: CheckoutFailure) -> Seq<CheckoutUndo> {
    match stage {
        CheckoutFailure::ReserveStock => seq![],
        CheckoutFailure::DeductWallet => seq![CheckoutUndo::ReleaseStock],
        CheckoutFailure::SaveOrder => seq![CheckoutUndo::ReleaseStock, CheckoutUndo::RefundWallet],
    }
}

/// What is undone, in order, after a direct checkout fails at `stage`.
pub fn checkout_undo(stage: CheckoutFailure) -> (r: Vec<CheckoutUndo>)
    ensures
        r@ == checkout_undo_spec(stage),
{
    let mut v: Vec<CheckoutUndo> = Vec::new();
    match stage {
        CheckoutFailure::ReserveStock => {},
        CheckoutFailure::DeductWallet => {
            v.push(CheckoutUndo::ReleaseStock);
        },
        CheckoutFailure::SaveOrder => {
            v.push(CheckoutUndo::ReleaseStock);
            v.push(CheckoutUndo::RefundWallet);
        },
    }
    proof {
        assert(v@ =~= checkout_undo_spec(stage));
    }
    v
}

/// The calls of a direct checkout: the stock reservation (which the release
/// undoing it repeats), the payment from the buyer's wallet, and the refund
/// that undoes the payment.
pub struct DirectCheckoutCalls {
    pub stock: StockRequest,
    pub deduct: WalletRequest,
    pub refund: WalletRequest,
}

/// The calls a direct checkout of `quantity` of `product_id` by
/// `titipers_id` makes for order `order_id` with total `total_price`: the
/// reservation and release of that product, order and quantity; the payment
/// of the total, described `Pembayaran Order #<order>`; and its refund,
/// described `Refund Order #<order> - gagal menyimpan pesanan`. Which of the
/// undoing calls are made, and in what order, is [`checkout_undo`]'s; the
/// checkout then fails with the error of the call that failed.
pub fn direct_checkout_calls(
    titipers_id: u128,
    order_id: u128,
    product_id: u128,
    quantity: i32,
    total_price: i64,
) -> (r: DirectCheckoutCalls)
    ensures
        r.stock == (StockRequest { product_id, order_id, quantity }),
        r.deduct.user_id == titipers_id && r.deduct.order_id == order_id && r.deduct.amount
            == total_price && r.deduct.description@ == "Pembayaran Order #"@ + uuid_text(order_id)
            + ""@,
        r.refund.user_id == titipers_id && r.refund.order_id == order_id && r.refund.amount
            == total_price && r.refund.description@ == "Refund Order #"@ + uuid_text(order_id)
            + " - gagal menyimpan pesanan"@,
{
    DirectCheckoutCalls {
        stock: StockRequest { product_id, order_id, quantity },
        deduct: WalletRequest {
            user_id: titipers_id,
            order_id,
            amount: total_price,
            description: order_description("Pembayaran Order #", order_id, ""),
        },
        refund: WalletRequest {
            user_id: titipers_id,
            order_id,
            amount: total_price,
            description: order_description("Refund Order #", order_id, " - gagal menyimpan pesanan"),
        },
    }
}

/// The calls a direct cancellation makes once the cancelled order is
/// written: the release of its stock and the refund to its buyer.
pub struct DirectCancelCalls {
    pub release: StockRequest,
    pub refund: WalletRequest,
}

/// The follow-up calls of a direct cancellation, for the order `updated` as
/// written: each is asked once, its failure is ignored, and the
/// cancellation answers with `updated`. The release is of the product from
/// [`release_target`] (the snapshot's product, else the order's), for the
/// order and its quantity; the refund gives the order's total back to its
/// buyer, described `Refund Order #<order> - pesanan dibatalkan`.
pub fn direct_cancel_calls(updated: &Order) -> (r: DirectCancelCalls)
    ensures
        r.release == (StockRequest {
            product_id: release_target(*updated),
            order_id: updated.order_id,
            quantity: updated.quantity,
        }),
        r.refund.user_id == updated.titipers_id && r.refund.order_id == updated.order_id
            && r.refund.amount == updated.total_price && r.refund.description@
            == "Refund Order #"@ + uuid_text(updated.order_id) + " - pesanan dibatalkan"@,
{
    DirectCancelCalls {
        release: StockRequest {
            product_id: release_target_of(updated),
            order_id: updated.order_id,
            quantity: updated.quantity,
        },
        refund: WalletRequest {
            user_id: updated.titipers_id,
            order_id: updated.order_id,
            amount: updated.total_price,
            description: order_description(
                "Refund Order #",
                updated.order_id,
                " - pesanan dibatalkan",
            ),
        },
    }
}

/// Whether a caller acting under role name `role` may move an order to
/// `next`: a seller moves their own orders to PURCHASED or SHIPPED, a buyer
/// moves their own order to COMPLETED, and an admin may ask for any status.
pub open spec fn update_permitted(
    next: OrderStatus,
    role: Seq<char>,
    titipers_id: u128,
    jastiper_id: u128,
    requester_id: u128,
) -> bool {
    if (next == OrderStatus::Purchased || next == OrderStatus::Shipped) && role == "JASTIPER"@ {
        jastiper_id == requester_id
    } else if next == OrderStatus::Completed && role == "TITIPERS"@ {
        titipers_id == requester_id
    } else {
        role == "ADMIN"@
    }
}

/// The refusal for a status change the caller may not ask for.
pub open spec fn update_refusal_for(next: OrderStatus, role: Seq<char>) -> AppErrorView {
    if (next == OrderStatus::Purchased || next == OrderStatus::Shipped) && role == "JASTIPER"@ {
        AppErrorView::Forbidden("Hanya jastiper pemilik produk yang dapat mengubah status ini"@)
    } else if next == OrderStatus::Completed && role == "TITIPERS"@ {
        AppErrorView::Forbidden(
            "Hanya titipers pemilik order yang dapat mengkonfirmasi penerimaan"@,
        )
    } else {
        AppErrorView::Forbidden("Role Anda tidak memiliki izin untuk transisi status ini"@)
    }
}

/// Checks that the caller may ask to move the order to `next`; see
/// [`update_permitted`].
pub fn check_update_permission(
    next: OrderStatus,
    role: &str,
    titipers_id: u128,
    jastiper_id: u128,
    requester_id: u128,
) -> (r: Result<(), AppError>)
    ensures
        r is Ok <==> update_permitted(next, role@, titipers_id, jastiper_id, requester_id),
        r matches Err(e) ==> e@ == update_refusal_for(next, role@),
{
    proof {
        reveal_strlit("JASTIPER");
        reveal_strlit("TITIPERS");
        reveal_strlit("ADMIN");
        assert("JASTIPER"@[0] != "ADMIN"@[0]);
        assert("TITIPERS"@[0] != "ADMIN"@[0]);
    }
    let is_jastiper = str_eq(role, "JASTIPER");
    let is_titipers = str_eq(role, "TITIPERS");
    let is_admin = str_eq(role, "ADMIN");
    if (next == OrderStatus::Purchased || next == OrderStatus::Shipped) && is_jastiper {
        if jastiper_id != requester_id {
            return Err(forbidden("Hanya jastiper pemilik produk yang dapat mengubah status ini"));
        }
        Ok(())
    } else if next == OrderStatus::Completed && is_titipers {
        if titipers_id != requester_id {
            return Err(
                forbidden("Hanya titipers pemilik order yang dapat mengkonfirmasi penerimaan"),
            );
        }
        Ok(())
    } else if is_admin {
        Ok(())
    } else {
        Err(forbidden("Role Anda tidak memiliki izin untuk transisi status ini"))
    }
}

/// The one status an order in status `from` may be moved to by `role`, if any.
pub open spec fn next_status(from: OrderStatus, role: Role) -> Option<OrderStatus> {
    match from {
        OrderStatus::Pending => if role == Role::System {
            Some(OrderStatus::Paid)
        } else {
            None
        },
        OrderStatus::Paid => if role == Role::Jastiper || role == Role::Admin {
            Some(OrderStatus::Purchased)
        } else {
            None
        },
        OrderStatus::Purchased => if role == Role::Jastiper || role == Role::Admin {
            Some(OrderStatus::Shipped)
        } else {
            None
        },
        OrderStatus::Shipped => if role == Role::Titipers || role == Role::Admin {
            Some(OrderStatus::Completed)
        } else {
            None
        },
        OrderStatus::Refunding => if role == Role::System || role == Role::Admin {
            Some(OrderStatus::Completed)
        } else {
            None
        },
        OrderStatus::RefundFailed => if role == Role::Admin {
            Some(OrderStatus::Completed)
        } else {
            None
        },
        _ => None,
    }
}

/// The names of the statuses `role` may move an order in status `from` to.
pub open spec fn valid_transition_names(from: OrderStatus, role: Role) -> Seq<Seq<char>> {
    match next_status(from, role) {
        Some(s) => seq![status_name(s)],
        None => seq![],
    }
}

/// Whether a request to ship an order lacks its tracking number or courier.
pub open spec fn shipment_details_missing(
    next: OrderStatus,
    tracking_number: Option<Seq<char>>,
    courier: Option<Seq<char>>,
) -> bool {
    next == OrderStatus::Shipped && (tracking_number is None || courier is None)
}

/// How a request to move an order to `next` is answered, in this order:
/// 404 when the order does not exist, 403 when the caller may not ask for
/// `next` (see [`update_permitted`]), 400 when a shipment lacks its
/// tracking number or courier, 422 with the current, requested and valid
/// statuses when the lifecycle does not allow the change; otherwise the
/// order moves to `next`.
pub open spec fn status_update_plan(
    next: OrderStatus,
    role: Seq<char>,
    order: Option<Order>,
    requester_id: u128,
    tracking_number: Option<Seq<char>>,
    courier: Option<Seq<char>>,
) -> Result<OrderStatus, AppErrorView> {
    match order {
        None => Err(AppErrorView::NotFound("Pesanan tidak ditemukan"@)),
        Some(o) => if !update_permitted(next, role, o.titipers_id, o.jastiper_id, requester_id) {
            Err(update_refusal_for(next, role))
        } else if shipment_details_missing(next, tracking_number, courier) {
            Err(AppErrorView::Validation("tracking_number dan courier wajib diisi untuk status SHIPPED"@))
        } else {
            match parse_role(role) {
                Some(r) => if transition_allowed(o.status, r, next) {
                    Ok(next)
                } else {
                    Err(
                        AppErrorView::InvalidStatusTransition {
                            current: status_name(o.status),
                            requested: status_name(next),
                            valid: valid_transition_names(o.status, r),
                        },
                    )
                },
                None => Err(update_refusal_for(next, role)),
            }
        },
    }
}

/// A shipment needs both its tracking number and its courier: when the order
/// exists and the caller may ask for SHIPPED, a request lacking either one
/// is refused with 400, whatever the other one is; and an accepted request
/// for SHIPPED always carries both.
pub proof fn lemma_shipping_needs_tracking_and_courier(
    role: Seq<char>,
    o: Order,
    requester_id: u128,
    given: Option<Seq<char>>,
    tracking_number: Option<Seq<char>>,
    courier: Option<Seq<char>>,
)
    ensures
        update_permitted(OrderStatus::Shipped, role, o.titipers_id, o.jastiper_id, requester_id)
            ==> status_update_plan(OrderStatus::Shipped, role, Some(o), requester_id, given, None)
            == Err::<OrderStatus, AppErrorView>(
            AppErrorView::Validation("tracking_number dan courier wajib diisi untuk status SHIPPED"@),
        ),
        update_permitted(OrderStatus::Shipped, role, o.titipers_id, o.jastiper_id, requester_id)
            ==> status_update_plan(OrderStatus::Shipped, role, Some(o), requester_id, None, given)
            == Err::<OrderStatus, AppErrorView>(
            AppErrorView::Validation("tracking_number dan courier wajib diisi untuk status SHIPPED"@),
        ),
        status_update_plan(OrderStatus::Shipped, role, Some(o), requester_id, tracking_number, courier) is Ok
            ==> tracking_number is Some && courier is Some,
{
}

/// A status change that is granted is exactly the one asked for, the
/// lifecycle allows it for the caller's role, and the order exists.
pub proof fn lemma_granted_update_follows_lifecycle(
    next: OrderStatus,
    role: Seq<char>,
    order: Option<Order>,
    requester_id: u128,
    tracking_number: Option<Seq<char>>,
    courier: Option<Seq<char>>,
)
    ensures
        status_update_plan(next, role, order, requester_id, tracking_number, courier) matches Ok(s)
            ==> s == next,
        status_update_plan(next, role, order, requester_id, tracking_number, courier) is Ok
            ==> (order matches Some(o) && (parse_role(role) matches Some(r) && transition_allowed(
            o.status,
            r,
            next,
        ))),
{
}

/// The status [`next_status`] names is exactly the one the lifecycle allows:
/// a refused change lists the only status that would have been accepted.
pub proof fn lemma_next_status_is_the_allowed_one(from: OrderStatus, role: Role, next: OrderStatus)
    ensures
        transition_allowed(from, role, next) <==> next_status(from, role) == Some(next),
{
}

/// The names of the statuses `role` may move an order in status `from` to.
fn valid_transitions(from: OrderStatus, role: Role) -> (r: Vec<String>)
    ensures
        r@.map_values(|s: String| s@) == valid_transition_names(from, role),
{
    let mut v: Vec<String> = Vec::new();
    let next: Option<OrderStatus> = match from {
        OrderStatus::Pending => if role == Role::System {
            Some(OrderStatus::Paid)
        } else {
            None
        },
        OrderStatus::Paid => if role == Role::Jastiper || role == Role::Admin {
            Some(OrderStatus::Purchased)
        } else {
            None
        },
        OrderStatus::Purchased => if role == Role::Jastiper || role == Role::Admin {
            Some(OrderStatus::Shipped)
        } else {
            None
        },
        OrderStatus::Shipped => if role == Role::Titipers || role == Role::Admin {
            Some(OrderStatus::Completed)
        } else {
            None
        },
        OrderStatus::Refunding => if role == Role::System || role == Role::Admin {
            Some(OrderStatus::Completed)
        } else {
            None
        },
        OrderStatus::RefundFailed => if role == Role::Admin {
            Some(OrderStatus::Completed)
        } else {
            None
        },
        _ => None,
    };
    match next {
        Some(s) => {
            v.push(owned(s.as_str()));
            assert(v@.map_values(|s: String| s@) =~= seq![status_name(s)]);
        },
        None => {
            assert(v@.map_values(|s: String| s@) =~= Seq::<Seq<char>>::empty());
        },
    }
    v
}

/// Plans a status change asked for by a caller acting under role name
/// `role`; see [`status_update_plan`]. Gives the status to write, or the
/// refusal, and nothing is to be written when it refuses.
pub fn plan_status_update(
    next: OrderStatus,
    role: &str,
    order: Option<&Order>,
    requester_id: u128,
    tracking_number: Option<&str>,
    courier: Option<&str>,
) -> (r: Result<OrderStatus, AppError>)
    ensures
        match r {
            Ok(s) => status_update_plan(
                next,
                role@,
                match order {
                    Some(o) => Some(*o),
                    None => None,
                },
                requester_id,
                opt_str_view(tracking_number),
                opt_str_view(courier),
            ) == Ok::<OrderStatus, AppErrorView>(s),
            Err(e) => status_update_plan(
                next,
                role@,
                match order {
                    Some(o) => Some(*o),
                    None => None,
                },
                requester_id,
                opt_str_view(tracking_number),
                opt_str_view(courier),
            ) == Err::<OrderStatus, AppErrorView>(e@),
        },
{
    let o = match order {
        None => return Err(not_found("Pesanan tidak ditemukan")),
        Some(o) => o,
    };
    match check_update_permission(next, role, o.titipers_id, o.jastiper_id, requester_id) {
        Ok(()) => {},
        Err(e) => return Err(e),
    }
    if next == OrderStatus::Shipped && (tracking_number.is_none() || courier.is_none()) {
        return Err(AppError::Validation(owned("tracking_number dan courier wajib diisi untuk status SHIPPED")));
    }
    let actor = match Role::from_str(role) {
        Ok(a) => a,
        Err(_) => {
            proof {
                reveal_strlit("JASTIPER");
                reveal_strlit("TITIPERS");
                reveal_strlit("ADMIN");
            }
            return Err(forbidden("Role Anda tidak memiliki izin untuk transisi status ini"));
        },
    };
    let mut machine = OrderMachine::from_status(&o.status);
    match machine.update_status(&actor, &next) {
        Ok(s) => Ok(s),
        Err(_) => Err(
            AppError::InvalidStatusTransition {
                current: owned(o.status.as_str()),
                requested: owned(next.as_str()),
                valid: valid_transitions(o.status, actor),
            },
        ),
    }
}

/// Who a cancellation is recorded as made by, and the role name written to
/// the status history, for a caller acting under role name `role`.
pub open spec fn cancel_authorization_spec(
    role: Seq<char>,
    status: OrderStatus,
    titipers_id: u128,
    jastiper_id: u128,
    requester_id: u128,
) -> Result<(CancelledBy, Seq<char>), AppErrorView> {
    if role == "TITIPERS"@ {
        if titipers_id != requester_id {
            Err(AppErrorView::Forbidden("Hanya titipers pemilik order yang dapat membatalkan"@))
        } else if status != OrderStatus::Paid {
            Err(
                AppErrorView::UnprocessableEntity(
                    "Titipers hanya dapat membatalkan pesanan dengan status PAID"@,
                ),
            )
        } else {
            Ok((CancelledBy::Jastiper, "TITIPERS"@))
        }
    } else if role == "JASTIPER"@ {
        if jastiper_id != requester_id {
            Err(AppErrorView::Forbidden("Hanya jastiper pemilik produk yang dapat membatalkan"@))
        } else {
            Ok((CancelledBy::Jastiper, "JASTIPER"@))
        }
    } else if role == "ADMIN"@ {
        Ok((CancelledBy::Admin, "ADMIN"@))
    } else {
        Err(AppErrorView::Forbidden("Role Anda tidak memiliki izin membatalkan pesanan"@))
    }
}

/// A buyer may cancel only an order that has been paid: whatever the other
/// ids, a buyer's cancellation of an order in any other status is refused
/// with 422 "Titipers hanya dapat membatalkan pesanan dengan status PAID",
/// and every cancellation a buyer is granted is of a PAID order.
pub proof fn lemma_buyer_cancels_only_paid_orders(
    status: OrderStatus,
    titipers_id: u128,
    jastiper_id: u128,
    requester_id: u128,
)
    ensures
        status != OrderStatus::Paid ==> cancel_authorization_spec(
            "TITIPERS"@,
            status,
            titipers_id,
            jastiper_id,
            titipers_id,
        ) == Err::<(CancelledBy, Seq<char>), AppErrorView>(
            AppErrorView::UnprocessableEntity(
                "Titipers hanya dapat membatalkan pesanan dengan status PAID"@,
            ),
        ),
        cancel_authorization_spec("TITIPERS"@, status, titipers_id, jastiper_id, requester_id) is Ok
            ==> status == OrderStatus::Paid && requester_id == titipers_id,
{
}

/// Decides whether the caller may cancel the order and how the cancellation
/// is recorded: a buyer only their own PAID order (recorded, as the endpoint
/// does, under the seller's party), a seller their own order, an admin any
/// order; any other role is refused.
pub fn cancel_authorization(
    role: &str,
    status: OrderStatus,
    titipers_id: u128,
    jastiper_id: u128,
    requester_id: u128,
) -> (r: Result<(CancelledBy, &'static str), AppError>)
    ensures
        match r {
            Ok((c, a)) => cancel_authorization_spec(
                role@,
                status,
                titipers_id,
                jastiper_id,
                requester_id,
            ) == Ok::<(CancelledBy, Seq<char>), AppErrorView>((c, a@)),
            Err(e) => cancel_authorization_spec(
                role@,
                status,
                titipers_id,
                jastiper_id,
                requester_id,
            ) == Err::<(CancelledBy, Seq<char>), AppErrorView>(e@),
        },
{
    if str_eq(role, "TITIPERS") {
        if titipers_id != requester_id {
            return Err(forbidden("Hanya titipers pemilik order yang dapat membatalkan"));
        }
        if status != OrderStatus::Paid {
            return Err(
                unprocessable("Titipers hanya dapat membatalkan pesanan dengan status PAID"),
            );
        }
        Ok((CancelledBy::Jastiper, "TITIPERS"))
    } else if str_eq(role, "JASTIPER") {
        if jastiper_id != requester_id {
            return Err(forbidden("Hanya jastiper pemilik produk yang dapat membatalkan"));
        }
        Ok((CancelledBy::Jastiper, "JASTIPER"))
    } else if str_eq(role, "ADMIN") {
        Ok((CancelledBy::Admin, "ADMIN"))
    } else {
        Err(forbidden("Role Anda tidak memiliki izin membatalkan pesanan"))
    }
}

/// The product whose stock a cancellation releases: the one recorded in the
/// order's snapshot when it can be read there, else the order's product.
pub fn released_product(snapshot_product_id: Option<u128>, product_id: u128) -> (r: u128)
    ensures
        r == match snapshot_product_id {
            Some(p) => p,
            None => product_id,
        },
{
    match snapshot_product_id {
        Some(p) => p,
        None => product_id,
    }
}

/// The page and page size a listing response reports: 1 and 20 unless asked otherwise.
pub fn reported_page_and_limit(page: Option<i64>, limit: Option<i64>) -> (r: (i64, i64))
    ensures
        r.0 == match page {
            Some(p) => p,
            None => 1,
        },
        r.1 == match limit {
            Some(l) => l,
            None => 20,
        },
{
    let p: i64 = match page {
        Some(p) => p,
        None => 1,
    };
    let l: i64 = match limit {
        Some(l) => l,
        None => 20,
    };
    (p, l)
}

/// Admits only an admin to the admin endpoints; any other role is refused.
pub fn check_admin(role: Role) -> (r: Result<(), AppError>)
    ensures
        r is Ok <==> role == Role::Admin,
        r matches Err(e) ==> e@ == AppErrorView::Forbidden(
            "Hanya admin yang dapat mengakses endpoint ini"@,
        ),
{
    match role {
        Role::Admin => Ok(()),
        _ => Err(forbidden("Hanya admin yang dapat mengakses endpoint ini")),
    }
}

/// The filter of a buyer's purchase history: the orders the caller bought.
pub fn purchases_filter(titipers_id: u128) -> (r: OrderFilter)
    ensures
        r.titipers_id == Some(titipers_id),
        r.jastiper_id is None,
        r.product_id is None,
        r.status is None,
        r.date_from is None,
        r.date_to is None,
{
    let mut f = OrderFilter::any();
    f.titipers_id = Some(titipers_id);
    f
}

/// The filter of a seller's incoming orders: the orders placed with the caller.
pub fn sales_filter(jastiper_id: u128) -> (r: OrderFilter)
    ensures
        r.jastiper_id == Some(jastiper_id),
        r.titipers_id is None,
        r.product_id is None,
        r.status is None,
        r.date_from is None,
        r.date_to is None,
{
    let mut f = OrderFilter::any();
    f.jastiper_id = Some(jastiper_id);
    f
}

} // verus!
