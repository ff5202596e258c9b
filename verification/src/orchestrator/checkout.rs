//! The checkout saga, run by the worker for a queued checkout:
//! check the buyer's wallet, reserve the stock, then mark the order PENDING.
//! If a later step fails, the reservation is released and the order is
//! cancelled.

use vstd::prelude::*;
use crate::error::AppError;
use crate::handlers::order::{order_total, price_or_zero};
use crate::ids::{parse_uuid, uuid_from_text, uuid_text, uuid_to_string};
use vstd::string::*;
use crate::models::order::{CreateOrderRequest, Order};
use crate::models::order_state::OrderStatus;
use crate::models::role::Role;
use crate::orchestrator::engine::SagaOrchestrator;
use crate::orchestrator::steps::{OrderUpdate, StockRequest, is_update};
use crate::text::owned;

verus! {

/// What the checkout saga knows and records. Ids are UUID values; `product`
/// and `snapshot` are JSON text.
pub struct CheckoutContext {
    pub titipers_id: u128,
    pub jastiper_id: u128,
    pub req: CreateOrderRequest,
    pub product: String,
    pub unit_price: i64,
    pub service_fee: i64,
    pub total_price: i64,
    pub snapshot: String,
    /// The order the checkout handler created, in RESERVING.
    pub order_id: u128,
    /// The order once it has been moved to PENDING.
    pub created_order: Option<Order>,
    /// Whether stock is currently reserved for the order.
    pub stock_reserved: bool,
}

/// What `serde_json` reads from a JSON text at `key`: the value as an `i64`
/// when the text is a JSON object whose `key` holds an integer that fits.
pub uninterp spec fn json_i64_field_result(json: Seq<char>, key: Seq<char>) -> Option<i64>;

/// Reads the integer at `key` of a JSON object text with `serde_json`
/// (`Value::as_i64`); nothing when the text is not JSON, the key is missing,
/// or its value is not an integer that fits in an `i64`.
#[verifier::external_body]
pub(crate) fn json_i64_field(json: &str, key: &str) -> (r: Option<i64>)
    ensures
        r == json_i64_field_result(json@, key@),
{
    match serde_json::from_str::<serde_json::Value>(json) {
        Ok(v) => v[key].as_i64(),
        Err(_) => None,
    }
}

/// What `serde_json` reads from a JSON text at `key`: the member's text when
/// the text is a JSON object whose `key` holds a string.
pub uninterp spec fn json_str_field_result(json: Seq<char>, key: Seq<char>) -> Option<Seq<char>>;

/// Reads the string at `key` of a JSON object text with `serde_json`
/// (`Value::as_str`); nothing when the text is not JSON, the key is missing,
/// or its value is not a string.
#[verifier::external_body]
pub(crate) fn json_str_field(json: &str, key: &str) -> (r: Option<String>)
    ensures
        match r {
            Some(t) => json_str_field_result(json@, key@) == Some(t@),
            None => json_str_field_result(json@, key@) is None,
        },
{
    match serde_json::from_str::<serde_json::Value>(json) {
        Ok(v) => match v[key].as_str() {
            Some(t) => Some(t.to_string()),
            None => None,
        },
        Err(_) => None,
    }
}

/// The UUID a JSON object text holds as a string at `key`, as
/// `serde_json` deserializes a `Uuid` from it.
pub open spec fn json_uuid_field_spec(json: Seq<char>, key: Seq<char>) -> Option<u128> {
    match json_str_field_result(json, key) {
        Some(t) => uuid_from_text(t),
        None => None,
    }
}

/// Reads the UUID held as a string at `key` of a JSON object text; nothing
/// when there is no such string or it is not a UUID.
pub fn json_uuid_field(json: &str, key: &str) -> (r: Option<u128>)
    ensures
        r == json_uuid_field_spec(json@, key@),
{
    match json_str_field(json, key) {
        Some(t) => parse_uuid(t.as_str()),
        None => None,
    }
}

/// What `serde_json` writes for the member `key` of a JSON text: the
/// member's value as compact JSON, `null` when it is missing or the text is
/// not JSON.
pub uninterp spec fn json_member_text(json: Seq<char>, key: Seq<char>) -> Seq<char>;

/// Writes the member `key` of a JSON text as compact JSON with `serde_json`
/// (`Value`'s index and `Display`); `null` when missing or not JSON.
#[verifier::external_body]
pub(crate) fn json_member(json: &str, key: &str) -> (r: String)
    ensures
        r@ == json_member_text(json@, key@),
{
    let v: serde_json::Value = serde_json::from_str(json).unwrap_or(serde_json::Value::Null);
    v[key].to_string()
}

/// What `serde_json` writes for the first item of the array at member `key`
/// of a JSON text: compact JSON, `null` when there is none.
pub uninterp spec fn json_first_item_text(json: Seq<char>, key: Seq<char>) -> Seq<char>;

/// Writes the first item of the array at member `key` of a JSON text as
/// compact JSON with `serde_json`; `null` when there is none.
#[verifier::external_body]
pub(crate) fn json_first_item(json: &str, key: &str) -> (r: String)
    ensures
        r@ == json_first_item_text(json@, key@),
{
    let v: serde_json::Value = serde_json::from_str(json).unwrap_or(serde_json::Value::Null);
    v[key][0].to_string()
}

/// The decimal digits of a natural number, most significant first.
pub open spec fn digits(n: nat) -> Seq<char>
    decreases n,
{
    if n < 10 {
        seq![(48 + n) as char]
    } else {
        digits(n / 10).push((48 + n % 10) as char)
    }
}

/// The decimal text of an integer, with a leading `-` when it is negative.
pub open spec fn decimal_text(n: int) -> Seq<char> {
    if n < 0 {
        seq!['-'] + digits((-n) as nat)
    } else {
        digits(n as nat)
    }
}

/// Writes an `i64` in decimal with its `Display` (`ToString`).
#[verifier::external_body]
pub(crate) fn i64_text(n: i64) -> (r: String)
    ensures
        r@ == decimal_text(n as int),
{
    n.to_string()
}

/// A snapshot of a product as compact JSON with its keys in order: the
/// product's description, first image, name, origin country (its member
/// `origin_key`) and purchase date (its member `date_key`) as the product
/// gives them, the product id, and the prices.
pub open spec fn snapshot_text_keyed(
    product: Seq<char>,
    product_id: u128,
    unit_price: i64,
    service_fee: i64,
    origin_key: Seq<char>,
    date_key: Seq<char>,
) -> Seq<char> {
    "{\"description\":"@ + json_member_text(product, "description"@) + ",\"image_url\":"@
        + json_first_item_text(product, "images"@) + ",\"name\":"@ + json_member_text(
        product,
        "name"@,
    ) + ",\"origin_country\":"@ + json_member_text(product, origin_key)
        + ",\"product_id\":\""@ + uuid_text(product_id) + "\",\"purchase_date\":"@
        + json_member_text(product, date_key) + ",\"service_fee\":"@ + decimal_text(
        service_fee as int,
    ) + ",\"unit_price\":"@ + decimal_text(unit_price as int) + "}"@
}

/// The snapshot the checkout worker keeps with an order: the product's
/// origin country and purchase date are read from its `originCountry` and
/// `purchaseDate`; see [`snapshot_text_keyed`].
pub open spec fn snapshot_text(product: Seq<char>, product_id: u128, unit_price: i64, service_fee: i64) -> Seq<char> {
    snapshot_text_keyed(product, product_id, unit_price, service_fee, "originCountry"@, "purchaseDate"@)
}

/// The snapshot a direct checkout keeps with an order: the product's origin
/// country and purchase date are read from its `origin_country` and
/// `purchase_date`; see [`snapshot_text_keyed`].
pub open spec fn direct_snapshot_text(product: Seq<char>, product_id: u128, unit_price: i64, service_fee: i64) -> Seq<char> {
    snapshot_text_keyed(product, product_id, unit_price, service_fee, "origin_country"@, "purchase_date"@)
}

/// Writes a snapshot; see [`snapshot_text_keyed`].
fn keyed_snapshot(
    product: &str,
    product_id: u128,
    unit_price: i64,
    service_fee: i64,
    origin_key: &str,
    date_key: &str,
) -> (r: String)
    ensures
        r@ == snapshot_text_keyed(product@, product_id, unit_price, service_fee, origin_key@, date_key@),
{
    let mut out = String::from_str("{\"description\":");
    out.append(json_member(product, "description").as_str());
    out.append(",\"image_url\":");
    out.append(json_first_item(product, "images").as_str());
    out.append(",\"name\":");
    out.append(json_member(product, "name").as_str());
    out.append(",\"origin_country\":");
    out.append(json_member(product, origin_key).as_str());
    out.append(",\"product_id\":\"");
    out.append(uuid_to_string(product_id).as_str());
    out.append("\",\"purchase_date\":");
    out.append(json_member(product, date_key).as_str());
    out.append(",\"service_fee\":");
    out.append(i64_text(service_fee).as_str());
    out.append(",\"unit_price\":");
    out.append(i64_text(unit_price).as_str());
    out.append("}");
    out
}

/// Writes the snapshot the checkout worker keeps; see [`snapshot_text`].
pub fn product_snapshot(product: &str, product_id: u128, unit_price: i64, service_fee: i64) -> (r:
    String)
    ensures
        r@ == snapshot_text(product@, product_id, unit_price, service_fee),
{
    keyed_snapshot(product, product_id, unit_price, service_fee, "originCountry", "purchaseDate")
}

/// Writes the snapshot a direct checkout keeps; see [`direct_snapshot_text`].
pub fn direct_product_snapshot(product: &str, product_id: u128, unit_price: i64, service_fee: i64) -> (r:
    String)
    ensures
        r@ == direct_snapshot_text(product@, product_id, unit_price, service_fee),
{
    keyed_snapshot(product, product_id, unit_price, service_fee, "origin_country", "purchase_date")
}

/// Whether the prices read from a product can be totalled in an `i64`.
pub open spec fn prices_fit(unit_price: Option<i64>, service_fee: Option<i64>, quantity: i32) -> bool {
    &&& i64::MIN <= price_or_zero(unit_price) + price_or_zero(service_fee) <= i64::MAX
    &&& i64::MIN <= order_total(unit_price, service_fee, quantity) <= i64::MAX
}

/// The context of a checkout whose product prices have been read: prices
/// from the product (0 when missing), the total for the requested quantity,
/// the given snapshot, nothing reserved and no order recorded yet.
pub fn checkout_context_from(
    order_id: u128,
    titipers_id: u128,
    jastiper_id: u128,
    req: CreateOrderRequest,
    product: String,
    unit_price: Option<i64>,
    service_fee: Option<i64>,
    snapshot: String,
) -> (r: CheckoutContext)
    requires
        prices_fit(unit_price, service_fee, req.quantity),
    ensures
        r.order_id == order_id,
        r.titipers_id == titipers_id,
        r.jastiper_id == jastiper_id,
        r.req == req,
        r.product == product,
        r.unit_price == price_or_zero(unit_price),
        r.service_fee == price_or_zero(service_fee),
        r.total_price == order_total(unit_price, service_fee, req.quantity),
        r.snapshot == snapshot,
        r.created_order is None,
        !r.stock_reserved,
{
    let price = crate::handlers::order::price_breakdown(unit_price, service_fee, req.quantity);
    CheckoutContext {
        titipers_id,
        jastiper_id,
        req,
        product,
        unit_price: price.unit_price,
        service_fee: price.service_fee,
        total_price: price.total_price,
        snapshot,
        order_id,
        created_order: None,
        stock_reserved: false,
    }
}

/// Builds the context of a queued checkout from the product's JSON: its
/// `price` and `service_fee` (0 when missing) and the snapshot written from
/// it. Gives nothing when the total does not fit in an `i64`.
pub fn build_checkout_context(
    order_id: u128,
    titipers_id: u128,
    jastiper_id: u128,
    req: CreateOrderRequest,
    product: String,
) -> (r: Option<CheckoutContext>)
    ensures
        ({
            let unit = json_i64_field_result(product@, "price"@);
            let fee = json_i64_field_result(product@, "service_fee"@);
            &&& r is Some <==> prices_fit(unit, fee, req.quantity)
            &&& r matches Some(c) ==> {
                &&& c.order_id == order_id
                &&& c.titipers_id == titipers_id
                &&& c.jastiper_id == jastiper_id
                &&& c.req == req
                &&& c.product == product
                &&& c.unit_price == price_or_zero(unit)
                &&& c.service_fee == price_or_zero(fee)
                &&& c.total_price == order_total(unit, fee, req.quantity)
                &&& c.snapshot@ == snapshot_text(
                    product@,
                    req.product_id,
                    c.unit_price,
                    c.service_fee,
                )
                &&& c.created_order is None
                &&& !c.stock_reserved
            }
        }),
{
    let unit = json_i64_field(product.as_str(), "price");
    let fee = json_i64_field(product.as_str(), "service_fee");
    let u: i64 = match unit {
        Some(v) => v,
        None => 0,
    };
    let f: i64 = match fee {
        Some(v) => v,
        None => 0,
    };
    let per_item: i128 = u as i128 + f as i128;
    if per_item < i64::MIN as i128 || per_item > i64::MAX as i128 {
        return None;
    }
    let q: i128 = req.quantity as i128;
    assert(per_item * q <= 0x7fff_ffff_ffff_ffff_ffff_ffff_ffff_ffff) by (nonlinear_arith)
        requires
            -0x8000_0000_0000_0000 <= per_item <= 0x7fff_ffff_ffff_ffff,
            -0x8000_0000 <= q <= 0x7fff_ffff,
    ;
    assert(per_item * q >= -0x8000_0000_0000_0000_0000_0000_0000_0000) by (nonlinear_arith)
        requires
            -0x8000_0000_0000_0000 <= per_item <= 0x7fff_ffff_ffff_ffff,
            -0x8000_0000 <= q <= 0x7fff_ffff,
    ;
    let total: i128 = per_item * q;
    if total < i64::MIN as i128 || total > i64::MAX as i128 {
        return None;
    }
    let snapshot = product_snapshot(product.as_str(), req.product_id, u, f);
    Some(checkout_context_from(order_id, titipers_id, jastiper_id, req, product, unit, fee, snapshot))
}

/// Step 1: checks that the buyer's wallet can cover the order. It changes
/// nothing, so there is nothing to compensate.
pub struct CheckWalletStep<W> {
    pub wallet_client: W,
}

impl<W> CheckWalletStep<W> {
    /// The step's name.
    pub fn name(&self) -> (r: &'static str)
        ensures
            r@ == "check_wallet"@,
    {
        "check_wallet"
    }

    /// The wallet check to make: the buyer, for the order's total.
    pub fn wallet_check(&self, ctx: &CheckoutContext) -> (r: (u128, i64))
        ensures
            r == (ctx.titipers_id, ctx.total_price),
    {
        (ctx.titipers_id, ctx.total_price)
    }
}

/// The reservation a checkout makes (and its compensation releases).
pub open spec fn checkout_stock_request(ctx: CheckoutContext) -> StockRequest {
    StockRequest { product_id: ctx.req.product_id, order_id: ctx.order_id, quantity: ctx.req.quantity }
}

/// Step 2: reserves the ordered quantity of the product for the order;
/// compensated by releasing it again.
pub struct ReserveStockStep<I> {
    pub inventory_client: I,
}

impl<I> ReserveStockStep<I> {
    /// The step's name.
    pub fn name(&self) -> (r: &'static str)
        ensures
            r@ == "reserve_stock"@,
    {
        "reserve_stock"
    }

    /// The reservation to make.
    pub fn reservation(&self, ctx: &CheckoutContext) -> (r: StockRequest)
        ensures
            r == checkout_stock_request(*ctx),
    {
        StockRequest { product_id: ctx.req.product_id, order_id: ctx.order_id, quantity: ctx.req.quantity }
    }

    /// Records the reservation's outcome: on success the stock counts as
    /// reserved; a failure is the step's failure and changes nothing.
    pub fn record_reservation(&self, ctx: &mut CheckoutContext, outcome: Result<(), AppError>) -> (r:
        Result<(), AppError>)
        ensures
            r == outcome,
            outcome is Ok ==> *final(ctx) == (CheckoutContext { stock_reserved: true, ..*old(ctx) }),
            outcome is Err ==> *final(ctx) == *old(ctx),
    {
        if outcome.is_ok() {
            ctx.stock_reserved = true;
        }
        outcome
    }

    /// The release that compensates the step: the same product, order and
    /// quantity, and only when stock is currently reserved.
    pub fn release(&self, ctx: &CheckoutContext) -> (r: Option<StockRequest>)
        ensures
            ctx.stock_reserved ==> r == Some(checkout_stock_request(*ctx)),
            !ctx.stock_reserved ==> r is None,
    {
        if !ctx.stock_reserved {
            return None;
        }
        Some(StockRequest { product_id: ctx.req.product_id, order_id: ctx.order_id, quantity: ctx.req.quantity })
    }

    /// Records the release's outcome: on success nothing is reserved any
    /// more; a failure is the compensation's failure and changes nothing.
    pub fn record_release(&self, ctx: &mut CheckoutContext, outcome: Result<(), AppError>) -> (r:
        Result<(), AppError>)
        ensures
            r == outcome,
            outcome is Ok ==> *final(ctx) == (CheckoutContext { stock_reserved: false, ..*old(ctx) }),
            outcome is Err ==> *final(ctx) == *old(ctx),
    {
        if outcome.is_ok() {
            ctx.stock_reserved = false;
        }
        outcome
    }
}

/// Step 3: moves the order from RESERVING to PENDING; compensated by
/// cancelling it.
pub struct UpdateStatusToPendingStep<R> {
    pub order_repo: R,
}

impl<R> UpdateStatusToPendingStep<R> {
    /// The step's name.
    pub fn name(&self) -> (r: &'static str)
        ensures
            r@ == "update_status_to_pending"@,
    {
        "update_status_to_pending"
    }

    /// The change to make: the order to PENDING, by the worker, as SYSTEM.
    pub fn to_pending(&self, ctx: &CheckoutContext) -> (r: OrderUpdate)
        ensures
            is_update(
                r,
                ctx.order_id,
                OrderStatus::Pending,
                "system-worker"@,
                Role::System,
                "Stok berhasil direservasi, order menunggu pembayaran"@,
                None,
            ),
    {
        OrderUpdate {
            order_id: ctx.order_id,
            status: OrderStatus::Pending,
            changed_by: owned("system-worker"),
            actor_role: Role::System,
            notes: Some(owned("Stok berhasil direservasi, order menunggu pembayaran")),
            tracking_number: None,
            courier: None,
            cancellation_reason: None,
        }
    }

    /// Records the updated order on success; a failure is the step's failure.
    pub fn record_pending(&self, ctx: &mut CheckoutContext, outcome: Result<Order, AppError>) -> (r:
        Result<(), AppError>)
        ensures
            outcome is Ok <==> r is Ok,
            outcome matches Err(e) ==> r == Err::<(), AppError>(e),
            outcome matches Ok(o) ==> *final(ctx) == (CheckoutContext {
                created_order: Some(o),
                ..*old(ctx)
            }),
            outcome is Err ==> *final(ctx) == *old(ctx),
    {
        match outcome {
            Ok(o) => {
                ctx.created_order = Some(o);
                Ok(())
            },
            Err(e) => Err(e),
        }
    }

    /// The compensating change: the order to CANCELLED, by the worker, as
    /// SYSTEM, with the checkout-failure note and reason.
    pub fn to_cancelled(&self, ctx: &CheckoutContext) -> (r: OrderUpdate)
        ensures
            is_update(
                r,
                ctx.order_id,
                OrderStatus::Cancelled,
                "system-worker"@,
                Role::System,
                "Checkout gagal, order dibatalkan otomatis"@,
                Some("Checkout gagal saat proses reservasi"@),
            ),
    {
        OrderUpdate {
            order_id: ctx.order_id,
            status: OrderStatus::Cancelled,
            changed_by: owned("system-worker"),
            actor_role: Role::System,
            notes: Some(owned("Checkout gagal, order dibatalkan otomatis")),
            tracking_number: None,
            courier: None,
            cancellation_reason: Some(owned("Checkout gagal saat proses reservasi")),
        }
    }
}

/// A step of the checkout saga.
pub enum CheckoutSagaStep<W, I, R> {
    CheckWallet(CheckWalletStep<W>),
    ReserveStock(ReserveStockStep<I>),
    UpdateStatusToPending(UpdateStatusToPendingStep<R>),
}

/// The checkout saga the worker runs, named `checkout_worker`: check the
/// buyer's wallet, reserve the stock, then mark the order PENDING, in that
/// order.
pub fn checkout_saga<W, I, R>(wallet_client: W, inventory_client: I, order_repo: R) -> (s:
    SagaOrchestrator<CheckoutSagaStep<W, I, R>>)
    ensures
        s.name_spec() == "checkout_worker"@,
        s.steps_spec() == seq![
            CheckoutSagaStep::CheckWallet(CheckWalletStep { wallet_client }),
            CheckoutSagaStep::ReserveStock(ReserveStockStep { inventory_client }),
            CheckoutSagaStep::UpdateStatusToPending(UpdateStatusToPendingStep { order_repo }),
        ],
{
    let saga = SagaOrchestrator::new("checkout_worker");
    let saga = saga.step(CheckoutSagaStep::CheckWallet(CheckWalletStep { wallet_client }));
    let saga = saga.step(CheckoutSagaStep::ReserveStock(ReserveStockStep { inventory_client }));
    let saga = saga.step(
        CheckoutSagaStep::UpdateStatusToPending(UpdateStatusToPendingStep { order_repo }),
    );
    proof {
        assert(saga.steps_spec() =~= seq![
            CheckoutSagaStep::CheckWallet(CheckWalletStep { wallet_client }),
            CheckoutSagaStep::ReserveStock(ReserveStockStep { inventory_client }),
            CheckoutSagaStep::UpdateStatusToPending(UpdateStatusToPendingStep { order_repo }),
        ]);
    }
    saga
}

/// The checkout saga's compensation of the reservation releases exactly what
/// was reserved: once the reservation succeeded, the release asks for the
/// same product, order and quantity; and when the reservation failed (or
/// never ran), nothing is released.
pub proof fn lemma_release_matches_reservation(before: CheckoutContext, after: CheckoutContext, ok: bool)
    requires
        !before.stock_reserved,
        after.stock_reserved == (before.stock_reserved || ok),
        after.req == before.req,
        after.order_id == before.order_id,
    ensures
        ok ==> after.stock_reserved && checkout_stock_request(after) == checkout_stock_request(before),
        !ok ==> !after.stock_reserved,
{
}

} // verus!
