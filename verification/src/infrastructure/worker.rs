//! Decisions of the checkout worker that consumes queued checkouts.

use vstd::prelude::*;
use crate::error::{AppError, AppErrorView, not_found};
use crate::models::checkout_request::CheckoutRequest;
use crate::models::order::UpdateOrderParams;
use crate::models::order_state::OrderStatus;
use crate::models::role::Role;
use crate::text::str_eq;

verus! {

/// The queue checkouts are published to.
pub const QUEUE_NAME: &'static str = "checkout_requests";

/// The exchange failed checkouts are dead-lettered to.
pub const DLX_NAME: &'static str = "checkout_requests_dlx";

/// The queue that collects dead-lettered checkouts.
pub const DLQ_NAME: &'static str = "checkout_requests_dlq";

/// How many deliveries a message gets before it is given up.
pub const MAX_RETRY: u8 = 3;

/// How many messages the worker handles at once.
pub const MAX_CONCURRENCY: usize = 10;

/// Whether an error is final: retrying the same checkout would fail the same
/// way. Database and internal errors are the ones worth a retry.
pub open spec fn is_permanent_spec(e: AppErrorView) -> bool {
    match e {
        AppErrorView::Database(_) | AppErrorView::Internal => false,
        _ => true,
    }
}

/// Whether an error is final (not worth a retry).
pub fn is_permanent(e: &AppError) -> (r: bool)
    ensures
        r == is_permanent_spec(e@),
{
    match e {
        AppError::Validation(_)
        | AppError::Unauthorized(_)
        | AppError::Forbidden(_)
        | AppError::NotFound(_)
        | AppError::Conflict(_)
        | AppError::UnprocessableEntity(_)
        | AppError::InvalidStatusTransition { .. }
        | AppError::InsufficientBalance
        | AppError::LimitExceeded => true,
        _ => false,
    }
}

/// Only a database error or an internal error is worth a retry; every
/// other error (validation, authorization, a missing order or product, a
/// conflict, an unprocessable request such as too low a balance, a refused
/// transition, a limit) is final.
pub proof fn lemma_only_database_and_internal_errors_pass(e: AppErrorView)
    ensures
        !is_permanent_spec(e) <==> (e is Database || e is Internal),
{
}

/// A message header value, as far as the worker reads them.
pub enum HeaderValue {
    ShortShortUInt(u8),
    LongUInt(u32),
    FieldArray(Vec<HeaderValue>),
    FieldTable(Vec<(String, HeaderValue)>),
    /// Any other kind of value.
    Other,
}

/// The value under `key` in a header table.
pub open spec fn table_lookup(t: Seq<(String, HeaderValue)>, key: Seq<char>) -> Option<
    HeaderValue,
>
    decreases t.len(),
{
    if t.len() == 0 {
        None
    } else if t[0].0@ == key {
        Some(t[0].1)
    } else {
        table_lookup(t.drop_first(), key)
    }
}

/// The count of the first entry of an `x-death` list that is a table with a
/// 32-bit `count`, reduced to a byte.
pub open spec fn death_count(entries: Seq<HeaderValue>) -> Option<u8>
    decreases entries.len(),
{
    if entries.len() == 0 {
        None
    } else {
        match entries[0] {
            HeaderValue::FieldTable(t) => match table_lookup(t@, "count"@) {
                Some(HeaderValue::LongUInt(n)) => Some((n % 256) as u8),
                _ => death_count(entries.drop_first()),
            },
            _ => death_count(entries.drop_first()),
        }
    }
}

/// How many times a message has been delivered before: the broker's
/// `x-delivery-count` when it is a byte, else the `count` of the first
/// `x-death` record that has one (reduced to a byte), else 0.
pub open spec fn retry_count_spec(headers: Option<Seq<(String, HeaderValue)>>) -> u8 {
    match headers {
        None => 0,
        Some(h) => match table_lookup(h, "x-delivery-count"@) {
            Some(HeaderValue::ShortShortUInt(n)) => n,
            _ => match table_lookup(h, "x-death"@) {
                Some(HeaderValue::FieldArray(arr)) => match death_count(arr@) {
                    Some(n) => n,
                    None => 0,
                },
                _ => 0,
            },
        },
    }
}

/// The value under `key` in a header table.
fn lookup<'a>(t: &'a Vec<(String, HeaderValue)>, key: &str) -> (r: Option<&'a HeaderValue>)
    ensures
        match r {
            Some(v) => table_lookup(t@, key@) == Some(*v),
            None => table_lookup(t@, key@) is None,
        },
{
    let mut i: usize = 0;
    assert(t@.subrange(0, t@.len() as int) =~= t@);
    while i < t.len()
        invariant
            i <= t@.len(),
            table_lookup(t@, key@) == table_lookup(t@.subrange(i as int, t@.len() as int), key@),
        decreases t@.len() - i,
    {
        let ghost rest = t@.subrange(i as int, t@.len() as int);
        assert(rest.drop_first() =~= t@.subrange(i + 1, t@.len() as int));
        if str_eq(t[i].0.as_str(), key) {
            return Some(&t[i].1);
        }
        i = i + 1;
    }
    None
}

/// The count of the first `x-death` record that has one.
fn first_death_count(entries: &Vec<HeaderValue>) -> (r: Option<u8>)
    ensures
        r == death_count(entries@),
{
    let mut i: usize = 0;
    assert(entries@.subrange(0, entries@.len() as int) =~= entries@);
    while i < entries.len()
        invariant
            i <= entries@.len(),
            death_count(entries@) == death_count(
                entries@.subrange(i as int, entries@.len() as int),
            ),
        decreases entries@.len() - i,
    {
        let ghost rest = entries@.subrange(i as int, entries@.len() as int);
        assert(rest.drop_first() =~= entries@.subrange(i + 1, entries@.len() as int));
        match &entries[i] {
            HeaderValue::FieldTable(t) => {
                match lookup(t, "count") {
                    Some(HeaderValue::LongUInt(n)) => {
                        return Some((*n % 256) as u8);
                    },
                    _ => {},
                }
            },
            _ => {},
        }
        i = i + 1;
    }
    None
}

/// How many times a message has been delivered before; see [`retry_count_spec`].
pub fn retry_count(headers: &Option<Vec<(String, HeaderValue)>>) -> (r: u8)
    ensures
        r == retry_count_spec(
            match headers {
                Some(h) => Some(h@),
                None => None,
            },
        ),
{
    let h = match headers {
        Some(h) => h,
        None => return 0,
    };
    match lookup(h, "x-delivery-count") {
        Some(HeaderValue::ShortShortUInt(n)) => {
            return *n;
        },
        _ => {},
    }
    match lookup(h, "x-death") {
        Some(HeaderValue::FieldArray(arr)) => match first_death_count(arr) {
            Some(n) => n,
            None => 0,
        },
        _ => 0,
    }
}

/// What becomes of a delivered message.
#[derive(Clone, Copy, Debug, PartialEq, Eq, Structural)]
pub enum DeliveryDecision {
    /// Processed: acknowledge it.
    Ack,
    /// Failed for good: cancel the order, mark the checkout processed, and
    /// acknowledge the message.
    CancelAndAck,
    /// Failed too often: cancel the order, mark the checkout processed, and
    /// reject the message without requeueing it (it goes to the dead-letter queue).
    CancelAndDeadLetter,
    /// Failed for now: reject it and requeue it for another try.
    Requeue,
}

/// What becomes of a message, given how processing went and how often it
/// had been delivered before.
pub open spec fn delivery_decision_spec(outcome: Result<(), AppErrorView>, retries: u8) -> DeliveryDecision {
    match outcome {
        Ok(()) => DeliveryDecision::Ack,
        Err(e) => if is_permanent_spec(e) {
            DeliveryDecision::CancelAndAck
        } else if retries >= MAX_RETRY {
            DeliveryDecision::CancelAndDeadLetter
        } else {
            DeliveryDecision::Requeue
        },
    }
}

/// Decides what becomes of a message after processing: acknowledged when it
/// succeeded; cancelled and acknowledged on a final error; cancelled and
/// dead-lettered on a passing error once it has been retried 3 times;
/// requeued otherwise.
pub fn delivery_decision(outcome: &Result<(), AppError>, retries: u8) -> (r: DeliveryDecision)
    ensures
        r == delivery_decision_spec(
            match outcome {
                Ok(()) => Ok(()),
                Err(e) => Err(e@),
            },
            retries,
        ),
{
    match outcome {
        Ok(()) => DeliveryDecision::Ack,
        Err(e) => {
            if is_permanent(e) {
                DeliveryDecision::CancelAndAck
            } else if retries >= MAX_RETRY {
                DeliveryDecision::CancelAndDeadLetter
            } else {
                DeliveryDecision::Requeue
            }
        },
    }
}

/// A failing message is never requeued forever: once it has been retried
/// 3 times, any error ends with the checkout cancelled, and a final error
/// does so at once.
pub proof fn lemma_failed_delivery_ends(e: AppErrorView, retries: u8)
    ensures
        retries >= MAX_RETRY ==> delivery_decision_spec(Err(e), retries)
            != DeliveryDecision::Requeue,
        delivery_decision_spec(Err(e), retries) != DeliveryDecision::Ack,
        delivery_decision_spec(Ok(()), retries) == DeliveryDecision::Ack,
{
}

/// The next thing the worker does with a checkout, once it knows whether
/// the checkout was processed before and what state its order is in.
#[derive(Clone, Copy, Debug, PartialEq, Eq, Structural)]
pub enum CheckoutPlan {
    /// A duplicate message: do nothing and succeed.
    SkipDuplicate,
    /// The order is no longer reserving: mark the checkout processed and succeed.
    MarkProcessedAndSkip,
    /// Run the checkout saga.
    RunSaga,
}

/// What the worker does with a checkout, from whether its idempotency key
/// was seen before and the status of its order (none when the order does
/// not exist, which fails the checkout as not found).
pub open spec fn checkout_plan_spec(already_processed: bool, order_status: Option<OrderStatus>) -> Result<CheckoutPlan, AppErrorView> {
    if already_processed {
        Ok(CheckoutPlan::SkipDuplicate)
    } else {
        match order_status {
            None => Err(AppErrorView::NotFound("Order tidak ditemukan"@)),
            Some(s) => if s != OrderStatus::Reserving {
                Ok(CheckoutPlan::MarkProcessedAndSkip)
            } else {
                Ok(CheckoutPlan::RunSaga)
            },
        }
    }
}

/// Decides what the worker does with a checkout; see [`checkout_plan_spec`].
pub fn checkout_plan(already_processed: bool, order_status: Option<OrderStatus>) -> (r: Result<
    CheckoutPlan,
    AppError,
>)
    ensures
        match r {
            Ok(p) => checkout_plan_spec(already_processed, order_status) == Ok::<
                CheckoutPlan,
                AppErrorView,
            >(p),
            Err(e) => checkout_plan_spec(already_processed, order_status) == Err::<
                CheckoutPlan,
                AppErrorView,
            >(e@),
        },
{
    if already_processed {
        return Ok(CheckoutPlan::SkipDuplicate);
    }
    match order_status {
        None => Err(not_found("Order tidak ditemukan")),
        Some(s) => {
            if s != OrderStatus::Reserving {
                Ok(CheckoutPlan::MarkProcessedAndSkip)
            } else {
                Ok(CheckoutPlan::RunSaga)
            }
        },
    }
}

/// What the worker records once the checkout saga has run: the request's
/// idempotency key and order are marked processed only when the saga
/// succeeded; after a failure nothing is marked, so that a retry runs the
/// saga again.
pub fn processed_mark(request: &CheckoutRequest, saga_outcome: &Result<(), AppError>) -> (r: Option<
    (u128, u128),
>)
    ensures
        r is Some <==> saga_outcome is Ok,
        r matches Some(m) ==> m == (request.idempotency_key, request.order_id),
{
    match saga_outcome {
        Ok(()) => Some((request.idempotency_key, request.order_id)),
        Err(_) => None,
    }
}

/// A final error cancels the checkout and acknowledges its message at once,
/// on every delivery; a database or internal error is requeued until the
/// message has been retried 3 times, and then cancelled and dead-lettered.
pub proof fn lemma_final_errors_cancel_at_once(e: AppErrorView, retries: u8)
    ensures
        !(e is Database || e is Internal) ==> delivery_decision_spec(Err(e), retries)
            == DeliveryDecision::CancelAndAck,
        (e is Database || e is Internal) && retries < 3 ==> delivery_decision_spec(Err(e), retries)
            == DeliveryDecision::Requeue,
        (e is Database || e is Internal) && retries >= 3 ==> delivery_decision_spec(
            Err(e),
            retries,
        ) == DeliveryDecision::CancelAndDeadLetter,
{
}

/// Whether the order of a checkout that failed for good is still waiting
/// on that checkout: RESERVING (the saga never finished) or PENDING (it
/// finished but the message could not be acknowledged).
pub open spec fn awaits_checkout(s: OrderStatus) -> bool {
    s == OrderStatus::Reserving || s == OrderStatus::Pending
}

/// The status change with which a checkout that failed for good is
/// cancelled by the service itself: only when its order exists and still
/// awaits the checkout (see [`awaits_checkout`]), to CANCELLED, recorded as
/// done by the system with the checkout-failure note and reason. An order
/// that has moved on (paid, shipped, ...) or is already closed is left alone.
pub fn failed_checkout_cancellation(order_status: Option<OrderStatus>) -> (r: Option<
    (OrderStatus, UpdateOrderParams<'static>),
>)
    ensures
        r is Some <==> (order_status matches Some(s) && awaits_checkout(s)),
        r matches Some(u) ==> u.0 == OrderStatus::Cancelled && u.1.changed_by@ == "system"@
            && *u.1.actor_role == Role::System && u.1.notes == Some(
            "Checkout gagal, order dibatalkan otomatis",
        ) && u.1.tracking_number is None && u.1.courier is None && u.1.cancellation_reason
            == Some("Checkout gagal saat proses worker"),
{
    match order_status {
        Some(OrderStatus::Reserving) | Some(OrderStatus::Pending) => Some(
            (
                OrderStatus::Cancelled,
                UpdateOrderParams {
                    changed_by: "system",
                    actor_role: &Role::System,
                    notes: Some("Checkout gagal, order dibatalkan otomatis"),
                    tracking_number: None,
                    courier: None,
                    cancellation_reason: Some("Checkout gagal saat proses worker"),
                },
            ),
        ),
        _ => None,
    }
}

} // verus!
