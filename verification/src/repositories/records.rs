//! The rows the order repository writes.

use vstd::prelude::*;
use crate::ids::{uuid_text, uuid_to_string};
use crate::models::order::{CreateOrderRequest, Order, PriceBreakdown, UpdateOrderParams};
use crate::models::order_state::OrderStatus;
use crate::models::role::Role;
use crate::text::{chars_to_string, opt_str_view, opt_string_view, owned, owned_opt};

verus! {

/// How long a new order may stay unpaid: 15 minutes, in microseconds.
pub const PAYMENT_WINDOW_MICROS: i64 = 900_000_000;

/// The columns a status change writes.
#[derive(Debug)]
pub struct OrderChanges {
    /// The new status.
    pub status: OrderStatus,
    /// Whether the completion time is set to the time of the change.
    pub set_completed_at: bool,
    /// Written only when given; otherwise the column keeps its value.
    pub tracking_number: Option<String>,
    /// Written only when given; otherwise the column keeps its value.
    pub courier: Option<String>,
    /// Written only when given; otherwise the column keeps its value.
    pub cancellation_reason: Option<String>,
}

/// The columns written when an order moves to `new_status` with `params`: the
/// status (and the update time) always, the completion time only when the
/// order is completed, and tracking number, courier and cancellation reason
/// only when given.
pub fn order_changes(new_status: &OrderStatus, params: &UpdateOrderParams) -> (r: OrderChanges)
    ensures
        r.status == *new_status,
        r.set_completed_at == (*new_status == OrderStatus::Completed),
        opt_string_view(r.tracking_number) == opt_str_view(params.tracking_number),
        opt_string_view(r.courier) == opt_str_view(params.courier),
        opt_string_view(r.cancellation_reason) == opt_str_view(params.cancellation_reason),
{
    OrderChanges {
        status: *new_status,
        set_completed_at: match new_status {
            OrderStatus::Completed => true,
            _ => false,
        },
        tracking_number: owned_opt(params.tracking_number),
        courier: owned_opt(params.courier),
        cancellation_reason: owned_opt(params.cancellation_reason),
    }
}

/// The order as it reads after `changes` were written at time `now`.
pub open spec fn apply_changes_spec(o: Order, c: OrderChanges, now: i64) -> Order {
    Order {
        status: c.status,
        updated_at: now,
        completed_at: if c.set_completed_at {
            Some(now)
        } else {
            o.completed_at
        },
        tracking_number: if c.tracking_number is Some {
            c.tracking_number
        } else {
            o.tracking_number
        },
        courier: if c.courier is Some {
            c.courier
        } else {
            o.courier
        },
        cancellation_reason: if c.cancellation_reason is Some {
            c.cancellation_reason
        } else {
            o.cancellation_reason
        },
        ..o
    }
}

/// Writes `changes` into an order at time `now`, as the update statement does.
pub fn apply_changes(o: Order, changes: OrderChanges, now: i64) -> (r: Order)
    ensures
        r == apply_changes_spec(o, changes, now),
{
    let mut o = o;
    o.status = changes.status;
    o.updated_at = now;
    if changes.set_completed_at {
        o.completed_at = Some(now);
    }
    if changes.tracking_number.is_some() {
        o.tracking_number = changes.tracking_number;
    }
    if changes.courier.is_some() {
        o.courier = changes.courier;
    }
    if changes.cancellation_reason.is_some() {
        o.cancellation_reason = changes.cancellation_reason;
    }
    o
}

/// A status change writes what it is given and keeps the rest: the new
/// status and the time of the change always; the completion time only when
/// the order is completed; the tracking number, courier and cancellation
/// reason whenever one is given, each kept as it was otherwise; every other
/// column unchanged.
pub proof fn lemma_status_change_writes_given_details(o: Order, c: OrderChanges, now: i64)
    ensures
        apply_changes_spec(o, c, now).status == c.status,
        apply_changes_spec(o, c, now).updated_at == now,
        c.set_completed_at ==> apply_changes_spec(o, c, now).completed_at == Some(now),
        !c.set_completed_at ==> apply_changes_spec(o, c, now).completed_at == o.completed_at,
        c.tracking_number is Some ==> apply_changes_spec(o, c, now).tracking_number
            == c.tracking_number,
        c.tracking_number is None ==> apply_changes_spec(o, c, now).tracking_number
            == o.tracking_number,
        c.courier is Some ==> apply_changes_spec(o, c, now).courier == c.courier,
        c.courier is None ==> apply_changes_spec(o, c, now).courier == o.courier,
        c.cancellation_reason is Some ==> apply_changes_spec(o, c, now).cancellation_reason
            == c.cancellation_reason,
        c.cancellation_reason is None ==> apply_changes_spec(o, c, now).cancellation_reason
            == o.cancellation_reason,
        apply_changes_spec(o, c, now).order_id == o.order_id,
        apply_changes_spec(o, c, now).titipers_id == o.titipers_id,
        apply_changes_spec(o, c, now).jastiper_id == o.jastiper_id,
        apply_changes_spec(o, c, now).product_id == o.product_id,
        apply_changes_spec(o, c, now).product_snapshot == o.product_snapshot,
        apply_changes_spec(o, c, now).quantity == o.quantity,
        apply_changes_spec(o, c, now).unit_price == o.unit_price,
        apply_changes_spec(o, c, now).service_fee == o.service_fee,
        apply_changes_spec(o, c, now).total_price == o.total_price,
        apply_changes_spec(o, c, now).shipping_address == o.shipping_address,
        apply_changes_spec(o, c, now).note_to_jastiper == o.note_to_jastiper,
        apply_changes_spec(o, c, now).cancelled_by == o.cancelled_by,
        apply_changes_spec(o, c, now).created_at == o.created_at,
{
}

/// One row of the status history, as written.
#[derive(Debug)]
pub struct HistoryEntry {
    pub order_id: u128,
    pub status: OrderStatus,
    pub changed_by: String,
    pub actor_role: Role,
    /// Empty when the change came without a note.
    pub notes: String,
}

/// The history row recorded for a status change.
pub fn history_entry(
    order_id: u128,
    status: &OrderStatus,
    changed_by: &str,
    actor_role: &Role,
    notes: Option<&str>,
) -> (r: HistoryEntry)
    ensures
        r.order_id == order_id,
        r.status == *status,
        r.changed_by@ == changed_by@,
        r.actor_role == *actor_role,
        r.notes@ == match notes {
            Some(n) => n@,
            None => Seq::<char>::empty(),
        },
{
    HistoryEntry {
        order_id,
        status: *status,
        changed_by: owned(changed_by),
        actor_role: *actor_role,
        notes: match notes {
            Some(n) => owned(n),
            None => String::new(),
        },
    }
}

/// A new order row with its payment deadline.
pub struct NewOrder {
    pub order: Order,
    /// When an unpaid order expires (microseconds since the Unix epoch).
    pub expired_at: i64,
}

/// The row a checkout writes: the order in RESERVING, priced as given, with
/// the note (empty when none), no shipment or cancellation details, created
/// and updated at `now`, expiring 15 minutes later; and the history row
/// recording its creation by the buyer, under the SYSTEM role.
pub fn new_order_record(
    order_id: u128,
    titipers_id: u128,
    jastiper_id: u128,
    req: &CreateOrderRequest,
    product_snapshot: String,
    shipping_address: String,
    price: &PriceBreakdown,
    now: i64,
) -> (r: (NewOrder, HistoryEntry))
    requires
        now + PAYMENT_WINDOW_MICROS <= i64::MAX,
    ensures
        r.0.order.order_id == order_id,
        r.0.order.titipers_id == titipers_id,
        r.0.order.jastiper_id == jastiper_id,
        r.0.order.product_id == req.product_id,
        r.0.order.product_snapshot == product_snapshot,
        r.0.order.quantity == req.quantity,
        r.0.order.unit_price == price.unit_price,
        r.0.order.service_fee == price.service_fee,
        r.0.order.total_price == price.total_price,
        r.0.order.status == OrderStatus::Reserving,
        r.0.order.shipping_address == shipping_address,
        r.0.order.note_to_jastiper matches Some(n) && n@ == match req.note_to_jastiper {
            Some(m) => m@,
            None => Seq::<char>::empty(),
        },
        r.0.order.tracking_number is None,
        r.0.order.courier is None,
        r.0.order.cancellation_reason is None,
        r.0.order.cancelled_by is None,
        r.0.order.completed_at is None,
        r.0.order.created_at == now,
        r.0.order.updated_at == now,
        r.0.expired_at == now + PAYMENT_WINDOW_MICROS,
        r.1.order_id == order_id,
        r.1.status == OrderStatus::Reserving,
        r.1.changed_by@ == uuid_text(titipers_id),
        r.1.actor_role == Role::System,
        r.1.notes@ == "Pesanan berhasil dibuat"@,
{
    let note = match &req.note_to_jastiper {
        Some(n) => n.clone(),
        None => String::new(),
    };
    let order = Order {
        order_id,
        titipers_id,
        jastiper_id,
        product_id: req.product_id,
        product_snapshot,
        quantity: req.quantity,
        unit_price: price.unit_price,
        service_fee: price.service_fee,
        total_price: price.total_price,
        status: OrderStatus::Reserving,
        shipping_address,
        note_to_jastiper: Some(note),
        tracking_number: None,
        courier: None,
        cancellation_reason: None,
        cancelled_by: None,
        completed_at: None,
        created_at: now,
        updated_at: now,
    };
    let changed_by = uuid_to_string(titipers_id);
    let entry = history_entry(
        order_id,
        &OrderStatus::Reserving,
        changed_by.as_str(),
        &Role::System,
        Some("Pesanan berhasil dibuat"),
    );
    (NewOrder { order, expired_at: now + PAYMENT_WINDOW_MICROS }, entry)
}

/// `s` with every single quote doubled, as inside an SQL string literal.
pub open spec fn escape_quotes(s: Seq<char>) -> Seq<char>
    decreases s.len(),
{
    if s.len() == 0 {
        s
    } else {
        escape_quotes(s.drop_last()) + if s.last() == '\'' {
            seq!['\'', '\'']
        } else {
            seq![s.last()]
        }
    }
}

/// `s` as an SQL string literal: quoted, with its quotes doubled.
pub open spec fn sql_quoted(s: Seq<char>) -> Seq<char> {
    seq!['\''] + escape_quotes(s) + seq!['\'']
}

/// The SQL string literals of `items`, separated by commas.
pub open spec fn quoted_list(items: Seq<Seq<char>>) -> Seq<char>
    decreases items.len(),
{
    if items.len() == 0 {
        seq![]
    } else if items.len() == 1 {
        sql_quoted(items[0])
    } else {
        quoted_list(items.drop_last()) + seq![','] + sql_quoted(items.last())
    }
}

/// The SQL expression of a text array holding `items`:
/// `ARRAY['a','b']::TEXT[]`.
pub open spec fn text_array_sql(items: Seq<Seq<char>>) -> Seq<char> {
    seq!['A', 'R', 'R', 'A', 'Y', '['] + quoted_list(items) + seq![']', ':', ':', 'T', 'E', 'X', 'T', '[', ']']
}

/// Appends `s` as an SQL string literal.
fn push_quoted(out: &mut Vec<char>, s: &str)
    ensures
        final(out)@ == old(out)@ + sql_quoted(s@),
{
    out.push('\'');
    let ghost start = out@;
    let n = s.unicode_len();
    let mut i: usize = 0;
    while i < n
        invariant
            n == s@.len(),
            i <= n,
            out@ == start + escape_quotes(s@.subrange(0, i as int)),
        decreases n - i,
    {
        let c = s.get_char(i);
        proof {
            assert(s@.subrange(0, i + 1).drop_last() =~= s@.subrange(0, i as int));
        }
        let ghost before = out@;
        if c == '\'' {
            out.push('\'');
            out.push('\'');
            assert(out@ =~= before + seq!['\'', '\'']);
        } else {
            out.push(c);
            assert(out@ =~= before + seq![c]);
        }
        i = i + 1;
    }
    assert(s@.subrange(0, n as int) =~= s@);
    out.push('\'');
    assert(out@ =~= old(out)@ + sql_quoted(s@));
}

/// The SQL expression with which the product images of a rating are stored:
/// a text array of the images, each quoted as an SQL string literal.
pub fn text_array_literal(items: &Vec<String>) -> (r: String)
    ensures
        r@ == text_array_sql(items@.map_values(|s: String| s@)),
{
    let ghost views = items@.map_values(|s: String| s@);
    let mut out: Vec<char> = Vec::new();
    out.push('A');
    out.push('R');
    out.push('R');
    out.push('A');
    out.push('Y');
    out.push('[');
    let ghost head = out@;
    let mut i: usize = 0;
    while i < items.len()
        invariant
            i <= items@.len(),
            views == items@.map_values(|s: String| s@),
            head == seq!['A', 'R', 'R', 'A', 'Y', '['],
            out@ == head + quoted_list(views.subrange(0, i as int)),
        decreases items@.len() - i,
    {
        let ghost before = out@;
        proof {
            assert(views.subrange(0, i + 1).drop_last() =~= views.subrange(0, i as int));
        }
        if i > 0 {
            out.push(',');
        }
        push_quoted(&mut out, items[i].as_str());
        proof {
            if i == 0 {
                assert(views.subrange(0, 1).len() == 1);
                assert(out@ =~= head + quoted_list(views.subrange(0, 1)));
            } else {
                assert(out@ =~= head + quoted_list(views.subrange(0, i + 1)));
            }
        }
        i = i + 1;
    }
    assert(views.subrange(0, items@.len() as int) =~= views);
    out.push(']');
    out.push(':');
    out.push(':');
    out.push('T');
    out.push('E');
    out.push('X');
    out.push('T');
    out.push('[');
    out.push(']');
    assert(out@ =~= text_array_sql(views));
    chars_to_string(&out)
}

} // verus!
