//! Listing queries: paging window, sort order and filter conditions.

use vstd::prelude::*;
use crate::models::filter_pagination::{OrderFilter, SortOrder};
use crate::models::order::OrderIden;
use crate::models::order_state::OrderStatus;
use crate::text::str_eq;

verus! {

/// The page size used when none is asked for.
pub const DEFAULT_LIMIT: i64 = 20;

/// The largest page size a listing returns.
pub const MAX_LIMIT: i64 = 100;

/// The page size of a listing: the one asked for (20 if none), capped at 100.
pub open spec fn window_limit(limit: Option<i64>) -> int {
    let l: int = match limit {
        Some(l) => l as int,
        None => 20,
    };
    if l < 100 {
        l
    } else {
        100
    }
}

/// The number of rows skipped before the page: pages before the one asked
/// for (the first page if none, and pages below 1 count as the first) times
/// the page size.
pub open spec fn window_offset(page: Option<i64>, limit: Option<i64>) -> int {
    let p: int = match page {
        Some(p) => p as int,
        None => 1,
    };
    let p1: int = if p > 1 {
        p
    } else {
        1
    };
    (p1 - 1) * window_limit(limit)
}

/// The page size and offset of a listing. The product of page and size
/// must fit in an `i64`.
pub fn page_window(page: Option<i64>, limit: Option<i64>) -> (r: (i64, i64))
    requires
        i64::MIN <= window_offset(page, limit) <= i64::MAX,
    ensures
        r.0 == window_limit(limit),
        r.1 == window_offset(page, limit),
{
    let l: i64 = match limit {
        Some(l) => l,
        None => DEFAULT_LIMIT,
    };
    let final_limit: i64 = if l < MAX_LIMIT {
        l
    } else {
        MAX_LIMIT
    };
    let p: i64 = match page {
        Some(p) => p,
        None => 1,
    };
    let p1: i64 = if p > 1 {
        p
    } else {
        1
    };
    let offset: i64 = (p1 - 1) * final_limit;
    (final_limit, offset)
}

/// Whether the offset of a listing fits in an `i64`, as [`page_window`] needs.
pub fn page_window_fits(page: Option<i64>, limit: Option<i64>) -> (r: bool)
    ensures
        r == (i64::MIN <= window_offset(page, limit) <= i64::MAX),
{
    let l: i128 = match limit {
        Some(l) => l as i128,
        None => DEFAULT_LIMIT as i128,
    };
    let final_limit: i128 = if l < MAX_LIMIT as i128 {
        l
    } else {
        MAX_LIMIT as i128
    };
    let p: i128 = match page {
        Some(p) => p as i128,
        None => 1,
    };
    let p1: i128 = if p > 1 {
        p
    } else {
        1
    };
    assert(0 <= p1 - 1 <= i64::MAX);
    assert(i64::MIN <= final_limit <= 100);
    assert(-0x8000_0000_0000_0000_0000_0000_0000_0000 <= (p1 - 1) * final_limit
        <= 0x7fff_ffff_ffff_ffff_ffff_ffff_ffff_ffff) by (nonlinear_arith)
        requires
            0 <= p1 - 1 <= i64::MAX,
            i64::MIN <= final_limit <= 100,
    ;
    let offset: i128 = (p1 - 1) * final_limit;
    i64::MIN as i128 <= offset && offset <= i64::MAX as i128
}

/// The column a listing is sorted by: `created_at`, `updated_at` or
/// `total_price` when asked for by name, and `created_at` otherwise.
pub open spec fn sort_column_spec(sort_by: Option<Seq<char>>) -> OrderIden {
    match sort_by {
        Some(s) => if s == "updated_at"@ {
            OrderIden::UpdatedAt
        } else if s == "total_price"@ {
            OrderIden::TotalPrice
        } else {
            OrderIden::CreatedAt
        },
        None => OrderIden::CreatedAt,
    }
}

/// The column a listing is sorted by.
pub fn sort_column(sort_by: Option<&str>) -> (r: OrderIden)
    ensures
        r == sort_column_spec(
            match sort_by {
                Some(s) => Some(s@),
                None => None,
            },
        ),
{
    proof {
        reveal_strlit("created_at");
        reveal_strlit("updated_at");
        reveal_strlit("total_price");
        assert("created_at"@[1] != "updated_at"@[1]);
        assert("created_at"@[0] != "total_price"@[0]);
    }
    match sort_by {
        Some(s) => {
            if str_eq(s, "created_at") {
                OrderIden::CreatedAt
            } else if str_eq(s, "updated_at") {
                OrderIden::UpdatedAt
            } else if str_eq(s, "total_price") {
                OrderIden::TotalPrice
            } else {
                OrderIden::CreatedAt
            }
        },
        None => OrderIden::CreatedAt,
    }
}

/// The direction of a listing: descending only when asked for.
pub fn sort_direction(order: Option<SortOrder>) -> (r: SortOrder)
    ensures
        r == (if order == Some(SortOrder::Desc) {
            SortOrder::Desc
        } else {
            SortOrder::Asc
        }),
{
    match order {
        Some(SortOrder::Desc) => SortOrder::Desc,
        _ => SortOrder::Asc,
    }
}

/// One condition a listed order must meet. Ids are UUID values; times are
/// microseconds since the Unix epoch.
#[derive(Clone, Copy, Debug, PartialEq, Eq, Structural)]
pub enum Condition {
    /// The buyer is this user.
    TitipersIs(u128),
    /// The seller is this user.
    JastiperIs(u128),
    /// The product is this one.
    ProductIs(u128),
    /// The status, read as text, is this status's name.
    StatusIs(OrderStatus),
    /// Created at or after this time.
    CreatedFrom(i64),
    /// Created at or before this time.
    CreatedUntil(i64),
    /// Expires strictly before this time.
    ExpiresBefore(i64),
}

/// `Some(x)` as a one-condition list, `None` as no condition.
pub open spec fn maybe<T>(c: Option<T>, f: spec_fn(T) -> Condition) -> Seq<Condition> {
    match c {
        Some(x) => seq![f(x)],
        None => seq![],
    }
}

/// The conditions of a filter, all of which a listed order must meet: buyer,
/// seller, product, status and the creation-time bounds, each only when given.
pub open spec fn filter_conditions_spec(filter: Option<OrderFilter>) -> Seq<Condition> {
    match filter {
        None => seq![],
        Some(f) => maybe(f.titipers_id, |id: u128| Condition::TitipersIs(id)) + maybe(
            f.jastiper_id,
            |id: u128| Condition::JastiperIs(id),
        ) + maybe(f.product_id, |id: u128| Condition::ProductIs(id)) + maybe(
            f.status,
            |s: OrderStatus| Condition::StatusIs(s),
        ) + maybe(f.date_from, |t: i64| Condition::CreatedFrom(t)) + maybe(
            f.date_to,
            |t: i64| Condition::CreatedUntil(t),
        ),
    }
}

/// Appends the condition for `c` when it is given.
fn push_some_id(v: &mut Vec<Condition>, c: Option<u128>, which: u8)
    requires
        which < 3,
    ensures
        final(v)@ == old(v)@ + match c {
            Some(id) => seq![
                if which == 0 {
                    Condition::TitipersIs(id)
                } else if which == 1 {
                    Condition::JastiperIs(id)
                } else {
                    Condition::ProductIs(id)
                },
            ],
            None => Seq::<Condition>::empty(),
        },
{
    match c {
        Some(id) => {
            if which == 0 {
                v.push(Condition::TitipersIs(id));
            } else if which == 1 {
                v.push(Condition::JastiperIs(id));
            } else {
                v.push(Condition::ProductIs(id));
            }
        },
        None => {},
    }
}

/// The conditions of a filter, in the order buyer, seller, product, status,
/// earliest and latest creation time, each only when the filter gives it.
pub fn filter_conditions(filter: Option<&OrderFilter>) -> (r: Vec<Condition>)
    ensures
        r@ == filter_conditions_spec(
            match filter {
                Some(f) => Some(*f),
                None => None,
            },
        ),
{
    let mut v: Vec<Condition> = Vec::new();
    match filter {
        None => {},
        Some(f) => {
            push_some_id(&mut v, f.titipers_id, 0);
            push_some_id(&mut v, f.jastiper_id, 1);
            push_some_id(&mut v, f.product_id, 2);
            match f.status {
                Some(s) => v.push(Condition::StatusIs(s)),
                None => {},
            }
            match f.date_from {
                Some(t) => v.push(Condition::CreatedFrom(t)),
                None => {},
            }
            match f.date_to {
                Some(t) => v.push(Condition::CreatedUntil(t)),
                None => {},
            }
        },
    }
    proof {
        match filter {
            Some(f) => {
                assert(v@ =~= filter_conditions_spec(Some(*f)));
            },
            None => {
                assert(v@ =~= filter_conditions_spec(None));
            },
        }
    }
    v
}

proof fn lemma_concat_contains(a: Seq<Condition>, b: Seq<Condition>, x: Condition)
    ensures
        (a + b).contains(x) <==> (a.contains(x) || b.contains(x)),
{
    if a.contains(x) {
        let i = choose|i: int| 0 <= i < a.len() && a[i] == x;
        assert((a + b)[i] == x);
    }
    if b.contains(x) {
        let i = choose|i: int| 0 <= i < b.len() && b[i] == x;
        assert((a + b)[a.len() + i] == x);
    }
    if (a + b).contains(x) {
        let i = choose|i: int| 0 <= i < (a + b).len() && (a + b)[i] == x;
        if i < a.len() {
            assert(a[i] == x);
        } else {
            assert(b[i - a.len()] == x);
        }
    }
}

proof fn lemma_maybe_contains<T>(c: Option<T>, f: spec_fn(T) -> Condition, x: Condition)
    ensures
        maybe(c, f).contains(x) <==> (c matches Some(v) && f(v) == x),
        maybe(c, f).len() == (if c is Some { 1int } else { 0int }),
{
    match c {
        Some(v) => {
            assert(maybe(c, f)[0] == f(v));
            if maybe(c, f).contains(x) {
                let i = choose|i: int| 0 <= i < maybe(c, f).len() && maybe(c, f)[i] == x;
                assert(i == 0);
            }
        },
        None => {},
    }
}

/// Each field of a filter gives exactly one condition, of the kind named by
/// the field: the buyer, seller, product and status are matched as given,
/// `date_from` is a lower bound and `date_to` an upper bound on the
/// creation time; no filter (or an empty one) gives no condition.
pub proof fn lemma_filter_fields_give_their_conditions(f: OrderFilter, x: Condition)
    ensures
        filter_conditions_spec(None).len() == 0,
        filter_conditions_spec(Some(f)).contains(x) <==> match x {
            Condition::TitipersIs(id) => f.titipers_id == Some(id),
            Condition::JastiperIs(id) => f.jastiper_id == Some(id),
            Condition::ProductIs(id) => f.product_id == Some(id),
            Condition::StatusIs(s) => f.status == Some(s),
            Condition::CreatedFrom(t) => f.date_from == Some(t),
            Condition::CreatedUntil(t) => f.date_to == Some(t),
            Condition::ExpiresBefore(_) => false,
        },
        filter_conditions_spec(Some(f)).len() == (if f.titipers_id is Some { 1int } else { 0int })
            + (if f.jastiper_id is Some { 1int } else { 0int }) + (if f.product_id is Some {
            1int
        } else {
            0int
        }) + (if f.status is Some { 1int } else { 0int }) + (if f.date_from is Some {
            1int
        } else {
            0int
        }) + (if f.date_to is Some { 1int } else { 0int }),
{
    let a = maybe(f.titipers_id, |id: u128| Condition::TitipersIs(id));
    let b = maybe(f.jastiper_id, |id: u128| Condition::JastiperIs(id));
    let c = maybe(f.product_id, |id: u128| Condition::ProductIs(id));
    let d = maybe(f.status, |s: OrderStatus| Condition::StatusIs(s));
    let e = maybe(f.date_from, |t: i64| Condition::CreatedFrom(t));
    let g = maybe(f.date_to, |t: i64| Condition::CreatedUntil(t));
    assert(filter_conditions_spec(Some(f)) == a + b + c + d + e + g);
    lemma_concat_contains(a, b, x);
    lemma_concat_contains(a + b, c, x);
    lemma_concat_contains(a + b + c, d, x);
    lemma_concat_contains(a + b + c + d, e, x);
    lemma_concat_contains(a + b + c + d + e, g, x);
    lemma_maybe_contains(f.titipers_id, |id: u128| Condition::TitipersIs(id), x);
    lemma_maybe_contains(f.jastiper_id, |id: u128| Condition::JastiperIs(id), x);
    lemma_maybe_contains(f.product_id, |id: u128| Condition::ProductIs(id), x);
    lemma_maybe_contains(f.status, |s: OrderStatus| Condition::StatusIs(s), x);
    lemma_maybe_contains(f.date_from, |t: i64| Condition::CreatedFrom(t), x);
    lemma_maybe_contains(f.date_to, |t: i64| Condition::CreatedUntil(t), x);
}

/// The conditions that select the pending orders whose payment time has
/// run out at `now`.
pub fn expired_pending_conditions(now: i64) -> (r: Vec<Condition>)
    ensures
        r@ == seq![Condition::StatusIs(OrderStatus::Pending), Condition::ExpiresBefore(now)],
{
    let mut v: Vec<Condition> = Vec::new();
    v.push(Condition::StatusIs(OrderStatus::Pending));
    v.push(Condition::ExpiresBefore(now));
    v
}

/// A listing never returns more than 100 rows per page, and the first page
/// (asked for, or assumed when no page is given, or a page below 1) skips nothing.
pub proof fn lemma_page_window_bounds(page: Option<i64>, limit: Option<i64>)
    ensures
        window_limit(limit) <= 100,
        (page is None || page->0 <= 1) ==> window_offset(page, limit) == 0,
{
    let l = window_limit(limit);
    assert(0 * l == 0) by (nonlinear_arith);
}

} // verus!
