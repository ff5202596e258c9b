//! The lifecycle of an order: its statuses, which role may move it from one
//! status to the next, and who may cancel it in each status.

use vstd::prelude::*;
use crate::error::{AppError, AppErrorView, forbidden, unprocessable};
use crate::models::role::Role;
use crate::text::{str_eq, enclose};

verus! {

/// The status of an order.
#[derive(Clone, Copy, Debug, PartialEq, Eq, Structural)]
pub enum OrderStatus {
    /// Created by checkout; stock and wallet are still being checked by the worker.
    Reserving,
    Pending,
    Paid,
    Purchased,
    Shipped,
    Completed,
    Refunding,
    RefundFailed,
    Cancelled,
}

/// The upper-case name under which a status is stored and sent.
pub open spec fn status_name(s: OrderStatus) -> Seq<char> {
    match s {
        OrderStatus::Reserving => "RESERVING"@,
        OrderStatus::Pending => "PENDING"@,
        OrderStatus::Paid => "PAID"@,
        OrderStatus::Purchased => "PURCHASED"@,
        OrderStatus::Shipped => "SHIPPED"@,
        OrderStatus::Completed => "COMPLETED"@,
        OrderStatus::Refunding => "REFUNDING"@,
        OrderStatus::RefundFailed => "REFUND_FAILED"@,
        OrderStatus::Cancelled => "CANCELLED"@,
    }
}

/// The status whose name is `s`, if any.
pub open spec fn parse_status(s: Seq<char>) -> Option<OrderStatus> {
    if s == "RESERVING"@ {
        Some(OrderStatus::Reserving)
    } else if s == "PENDING"@ {
        Some(OrderStatus::Pending)
    } else if s == "PAID"@ {
        Some(OrderStatus::Paid)
    } else if s == "PURCHASED"@ {
        Some(OrderStatus::Purchased)
    } else if s == "SHIPPED"@ {
        Some(OrderStatus::Shipped)
    } else if s == "COMPLETED"@ {
        Some(OrderStatus::Completed)
    } else if s == "REFUNDING"@ {
        Some(OrderStatus::Refunding)
    } else if s == "REFUND_FAILED"@ {
        Some(OrderStatus::RefundFailed)
    } else if s == "CANCELLED"@ {
        Some(OrderStatus::Cancelled)
    } else {
        None
    }
}

/// The text of the error for a string that names no status.
pub open spec fn invalid_status_text(s: Seq<char>) -> Seq<char> {
    "Nilai Order Status tidak valid: '"@ + s + "'"@
}

/// Whether `role` may move an order from `from` to `next`.
pub open spec fn transition_allowed(from: OrderStatus, role: Role, next: OrderStatus) -> bool {
    match from {
        OrderStatus::Reserving => false,
        OrderStatus::Pending => next == OrderStatus::Paid && role == Role::System,
        OrderStatus::Paid => next == OrderStatus::Purchased && (role == Role::Jastiper || role
            == Role::Admin),
        OrderStatus::Purchased => next == OrderStatus::Shipped && (role == Role::Jastiper || role
            == Role::Admin),
        OrderStatus::Shipped => next == OrderStatus::Completed && (role == Role::Titipers || role
            == Role::Admin),
        OrderStatus::Completed => false,
        OrderStatus::Refunding => next == OrderStatus::Completed && (role == Role::System || role
            == Role::Admin),
        OrderStatus::RefundFailed => next == OrderStatus::Completed && role == Role::Admin,
        OrderStatus::Cancelled => false,
    }
}

/// The error with which a refused status change from `from` is answered.
pub open spec fn update_refusal(from: OrderStatus) -> AppErrorView {
    match from {
        OrderStatus::Reserving => AppErrorView::UnprocessableEntity(
            "Order sedang dalam proses RESERVING, tidak bisa diubah"@,
        ),
        OrderStatus::Pending => AppErrorView::Forbidden(
            "Status PENDING hanya bisa berubah ke PAID oleh SYSTEM"@,
        ),
        OrderStatus::Paid => AppErrorView::Forbidden(
            "Status PAID hanya bisa berubah ke PURCHASED oleh JASTIPER/ADMIN"@,
        ),
        OrderStatus::Purchased => AppErrorView::Forbidden(
            "Status PURCHASED hanya bisa berubah ke SHIPPED oleh JASTIPER/ADMIN"@,
        ),
        OrderStatus::Shipped => AppErrorView::Forbidden(
            "Status SHIPPED hanya bisa berubah ke COMPLETED oleh TITIPERS/ADMIN"@,
        ),
        OrderStatus::Completed => AppErrorView::UnprocessableEntity(
            "Order sudah COMPLETED, tidak bisa diubah"@,
        ),
        OrderStatus::Refunding => AppErrorView::UnprocessableEntity(
            "Order sedang dalam proses REFUNDING, tidak bisa diubah"@,
        ),
        OrderStatus::RefundFailed => AppErrorView::UnprocessableEntity(
            "Order dalam status REFUNDING hanya bisa diubah oleh admin"@,
        ),
        OrderStatus::Cancelled => AppErrorView::UnprocessableEntity(
            "Order sudah CANCELLED, tidak bisa diubah"@,
        ),
    }
}

/// Whether `role` may cancel an order that is in status `from`.
pub open spec fn cancel_allowed(from: OrderStatus, role: Role) -> bool {
    match from {
        OrderStatus::Pending | OrderStatus::Paid | OrderStatus::Purchased => role == Role::Jastiper
            || role == Role::Admin,
        OrderStatus::Shipped => role == Role::Admin,
        _ => false,
    }
}

/// The error with which a refused cancellation in status `from` is answered.
pub open spec fn cancel_refusal(from: OrderStatus) -> AppErrorView {
    match from {
        OrderStatus::Reserving => AppErrorView::UnprocessableEntity(
            "Order sedang dalam proses RESERVING, tidak bisa dibatalkan"@,
        ),
        OrderStatus::Pending => AppErrorView::Forbidden(
            "Hanya JASTIPER atau ADMIN yang bisa cancel order PENDING"@,
        ),
        OrderStatus::Paid => AppErrorView::Forbidden(
            "Hanya JASTIPER atau ADMIN yang bisa cancel order PAID"@,
        ),
        OrderStatus::Purchased => AppErrorView::Forbidden(
            "Hanya JASTIPER atau ADMIN yang bisa cancel order PURCHASED"@,
        ),
        OrderStatus::Shipped => AppErrorView::Forbidden("Hanya ADMIN yang bisa cancel order SHIPPED"@),
        OrderStatus::Completed => AppErrorView::UnprocessableEntity(
            "Order sudah COMPLETED, tidak bisa dibatalkan"@,
        ),
        OrderStatus::Refunding => AppErrorView::UnprocessableEntity(
            "Order sedang dalam proses REFUNDING, tidak bisa dibatalkan"@,
        ),
        OrderStatus::RefundFailed => AppErrorView::UnprocessableEntity(
            "Order sedang dalam proses REFUND_FAILED, tidak bisa dibatalkan"@,
        ),
        OrderStatus::Cancelled => AppErrorView::UnprocessableEntity("Order sudah CANCELLED"@),
    }
}

impl OrderStatus {
    /// The status's upper-case name.
    pub fn as_str(&self) -> (r: &'static str)
        ensures
            r@ == status_name(*self),
    {
        match self {
            OrderStatus::Reserving => "RESERVING",
            OrderStatus::Pending => "PENDING",
            OrderStatus::Paid => "PAID",
            OrderStatus::Purchased => "PURCHASED",
            OrderStatus::Shipped => "SHIPPED",
            OrderStatus::Completed => "COMPLETED",
            OrderStatus::Refunding => "REFUNDING",
            OrderStatus::RefundFailed => "REFUND_FAILED",
            OrderStatus::Cancelled => "CANCELLED",
        }
    }

    /// Reads a status from its upper-case name; any other text is refused
    /// with a message that quotes it.
    pub fn from_str(s: &str) -> (r: Result<OrderStatus, String>)
        ensures
            parse_status(s@) matches Some(x) ==> r == Ok::<OrderStatus, String>(x),
            parse_status(s@) is None ==> (r matches Err(m) && m@ == invalid_status_text(s@)),
    {
        if str_eq(s, "RESERVING") {
            Ok(OrderStatus::Reserving)
        } else if str_eq(s, "PENDING") {
            Ok(OrderStatus::Pending)
        } else if str_eq(s, "PAID") {
            Ok(OrderStatus::Paid)
        } else if str_eq(s, "PURCHASED") {
            Ok(OrderStatus::Purchased)
        } else if str_eq(s, "SHIPPED") {
            Ok(OrderStatus::Shipped)
        } else if str_eq(s, "COMPLETED") {
            Ok(OrderStatus::Completed)
        } else if str_eq(s, "REFUNDING") {
            Ok(OrderStatus::Refunding)
        } else if str_eq(s, "REFUND_FAILED") {
            Ok(OrderStatus::RefundFailed)
        } else if str_eq(s, "CANCELLED") {
            Ok(OrderStatus::Cancelled)
        } else {
            Err(enclose("Nilai Order Status tidak valid: '", s, "'"))
        }
    }
}

/// The behaviour of an order while it is in one particular status.
pub trait OrderState {
    /// The status this state stands for.
    spec fn state_status(&self) -> OrderStatus;

    /// Moves the order to `next` on behalf of `role`, or refuses.
    fn update_status(&self, role: &Role, next: &OrderStatus) -> (r: Result<OrderStatus, AppError>)
        ensures
            r is Ok <==> transition_allowed(self.state_status(), *role, *next),
            r matches Ok(s) ==> s == *next,
            r matches Err(e) ==> e@ == update_refusal(self.state_status()),
    ;

    /// Whether `role` may cancel the order in this state.
    fn cancel(&self, role: &Role) -> (r: Result<(), AppError>)
        ensures
            r is Ok <==> cancel_allowed(self.state_status(), *role),
            r matches Err(e) ==> e@ == cancel_refusal(self.state_status()),
    ;

    /// The status this state stands for.
    fn current_status(&self) -> (s: OrderStatus)
        ensures
            s == self.state_status(),
    ;
}

/// An order whose stock and wallet checks are still running.
pub struct ReservingState;

/// An order waiting for payment.
pub struct PendingState;

/// An order that has been paid.
pub struct PaidState;

/// An order whose item the seller has bought.
pub struct PurchasedState;

/// An order on its way to the buyer.
pub struct ShippedState;

/// An order the buyer has received.
pub struct CompletedState;

/// An order being refunded after a cancellation.
pub struct RefundingState;

/// An order whose refund failed.
pub struct RefundFailedState;

/// A cancelled order.
pub struct CancelledState;

impl OrderState for ReservingState {
    open spec fn state_status(&self) -> OrderStatus {
        OrderStatus::Reserving
    }

    fn update_status(&self, _role: &Role, _next: &OrderStatus) -> (r: Result<
        OrderStatus,
        AppError,
    >) {
        Err(unprocessable("Order sedang dalam proses RESERVING, tidak bisa diubah"))
    }

    fn cancel(&self, _role: &Role) -> (r: Result<(), AppError>) {
        Err(unprocessable("Order sedang dalam proses RESERVING, tidak bisa dibatalkan"))
    }

    fn current_status(&self) -> (s: OrderStatus) {
        OrderStatus::Reserving
    }
}

impl OrderState for PendingState {
    open spec fn state_status(&self) -> OrderStatus {
        OrderStatus::Pending
    }

    fn update_status(&self, role: &Role, next: &OrderStatus) -> (r: Result<OrderStatus, AppError>) {
        match (next, role) {
            (OrderStatus::Paid, Role::System) => Ok(OrderStatus::Paid),
            _ => Err(forbidden("Status PENDING hanya bisa berubah ke PAID oleh SYSTEM")),
        }
    }

    fn cancel(&self, role: &Role) -> (r: Result<(), AppError>) {
        match role {
            Role::Jastiper | Role::Admin => Ok(()),
            _ => Err(forbidden("Hanya JASTIPER atau ADMIN yang bisa cancel order PENDING")),
        }
    }

    fn current_status(&self) -> (s: OrderStatus) {
        OrderStatus::Pending
    }
}

impl OrderState for PaidState {
    open spec fn state_status(&self) -> OrderStatus {
        OrderStatus::Paid
    }

    fn update_status(&self, role: &Role, next: &OrderStatus) -> (r: Result<OrderStatus, AppError>) {
        match (next, role) {
            (OrderStatus::Purchased, Role::Jastiper) | (OrderStatus::Purchased, Role::Admin) => Ok(
                OrderStatus::Purchased,
            ),
            _ => Err(forbidden("Status PAID hanya bisa berubah ke PURCHASED oleh JASTIPER/ADMIN")),
        }
    }

    fn cancel(&self, role: &Role) -> (r: Result<(), AppError>) {
        match role {
            Role::Jastiper | Role::Admin => Ok(()),
            _ => Err(forbidden("Hanya JASTIPER atau ADMIN yang bisa cancel order PAID")),
        }
    }

    fn current_status(&self) -> (s: OrderStatus) {
        OrderStatus::Paid
    }
}

impl OrderState for PurchasedState {
    open spec fn state_status(&self) -> OrderStatus {
        OrderStatus::Purchased
    }

    fn update_status(&self, role: &Role, next: &OrderStatus) -> (r: Result<OrderStatus, AppError>) {
        match (next, role) {
            (OrderStatus::Shipped, Role::Jastiper) | (OrderStatus::Shipped, Role::Admin) => Ok(
                OrderStatus::Shipped,
            ),
            _ => Err(
                forbidden("Status PURCHASED hanya bisa berubah ke SHIPPED oleh JASTIPER/ADMIN"),
            ),
        }
    }

    fn cancel(&self, role: &Role) -> (r: Result<(), AppError>) {
        match role {
            Role::Jastiper | Role::Admin => Ok(()),
            _ => Err(forbidden("Hanya JASTIPER atau ADMIN yang bisa cancel order PURCHASED")),
        }
    }

    fn current_status(&self) -> (s: OrderStatus) {
        OrderStatus::Purchased
    }
}

impl OrderState for ShippedState {
    open spec fn state_status(&self) -> OrderStatus {
        OrderStatus::Shipped
    }

    fn update_status(&self, role: &Role, next: &OrderStatus) -> (r: Result<OrderStatus, AppError>) {
        match (next, role) {
            (OrderStatus::Completed, Role::Titipers) | (OrderStatus::Completed, Role::Admin) => Ok(
                OrderStatus::Completed,
            ),
            _ => Err(
                forbidden("Status SHIPPED hanya bisa berubah ke COMPLETED oleh TITIPERS/ADMIN"),
            ),
        }
    }

    fn cancel(&self, role: &Role) -> (r: Result<(), AppError>) {
        match role {
            Role::Admin => Ok(()),
            _ => Err(forbidden("Hanya ADMIN yang bisa cancel order SHIPPED")),
        }
    }

    fn current_status(&self) -> (s: OrderStatus) {
        OrderStatus::Shipped
    }
}

impl OrderState for CompletedState {
    open spec fn state_status(&self) -> OrderStatus {
        OrderStatus::Completed
    }

    fn update_status(&self, _role: &Role, _next: &OrderStatus) -> (r: Result<
        OrderStatus,
        AppError,
    >) {
        Err(unprocessable("Order sudah COMPLETED, tidak bisa diubah"))
    }

    fn cancel(&self, _role: &Role) -> (r: Result<(), AppError>) {
        Err(unprocessable("Order sudah COMPLETED, tidak bisa dibatalkan"))
    }

    fn current_status(&self) -> (s: OrderStatus) {
        OrderStatus::Completed
    }
}

impl OrderState for RefundingState {
    open spec fn state_status(&self) -> OrderStatus {
        OrderStatus::Refunding
    }

    fn update_status(&self, role: &Role, next: &OrderStatus) -> (r: Result<OrderStatus, AppError>) {
        match (next, role) {
            (OrderStatus::Completed, Role::System) | (OrderStatus::Completed, Role::Admin) => Ok(
                OrderStatus::Completed,
            ),
            _ => Err(unprocessable("Order sedang dalam proses REFUNDING, tidak bisa diubah")),
        }
    }

    fn cancel(&self, _role: &Role) -> (r: Result<(), AppError>) {
        Err(unprocessable("Order sedang dalam proses REFUNDING, tidak bisa dibatalkan"))
    }

    fn current_status(&self) -> (s: OrderStatus) {
        OrderStatus::Refunding
    }
}

impl OrderState for RefundFailedState {
    open spec fn state_status(&self) -> OrderStatus {
        OrderStatus::RefundFailed
    }

    fn update_status(&self, role: &Role, next: &OrderStatus) -> (r: Result<OrderStatus, AppError>) {
        match (next, role) {
            (OrderStatus::Completed, Role::Admin) => Ok(OrderStatus::Completed),
            _ => Err(unprocessable("Order dalam status REFUNDING hanya bisa diubah oleh admin")),
        }
    }

    fn cancel(&self, _role: &Role) -> (r: Result<(), AppError>) {
        Err(unprocessable("Order sedang dalam proses REFUND_FAILED, tidak bisa dibatalkan"))
    }

    fn current_status(&self) -> (s: OrderStatus) {
        OrderStatus::RefundFailed
    }
}

impl OrderState for CancelledState {
    open spec fn state_status(&self) -> OrderStatus {
        OrderStatus::Cancelled
    }

    fn update_status(&self, _role: &Role, _next: &OrderStatus) -> (r: Result<
        OrderStatus,
        AppError,
    >) {
        Err(unprocessable("Order sudah CANCELLED, tidak bisa diubah"))
    }

    fn cancel(&self, _role: &Role) -> (r: Result<(), AppError>) {
        Err(unprocessable("Order sudah CANCELLED"))
    }

    fn current_status(&self) -> (s: OrderStatus) {
        OrderStatus::Cancelled
    }
}

/// Asks the state object for `status` to move the order to `next` on behalf of `role`.
fn state_update(status: OrderStatus, role: &Role, next: &OrderStatus) -> (r: Result<
    OrderStatus,
    AppError,
>)
    ensures
        r is Ok <==> transition_allowed(status, *role, *next),
        r matches Ok(s) ==> s == *next,
        r matches Err(e) ==> e@ == update_refusal(status),
{
    match status {
        OrderStatus::Reserving => ReservingState.update_status(role, next),
        OrderStatus::Pending => PendingState.update_status(role, next),
        OrderStatus::Paid => PaidState.update_status(role, next),
        OrderStatus::Purchased => PurchasedState.update_status(role, next),
        OrderStatus::Shipped => ShippedState.update_status(role, next),
        OrderStatus::Completed => CompletedState.update_status(role, next),
        OrderStatus::Refunding => RefundingState.update_status(role, next),
        OrderStatus::RefundFailed => RefundFailedState.update_status(role, next),
        OrderStatus::Cancelled => CancelledState.update_status(role, next),
    }
}

/// Asks the state object for `status` whether `role` may cancel.
fn state_cancel(status: OrderStatus, role: &Role) -> (r: Result<(), AppError>)
    ensures
        r is Ok <==> cancel_allowed(status, *role),
        r matches Err(e) ==> e@ == cancel_refusal(status),
{
    match status {
        OrderStatus::Reserving => ReservingState.cancel(role),
        OrderStatus::Pending => PendingState.cancel(role),
        OrderStatus::Paid => PaidState.cancel(role),
        OrderStatus::Purchased => PurchasedState.cancel(role),
        OrderStatus::Shipped => ShippedState.cancel(role),
        OrderStatus::Completed => CompletedState.cancel(role),
        OrderStatus::Refunding => RefundingState.cancel(role),
        OrderStatus::RefundFailed => RefundFailedState.cancel(role),
        OrderStatus::Cancelled => CancelledState.cancel(role),
    }
}

/// An order's lifecycle, positioned at its current status.
pub struct OrderMachine {
    current: OrderStatus,
}

impl View for OrderMachine {
    type V = OrderStatus;

    closed spec fn view(&self) -> OrderStatus {
        self.current
    }
}

impl OrderMachine {
    /// A machine positioned at `status`.
    pub fn from_status(status: &OrderStatus) -> (m: OrderMachine)
        ensures
            m@ == *status,
    {
        OrderMachine { current: *status }
    }

    /// The status the machine is at.
    pub fn current_status(&self) -> (s: OrderStatus)
        ensures
            s == self@,
    {
        let r = state_current(self.current);
        r
    }

    /// Moves to `next` on behalf of `role` when the lifecycle allows it, and
    /// otherwise stays where it is and answers with the current status's refusal.
    pub fn update_status(&mut self, role: &Role, next: &OrderStatus) -> (r: Result<
        OrderStatus,
        AppError,
    >)
        ensures
            r is Ok <==> transition_allowed(old(self)@, *role, *next),
            r matches Ok(s) ==> s == *next && final(self)@ == *next,
            r matches Err(e) ==> e@ == update_refusal(old(self)@) && final(self)@ == old(self)@,
    {
        let result = state_update(self.current, role, next);
        match result {
            Ok(s) => {
                self.current = s;
                Ok(s)
            },
            Err(e) => Err(e),
        }
    }

    /// Whether `role` may cancel the order at its current status.
    pub fn cancel(&self, role: &Role) -> (r: Result<(), AppError>)
        ensures
            r is Ok <==> cancel_allowed(self@, *role),
            r matches Err(e) ==> e@ == cancel_refusal(self@),
    {
        state_cancel(self.current, role)
    }
}

/// The status the state object for `status` reports.
fn state_current(status: OrderStatus) -> (r: OrderStatus)
    ensures
        r == status,
{
    match status {
        OrderStatus::Reserving => ReservingState.current_status(),
        OrderStatus::Pending => PendingState.current_status(),
        OrderStatus::Paid => PaidState.current_status(),
        OrderStatus::Purchased => PurchasedState.current_status(),
        OrderStatus::Shipped => ShippedState.current_status(),
        OrderStatus::Completed => CompletedState.current_status(),
        OrderStatus::Refunding => RefundingState.current_status(),
        OrderStatus::RefundFailed => RefundFailedState.current_status(),
        OrderStatus::Cancelled => CancelledState.current_status(),
    }
}

/// Reading a status's name gives the status back.
pub proof fn lemma_status_name_round_trip(s: OrderStatus)
    ensures
        parse_status(status_name(s)) == Some(s),
{
    reveal_strlit("RESERVING");
    reveal_strlit("PENDING");
    reveal_strlit("PAID");
    reveal_strlit("PURCHASED");
    reveal_strlit("SHIPPED");
    reveal_strlit("COMPLETED");
    reveal_strlit("REFUNDING");
    reveal_strlit("REFUND_FAILED");
    reveal_strlit("CANCELLED");
    let names = seq![
        "RESERVING"@,
        "PENDING"@,
        "PAID"@,
        "PURCHASED"@,
        "SHIPPED"@,
        "COMPLETED"@,
        "REFUNDING"@,
        "REFUND_FAILED"@,
        "CANCELLED"@,
    ];
    assert forall|i: int, j: int| 0 <= i < j < 9 implies names[i] != names[j] by {
        if names[i].len() == names[j].len() {
            if names[i][0] == names[j][0] {
                if names[i][1] == names[j][1] {
                    assert(names[i][2] != names[j][2]);
                } else {
                    assert(names[i][1] != names[j][1]);
                }
            } else {
                assert(names[i][0] != names[j][0]);
            }
        }
    }
    assert(names[0] == status_name(OrderStatus::Reserving));
    assert(names[1] == status_name(OrderStatus::Pending));
    assert(names[2] == status_name(OrderStatus::Paid));
    assert(names[3] == status_name(OrderStatus::Purchased));
    assert(names[4] == status_name(OrderStatus::Shipped));
    assert(names[5] == status_name(OrderStatus::Completed));
    assert(names[6] == status_name(OrderStatus::Refunding));
    assert(names[7] == status_name(OrderStatus::RefundFailed));
    assert(names[8] == status_name(OrderStatus::Cancelled));
}

/// A name that is read as a status is exactly that status's name.
pub proof fn lemma_parse_status_exact(s: Seq<char>)
    ensures
        parse_status(s) matches Some(x) ==> status_name(x) == s,
{
}

/// How far along its lifecycle an order in status `s` is.
pub open spec fn progress_rank(s: OrderStatus) -> nat {
    match s {
        OrderStatus::Reserving => 0,
        OrderStatus::Pending => 1,
        OrderStatus::Paid => 2,
        OrderStatus::Purchased => 3,
        OrderStatus::Shipped => 4,
        OrderStatus::Refunding => 4,
        OrderStatus::RefundFailed => 4,
        OrderStatus::Completed => 5,
        OrderStatus::Cancelled => 5,
    }
}

/// COMPLETED and CANCELLED are final: no role may move such an order to any
/// status, and no role may cancel it; nor may anyone cancel an order that is
/// being refunded or whose refund failed.
pub proof fn lemma_final_statuses(role: Role, next: OrderStatus)
    ensures
        !transition_allowed(OrderStatus::Completed, role, next),
        !transition_allowed(OrderStatus::Cancelled, role, next),
        !cancel_allowed(OrderStatus::Completed, role),
        !cancel_allowed(OrderStatus::Cancelled, role),
        !cancel_allowed(OrderStatus::Refunding, role),
        !cancel_allowed(OrderStatus::RefundFailed, role),
{
}

/// Every allowed status change moves the order strictly forward.
pub proof fn lemma_transition_moves_forward(from: OrderStatus, role: Role, next: OrderStatus)
    requires
        transition_allowed(from, role, next),
    ensures
        progress_rank(from) < progress_rank(next),
{
}

/// From each status there is at most one status an order can be moved to,
/// whoever asks.
pub proof fn lemma_single_successor(
    from: OrderStatus,
    r1: Role,
    n1: OrderStatus,
    r2: Role,
    n2: OrderStatus,
)
    requires
        transition_allowed(from, r1, n1),
        transition_allowed(from, r2, n2),
    ensures
        n1 == n2,
{
}

/// Whether `path` is a run of allowed status changes, the i-th made by `roles[i]`.
pub open spec fn is_allowed_path(path: Seq<OrderStatus>, roles: Seq<Role>) -> bool {
    &&& path.len() == roles.len() + 1
    &&& forall|i: int| 0 <= i < roles.len() ==> transition_allowed(
        #[trigger] path[i],
        roles[i],
        path[i + 1],
    )
}

/// Along any run of allowed status changes the order keeps moving forward, so
/// an order never comes back to a status it has left.
pub proof fn lemma_no_status_revisited(path: Seq<OrderStatus>, roles: Seq<Role>, i: int, j: int)
    requires
        is_allowed_path(path, roles),
        0 <= i < j < path.len(),
    ensures
        progress_rank(path[i]) < progress_rank(path[j]),
        path[i] != path[j],
    decreases j - i,
{
    assert(transition_allowed(path[j - 1], roles[j - 1], path[j]));
    if i < j - 1 {
        lemma_no_status_revisited(path, roles, i, j - 1);
    }
}

/// The service itself (the SYSTEM role) may never cancel an order, and a buyer
/// (TITIPERS) may never cancel one through the lifecycle either.
pub proof fn lemma_system_and_buyer_never_cancel(s: OrderStatus)
    ensures
        !cancel_allowed(s, Role::System),
        !cancel_allowed(s, Role::Titipers),
{
}

/// An admin may cancel every order that is past its reservation checks and
/// has not been completed, cancelled or handed to a refund.
pub proof fn lemma_admin_cancels_open_orders(s: OrderStatus)
    requires
        progress_rank(s) < 5,
        s != OrderStatus::Reserving,
        s != OrderStatus::Refunding,
        s != OrderStatus::RefundFailed,
    ensures
        cancel_allowed(s, Role::Admin),
{
}

impl std::str::FromStr for OrderStatus {
    type Err = String;

    /// Reads a name as [`OrderStatus::from_str`] does.
    fn from_str(s: &str) -> Result<OrderStatus, String> {
        OrderStatus::from_str(s)
    }
}

} // verus!
