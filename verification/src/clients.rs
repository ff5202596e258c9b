//! The inventory and wallet services as this service calls them: which URL
//! each call goes to, and what each HTTP status of the answer means.

use vstd::prelude::*;
use crate::error::{AppError, AppErrorView, conflict, not_found, unprocessable};
use crate::ids::{uuid_text, uuid_to_string};
use crate::text::{owned};
use vstd::string::*;

verus! {

/// The inventory service, reached over HTTP.
pub struct HttpInventoryClient;

/// The wallet service, reached over HTTP.
pub struct HttpWalletClient;

/// The address used for a service when its environment variable is unset.
pub fn base_url_or(configured: Option<String>, default: &str) -> (r: String)
    ensures
        r@ == match configured {
            Some(c) => c@,
            None => default@,
        },
{
    match configured {
        Some(c) => c,
        None => owned(default),
    }
}

/// `prefix`, the order's id, then `suffix`: how payment, refund and earnings
/// descriptions name an order.
pub fn order_description(prefix: &str, order_id: u128, suffix: &str) -> (r: String)
    ensures
        r@ == prefix@ + uuid_text(order_id) + suffix@,
{
    let id = uuid_to_string(order_id);
    let mut out = String::from_str(prefix);
    out.append(id.as_str());
    out.append(suffix);
    out
}

/// Reserving or releasing stock.
#[derive(Clone, Copy, Debug, PartialEq, Eq, Structural)]
pub enum StockAction {
    Reserve,
    Release,
}

/// The last path segment of a stock call.
pub open spec fn stock_suffix(a: StockAction) -> Seq<char> {
    match a {
        StockAction::Reserve => "reserve"@,
        StockAction::Release => "release"@,
    }
}

/// The URL of a stock call: `{base}/internal/products/{product_id}/stock/{reserve|release}`.
pub fn stock_url(base: &str, product_id: u128, action: StockAction) -> (r: String)
    ensures
        r@ == base@ + "/internal/products/"@ + uuid_text(product_id) + "/stock/"@ + stock_suffix(
            action,
        ),
{
    let id = uuid_to_string(product_id);
    let mut out = String::from_str(base);
    out.append("/internal/products/");
    out.append(id.as_str());
    out.append("/stock/");
    match action {
        StockAction::Reserve => out.append("reserve"),
        StockAction::Release => out.append("release"),
    }
    out
}

/// What the inventory service's answer to a stock call means.
pub open spec fn stock_result_spec(status: u16) -> Result<(), AppErrorView> {
    if status == 200 {
        Ok(())
    } else if status == 404 {
        Err(AppErrorView::NotFound("Produk tidak ditemukan"@))
    } else if status == 409 {
        Err(AppErrorView::Conflict("Stok tidak mencukupi"@))
    } else if status == 422 {
        Err(AppErrorView::UnprocessableEntity("Produk tidak dalam status ACTIVE"@))
    } else {
        Err(AppErrorView::Internal)
    }
}

/// The outcome of a result, with the error taken by its view.
pub open spec fn result_view(r: Result<(), AppError>) -> Result<(), AppErrorView> {
    match r {
        Ok(()) => Ok(()),
        Err(e) => Err(e@),
    }
}

/// Reads the HTTP status of the answer to a stock call: 200 succeeds; 404
/// (no such product), 409 (not enough stock) and 422 (product not active)
/// are refusals; anything else is an internal error.
pub fn stock_result(status: u16) -> (r: Result<(), AppError>)
    ensures
        result_view(r) == stock_result_spec(status),
{
    match status {
        200 => Ok(()),
        404 => Err(not_found("Produk tidak ditemukan")),
        409 => Err(conflict("Stok tidak mencukupi")),
        422 => Err(unprocessable("Produk tidak dalam status ACTIVE")),
        _ => Err(AppError::Internal),
    }
}

/// Taking money from a buyer's wallet, or giving it back.
#[derive(Clone, Copy, Debug, PartialEq, Eq, Structural)]
pub enum WalletAction {
    Deduct,
    Refund,
}

/// The last path segment of a wallet call.
pub open spec fn wallet_endpoint(a: WalletAction) -> Seq<char> {
    match a {
        WalletAction::Deduct => "deduct"@,
        WalletAction::Refund => "refund"@,
    }
}

/// The URL of a wallet call: `{base}/internal/wallets/{deduct|refund}`.
pub fn wallet_url(base: &str, action: WalletAction) -> (r: String)
    ensures
        r@ == base@ + "/internal/wallets/"@ + wallet_endpoint(action),
{
    let mut out = String::from_str(base);
    out.append("/internal/wallets/");
    match action {
        WalletAction::Deduct => out.append("deduct"),
        WalletAction::Refund => out.append("refund"),
    }
    out
}

/// What the wallet service's answer to a wallet call means.
pub open spec fn wallet_result_spec(action: WalletAction, status: u16) -> Result<(), AppErrorView> {
    match action {
        WalletAction::Deduct => if status == 200 || status == 409 {
            Ok(())
        } else if status == 404 {
            Err(AppErrorView::NotFound("User tidak ditemukan"@))
        } else if status == 422 {
            Err(AppErrorView::UnprocessableEntity("Saldo tidak mencukupi"@))
        } else {
            Err(AppErrorView::Internal)
        },
        WalletAction::Refund => if status == 200 || status == 409 {
            Ok(())
        } else {
            Err(AppErrorView::Internal)
        },
    }
}

/// Reads the HTTP status of the answer to a wallet call. A deduction
/// succeeds on 200, and on 409 (already deducted: the call is idempotent);
/// 404 (no such user) and 422 (not enough balance) are refusals. A refund
/// succeeds on 200 and on 409 (already refunded). Anything else is an
/// internal error.
pub fn wallet_result(action: WalletAction, status: u16) -> (r: Result<(), AppError>)
    ensures
        result_view(r) == wallet_result_spec(action, status),
{
    match (action, status) {
        (WalletAction::Deduct, 200) => Ok(()),
        (WalletAction::Deduct, 404) => Err(not_found("User tidak ditemukan")),
        (WalletAction::Deduct, 409) => Ok(()),
        (WalletAction::Deduct, 422) => Err(unprocessable("Saldo tidak mencukupi")),
        (WalletAction::Deduct, _) => Err(AppError::Internal),
        (WalletAction::Refund, 200) | (WalletAction::Refund, 409) => Ok(()),
        (WalletAction::Refund, _) => Err(AppError::Internal),
    }
}

/// The URL of a product lookup: `{base}/products/{product_id}`.
pub fn product_url(base: &str, product_id: u128) -> (r: String)
    ensures
        r@ == base@ + "/products/"@ + uuid_text(product_id),
{
    let id = uuid_to_string(product_id);
    let mut out = String::from_str(base);
    out.append("/products/");
    out.append(id.as_str());
    out
}

/// What the inventory service's answer to a product lookup means.
pub open spec fn product_result_spec(status: u16) -> Result<(), AppErrorView> {
    if status == 200 {
        Ok(())
    } else if status == 404 {
        Err(AppErrorView::NotFound("Produk tidak ditemukan"@))
    } else if status == 422 {
        Err(AppErrorView::UnprocessableEntity("Produk tidak aktif"@))
    } else {
        Err(AppErrorView::Internal)
    }
}

/// Reads the HTTP status of the answer to a product lookup: 200 means the
/// body's `data` is the product; 404 (no such product) and 422 (product not
/// active) are refusals; anything else is an internal error.
pub fn product_result(status: u16) -> (r: Result<(), AppError>)
    ensures
        result_view(r) == product_result_spec(status),
{
    match status {
        200 => Ok(()),
        404 => Err(not_found("Produk tidak ditemukan")),
        422 => Err(unprocessable("Produk tidak aktif")),
        _ => Err(AppError::Internal),
    }
}

} // verus!
