use json_order_service::clients::{
    base_url_or, order_description, product_result, product_url, stock_result, stock_url,
    wallet_result, wallet_url, StockAction, WalletAction,
};
use json_order_service::error::AppError;

const PRODUCT: &str = "550e8400-e29b-41d4-a716-446655440000";

fn id(s: &str) -> u128 {
    uuid::Uuid::parse_str(s).unwrap().as_u128()
}

#[test]
fn stock_urls() {
    assert_eq!(
        stock_url("http://inv", id(PRODUCT), StockAction::Reserve),
        format!("http://inv/internal/products/{}/stock/reserve", PRODUCT)
    );
    assert_eq!(
        stock_url("http://inv", id(PRODUCT), StockAction::Release),
        format!("http://inv/internal/products/{}/stock/release", PRODUCT)
    );
    assert_eq!(product_url("http://inv", id(PRODUCT)), format!("http://inv/products/{}", PRODUCT));
    assert_eq!(wallet_url("http://w", WalletAction::Deduct), "http://w/internal/wallets/deduct");
    assert_eq!(wallet_url("http://w", WalletAction::Refund), "http://w/internal/wallets/refund");
    assert_eq!(base_url_or(None, "http://localhost:8081"), "http://localhost:8081");
    assert_eq!(base_url_or(Some("http://x".into()), "http://localhost:8081"), "http://x");
}

#[test]
fn stock_answers() {
    assert!(stock_result(200).is_ok());
    assert!(matches!(stock_result(404), Err(AppError::NotFound(m)) if m == "Produk tidak ditemukan"));
    assert!(matches!(stock_result(409), Err(AppError::Conflict(m)) if m == "Stok tidak mencukupi"));
    assert!(matches!(stock_result(422),
        Err(AppError::UnprocessableEntity(m)) if m == "Produk tidak dalam status ACTIVE"));
    assert!(matches!(stock_result(500), Err(AppError::Internal)));
}

#[test]
fn wallet_answers() {
    assert!(wallet_result(WalletAction::Deduct, 200).is_ok());
    assert!(wallet_result(WalletAction::Deduct, 409).is_ok());
    assert!(matches!(wallet_result(WalletAction::Deduct, 404),
        Err(AppError::NotFound(m)) if m == "User tidak ditemukan"));
    assert!(matches!(wallet_result(WalletAction::Deduct, 422),
        Err(AppError::UnprocessableEntity(m)) if m == "Saldo tidak mencukupi"));
    assert!(matches!(wallet_result(WalletAction::Deduct, 502), Err(AppError::Internal)));
    assert!(wallet_result(WalletAction::Refund, 200).is_ok());
    assert!(wallet_result(WalletAction::Refund, 409).is_ok());
    assert!(matches!(wallet_result(WalletAction::Refund, 404), Err(AppError::Internal)));
}

#[test]
fn product_answers() {
    assert!(product_result(200).is_ok());
    assert!(matches!(product_result(404), Err(AppError::NotFound(m)) if m == "Produk tidak ditemukan"));
    assert!(matches!(product_result(422),
        Err(AppError::UnprocessableEntity(m)) if m == "Produk tidak aktif"));
    assert!(matches!(product_result(301), Err(AppError::Internal)));
}

#[test]
fn descriptions_name_the_order() {
    assert_eq!(
        order_description("Pembayaran Order #", id(PRODUCT), ""),
        format!("Pembayaran Order #{}", PRODUCT)
    );
    assert_eq!(
        order_description("Refund Order #", id(PRODUCT), " - pesanan dibatalkan"),
        format!("Refund Order #{} - pesanan dibatalkan", PRODUCT)
    );
}
