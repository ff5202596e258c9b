pub mod role;
pub mod order_state;
pub mod cancelled_by;
pub mod shipping_address;
pub mod order;
pub mod order_request;
pub mod filter_pagination;
pub mod order_status_history;
pub mod rating_idens;
pub mod war_queue;
pub mod product_snapshot;
pub mod checkout_request;
