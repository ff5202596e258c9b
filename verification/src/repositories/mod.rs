//! What the repositories decide before they talk to the database: which rows
//! a listing selects and in what order, which columns a status change
//! writes, and what a new order row holds.

pub mod query;

pub mod records;
