//! Verified core of a small point-of-sale backend: product catalogue,
//! customer registry, order placement with stock deduction, stock ledger,
//! dashboard figures, receipts and a single-session login.
//!
//! All state lives in a [`store::Store`]; every operation is an ordinary
//! function on it whose contract says exactly what it returns and how the
//! store changes. Amounts of money are whole centavos.

pub mod errors;
pub mod text;
pub mod timestamp;
pub mod models;
pub mod table;
pub mod sorting;
pub mod password;
pub mod store;
pub mod db;
pub mod auth;
pub mod guards;
pub mod receipts;
pub mod commands;
pub mod bootstrap;
pub mod laws;
