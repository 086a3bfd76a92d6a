//! Data access: one module per kind of record.

pub mod products;
pub mod customers;
pub mod users;
pub mod orders;
pub mod stock;
