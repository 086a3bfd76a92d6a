//! The operations that a front end calls: each checks the session, then
//! does its work on the store.

pub mod customers;
pub mod dashboard;
pub mod orders;
pub mod products;
pub mod receipts;
pub mod stock;
pub mod users;
