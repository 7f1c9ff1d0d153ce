//! Decision and text logic of a ticket-purchase bot for tiket.com.
pub mod autofill;
pub mod browser;
pub mod checkout;
pub mod config;
pub mod error;
pub mod monitor;
pub mod notification;
pub mod text;
