//! A client library for the Checkout.com payments API and its Flow web
//! component: request and response bodies, the payment-session endpoints, and
//! the page that hosts Flow for a payment session.

pub mod apis;
pub mod client;
pub mod codec;
pub mod frontend;
pub mod models;
pub mod types;

pub use client::{Client, Environment};
