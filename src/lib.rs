//! Checkout logic for a payment-gateway storefront: order normalisation,
//! webhook file naming and listing, identifier generation and the small
//! request/response decisions of the HTTP handlers.

pub mod text;
pub mod urls;
pub mod ids;
pub mod cart;
pub mod order;
pub mod subscription;
pub mod handlers;
pub mod webhook;
