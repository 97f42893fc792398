//! A gated token sale: an admin sets a price and a purchase limit, keeps a
//! whitelist of buyers, opens and closes the sale, and whitelisted buyers
//! exchange funds for newly issued tokens up to the limit.
//!
//! The ledger that moves funds and issues tokens is outside this library:
//! an operation that needs it first decides what to ask of it, and the
//! caller hands back what the ledger answered.
pub mod account;
pub mod identity;
pub mod laws;
pub mod model;
pub mod whitelist_sale;
