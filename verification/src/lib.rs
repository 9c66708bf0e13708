//! Typed request/response model for a brokerage trading API.
//!
//! The crate models the wire protocol of the API: compound asset
//! identifiers, per-field codecs for decimals, dates and enums, the
//! polymorphic order encoding, the cursor-based pagination protocol, and
//! the binding of each domain request to its method, path and payload.
//! Transport (HTTP, authentication, retries) is left to the caller: the
//! core only needs a way to send a method, path, query or body, and to
//! get back a status code and raw bytes.

pub mod account;
pub mod account_configurations;
pub mod activities;
pub mod assets;
pub mod body;
pub mod calendar;
pub mod clock;
pub mod codec;
pub mod common;
pub mod decimal;
pub mod error;
pub mod json;
pub mod orders;
pub mod pagination;
pub mod portfolio_history;
pub mod positions;
pub mod request;
pub mod strutil;
pub mod symbology;
pub mod temporal;
pub mod watchlists;

pub use common::AssetClass;
pub use common::Exchange;
pub use common::Sort;
pub use symbology::Identifier;
