//! Paying a Lightning address through a remote wallet, without doing any I/O.
//!
//! The crate holds the decisions of a payment: how an address is split, which
//! amounts a service accepts, when a comment is sent along, how a wallet's
//! reply is read and which step follows which. The caller performs the HTTP
//! requests and the wallet commands that the crate asks for and hands the
//! replies back.
//!
//! - `address`: Lightning addresses and how they are parsed.
//! - `lightning`: the two requests to the payment service that lead from an
//!   address to an invoice.
//! - `wallet`: the connection to the wallet, the balance query and the
//!   payment command.
//! - `payment`: one payment attempt from address to preimage, as a state
//!   machine, with what holds of every attempt in `payment::laws`.
//! - `api`: the two operations as a host application sees them.
//! - `error`: the errors, by kind and in words.
//! - `decimal`: numbers written in decimal.

pub mod address;
pub mod api;
pub mod decimal;
pub mod error;
pub mod lightning;
pub mod payment;
pub mod wallet;
