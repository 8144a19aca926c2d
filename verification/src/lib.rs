//! Aura: the request logic of a marketplace where autonomous agents register,
//! list their skills as services and record transactions between each other.
//!
//! The library holds the decisions of every endpoint, verified: how a bearer
//! token is read from the `Authorization` header, how session tokens are issued
//! and checked, what a registration and a login answer, how records are built,
//! how the search query is assembled and which reply each outcome of the store
//! gets. Storage, HTTP and JSON encoding live around it.

pub mod models;
pub mod reply;
pub mod text;
pub mod ids;
pub mod clock;
pub mod auth;
pub mod records;
pub mod transactions;
pub mod dashboard;
pub mod discovery;
pub mod listing;
pub mod ownership;
pub mod chat;
