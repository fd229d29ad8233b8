//! Request admission and resource access for a small quoting service.
//!
//! The crate holds the decisions that every request handler shares: who may
//! proceed and under which identity, how leases of pooled connections are
//! counted, how the outcome of offloaded work is read, and how every failure
//! is folded into one outward error type. The record types of the service
//! (users, customers, products, quotes) and the rules that turn requests
//! into rows and rows into responses live beside them.
//!
//! All of it is stated over plain values, so the transport and the storage
//! driver stay outside and hand their results in.

pub mod auth;
pub mod bridge;
pub mod clock;
pub mod database;
pub mod errors;
pub mod handlers;
pub mod hex;
pub mod ids;
pub mod middleware;
pub mod models;
pub mod parallel;
pub mod routes;
pub mod session;
pub mod validate;
