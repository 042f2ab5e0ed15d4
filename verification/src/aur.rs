//! A client for the AUR RPC interface: search kinds, package records,
//! the package cache, request URLs and response checks.

pub mod pkg;
pub mod package;
pub mod cache;
pub mod client;
