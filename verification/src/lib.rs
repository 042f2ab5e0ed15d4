//! Zeus: an AUR helper that builds packages inside containers.
//!
//! This crate holds the logic of zeus: the package search kinds and the
//! option enums with their textual forms, the AUR request URLs and the
//! response checks, the package cache, the configuration precedence
//! rules, database transactions, the command lines handed to pacman,
//! makepkg and git, and the decisions of the builder and the runtimes.

pub mod text;
pub mod aur;
pub mod config;
pub mod log;
pub mod db;
pub mod builder;
pub mod runtime;
pub mod query;
pub mod error;
pub mod ipc;
