//! Epoch, a personal time tracker: the rules that its command-line client
//! and its HTTP server follow, each with its contract and proof.

pub mod text;
pub mod time;
pub mod api;
pub mod routes;
pub mod store;
pub mod auth;
pub mod settings;
pub mod cli;
