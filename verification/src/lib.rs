//! Core of a small IMAP-over-MCP server.
//!
//! The crate holds the decisions of the server: who may reach the MCP
//! endpoint, how one-shot download tickets are staged and redeemed, how a
//! download is answered and logged, and which configurations are fit to start
//! with.
//! Sockets, Redis connections and JSON stay with the caller.

pub mod auth;
pub mod config;
pub mod disposition;
pub mod download;
pub mod error;
pub mod hosts;
pub mod interleaving;
pub mod records;
pub mod reply;
pub mod routes;
pub mod secret;
pub mod session;
pub mod state;
pub mod text;
pub mod ticket;
pub mod ticket_laws;
pub mod uuids;

pub use auth::{extract_bearer_token, token_matches};
pub use disposition::build_content_disposition;
pub use download::{download_handler, download_reply};
pub use hosts::derive_mcp_allowed_hosts;
pub use routes::healthz;
pub use state::{mcp_handler, AccountResolver, AppState};
