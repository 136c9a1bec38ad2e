//! A DNS-over-TLS forwarding proxy with hostname block lists: the wire codecs,
//! the block-list store and the per-request decisions, with their contracts.

pub mod endian;
pub mod error;
pub mod message;
pub mod tls_message;
pub mod text;
pub mod dns_message;
pub mod block_list;
pub mod config;
pub mod tls_connection;
pub mod listener;
