//! Server-side engine of the Arke messaging protocol: the command catalogue,
//! key-bundle registration, handler dispatch and the per-connection state
//! machine, with their contracts.

pub mod command;
pub mod connection;
pub mod crypto;
pub mod handler;
pub mod server;
pub mod state;
pub mod user;
