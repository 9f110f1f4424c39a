//! A small terminal multiplexer: the session model kept by the server,
//! the message protocol between client and server, the client's key
//! handling and the screen layout it draws.

pub mod channel;
pub mod cli;
pub mod client;
pub mod connection;
pub mod input;
pub mod ipc;
pub mod keys;
pub mod message_text;
pub mod model;
pub mod server;
pub mod session;
pub mod text;
pub mod ui;
pub mod util;
