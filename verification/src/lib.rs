//! The client of File Peeker, a file browser: the decisions that it takes, the texts that it writes
//! and reads, and the states that it goes through, each with a contract.
//!
//! What talks to processes, sockets and files stands outside. It performs what this library asks
//! for and hands back what came of it as plain values.

pub mod api;
pub mod bytes;
pub mod cli;
pub mod client;
pub mod components;
pub mod connection;
pub mod ids;
pub mod install;
pub mod io_error;
pub mod message_laws;
pub mod operations;
pub mod path_laws;
pub mod protocol;
pub mod remote_server_install;
pub mod row_effects;
pub mod row_laws;
pub mod rows;
pub mod server;
pub mod session;
pub mod shell;
pub mod startup;
pub mod state;
pub mod text;
pub mod text_laws;
pub mod tree;
pub mod tree_effects;
pub mod tree_laws;
pub mod unix_path;
