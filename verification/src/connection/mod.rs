//! Connections to servers that this client starts and owns.

pub mod control;
pub mod grpc;
pub mod installer;
pub mod launch;
pub mod lines;
pub mod reach_laws;
pub mod socks5;
