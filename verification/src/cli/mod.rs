//! What the command-line programs decide and print.

pub mod install;
pub mod list;
pub mod output_laws;
pub mod ssh_connection;
pub mod upload;
pub mod walk;
