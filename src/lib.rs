//! The connection profile of a tunnel client: validation of the port field,
//! synthesis of the access command, and the one-line files that remember the
//! last address and port.

pub mod command;
pub mod port;
pub mod profile;
pub mod store;
