//! What the library promises, in terms of what goes into a function and what
//! comes out of it.

pub mod addresses;
pub mod choices;
pub mod clients;
pub mod connections;
pub mod delivery;
pub mod health;
pub mod memory;
pub mod messages;
pub mod records;
pub mod scanning;
pub mod server;
pub mod session;
