//! Values exchanged with clients and read from the database.
pub mod channel;
pub mod server;
pub mod user;
