//! The verified core of the Gilvave chat server: validation of user names and
//! messages, the decisions of the gateway and of request authentication,
//! password and token handling, avatar checks, and the shared data types.

pub mod avatar;
pub mod dto;
pub mod error;
pub mod event;
pub mod gateway;
pub mod ids;
pub mod messaging;
pub mod model;
pub mod password;
pub mod security;
pub mod session;
pub mod storage;
pub mod text;
pub mod tokens;
pub mod validation;
