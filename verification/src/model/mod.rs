//! Stored entities.
pub mod channel;
pub mod guild;
pub mod message;
pub mod ref_token;
pub mod server;
pub mod server_member;
pub mod user;

pub use channel::ChannelType;
pub use message::Message;
pub use ref_token::RefreshToken;
pub use server::{Channel, Server, ServerMember};
pub use user::User;
