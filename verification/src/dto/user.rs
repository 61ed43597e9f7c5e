use vstd::prelude::*;

use crate::ids::{SessionId, UserId};

verus! {

/// A user as stored.
#[derive(Debug, Clone)]
pub struct User {
    pub id: UserId,
    pub username: String,
    pub email: String,
    pub password_hash: String,
    pub is_active: bool,
    pub avatar: String,
}

/// What a client sends to register.
#[derive(Debug, Clone)]
pub struct RegisterRequest {
    pub username: String,
    pub email: String,
    pub password: String,
}

/// An IP address: four bytes (IPv4) or sixteen (IPv6), in network order.
#[derive(Debug, Clone, Copy, PartialEq, Eq)]
pub enum IpAddress {
    V4([u8; 4]),
    V6([u8; 16]),
}

/// What opening a session stores: the user, the digest of its refresh token,
/// the client's description of its device (JSON text) and its address.
#[derive(Debug, Clone)]
pub struct SessionCreateInfo {
    pub user_id: UserId,
    pub refresh_token_hash: Vec<u8>,
    pub device_info: String,
    pub ip_address: IpAddress,
}

/// What checking a refresh token reads of its session. `expires_at` is in
/// nanoseconds since the Unix epoch, UTC.
#[derive(Debug, Clone, Copy)]
pub struct SessionCheckInfo {
    pub id: SessionId,
    pub user_id: UserId,
    pub expires_at: i128,
}

/// The tokens handed out on login and refresh.
#[derive(Debug, Clone)]
pub struct AuthTokensResponse {
    pub access_token: String,
    pub refresh_token: String,
}

/// What a client sends to refresh its tokens.
#[derive(Debug, Clone)]
pub struct RefreshTokenRequest {
    pub refresh_token: String,
}

/// A user as shown to clients (no password hash).
#[derive(Debug, Clone)]
pub struct UserView {
    pub id: UserId,
    pub username: String,
    pub email: String,
    pub is_active: bool,
    pub avatar: String,
}

/// An uploaded avatar: the file name it came with and its bytes.
#[derive(Debug, Clone)]
pub struct Avatar {
    pub filename: String,
    pub bytes: Vec<u8>,
}

/// A new avatar URL for a user.
#[derive(Debug, Clone)]
pub struct UpdateAvatarInfo {
    pub user_id: UserId,
    pub url: String,
}

/// Where an avatar can be fetched.
#[derive(Debug, Clone)]
pub struct AvatarUrl {
    pub url: String,
}

/// A token to revoke, and its owner.
#[derive(Debug, Clone)]
pub struct BlacklistInfo {
    pub token: String,
    pub user_id: UserId,
}

} // verus!
