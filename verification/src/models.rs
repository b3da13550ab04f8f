//! Plain data records exchanged between the handlers and their callers.

use vstd::prelude::*;

verus! {

/// A stored user record.
#[derive(Debug)]
pub struct User {
    pub id: i32,
    pub name: String,
    pub email: String,
}

/// The reduced projection returned by delete operations; constructed on the
/// fly, never persisted.
#[derive(Debug)]
pub struct UserItem {
    pub id: i32,
    pub name: String,
}

/// Query-parameter container for the item-lookup endpoint.
#[derive(Debug, Clone, Copy, PartialEq, Eq, Structural)]
pub struct Page {
    pub number: u32,
}

/// Inbound payload for item creation.
#[derive(Debug)]
pub struct BodyItem {
    pub title: String,
}

/// Inbound payload for user creation; the id is assigned by storage.
#[derive(Debug)]
pub struct CreateUserRequest {
    pub name: String,
    pub email: String,
}

/// Process-wide immutable configuration snapshot, constructed once at
/// startup and shared read-only across all requests.
#[derive(Debug)]
pub struct AppState {
    pub db_name: String,
    pub db_user: String,
    pub db_host: String,
    pub db_port: String,
    pub server_host: String,
    pub server_port: String,
    pub admin_api_key: String,
}

} // verus!
