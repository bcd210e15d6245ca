use vstd::prelude::*;

verus! {

/// Payload to create a user.
pub struct CreateUserRequest {
    pub username: String,
    pub email: String,
}

/// Payload to update a user; an absent field keeps its current value.
pub struct UpdateUserRequest {
    pub username: Option<String>,
    pub email: Option<String>,
}

/// One row of the user store, as plain values.
#[derive(Clone)]
pub struct UserRecord {
    pub id: i32,
    pub username: String,
    pub email: String,
}

/// The client-facing view of one user.
#[derive(Clone)]
pub struct UserResponse {
    pub id: i32,
    pub username: String,
    pub email: String,
}

/// The response a stored row maps to.
pub open spec fn spec_response_of(m: UserRecord) -> UserResponse {
    UserResponse { id: m.id, username: m.username, email: m.email }
}

impl From<UserRecord> for UserResponse {
    fn from(m: UserRecord) -> (r: UserResponse) {
        UserResponse { id: m.id, username: m.username, email: m.email }
    }
}

impl vstd::std_specs::convert::FromSpecImpl<UserRecord> for UserResponse {
    open spec fn obeys_from_spec() -> bool {
        true
    }

    open spec fn from_spec(m: UserRecord) -> UserResponse {
        spec_response_of(m)
    }
}

/// A user as the bare demo handler builds one.
pub struct User {
    pub id: i32,
    pub username: String,
}

impl User {
    pub fn new(id: i32, username: String) -> (u: User)
        ensures
            u.id == id,
            u.username == username,
    {
        User { id, username }
    }
}

} // verus!
