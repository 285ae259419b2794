//! Who is signed in.

use vstd::prelude::*;

verus! {

/// The user as the server last knew them: the `data` of an answer to the
/// status request.
#[derive(Debug)]
pub struct CurrentUserPayload {
    pub username: String,
}

/// The user as the front end hands them over.
#[derive(Debug)]
pub struct User {
    pub uuid: String,
    pub username: String,
    pub is_logged_in: i32,
    pub server_address: Option<String>,
    pub server_instance_uuid: Option<String>,
    pub token: Option<String>,
}

} // verus!
