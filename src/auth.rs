use vstd::prelude::*;

verus! {

/// A registration request: a username and a plaintext password.
#[derive(Debug)]
pub struct RegisterPayload {
    pub username: String,
    pub password: String,
}

/// A login request: a username and a plaintext password.
#[derive(Debug)]
pub struct LoginPayload {
    pub username: String,
    pub password: String,
}

/// The answer to a successful login.
#[derive(Debug)]
pub struct LoginResponse {
    pub access_token: String,
}

} // verus!
