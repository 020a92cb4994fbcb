//! Request and response bodies exchanged with clients. The surrounding
//! HTTP layer owns their wire encoding; the library only carries the
//! plain values.

use vstd::prelude::*;

verus! {

/// Body of a login request: the login name and the password. The password
/// is accepted unconditionally by the core (an explicit, documented stub).
#[derive(Debug, Clone)]
pub struct LoginRequest {
    pub loginname: String,
    pub password: String,
}

/// Body of a successful login response: echoes the login name back.
#[derive(Debug, Clone)]
pub struct LoginResponse {
    pub loginname: String,
}

/// Body of the two-segment echo response.
#[derive(Debug, Clone)]
pub struct EchoThisAndThatResponse {
    pub this: String,
    pub that: String,
}

/// Body of the request-path echo response.
#[derive(Debug, Clone)]
pub struct EchoPathResponse {
    pub path: String,
}

} // verus!
