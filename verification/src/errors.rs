//! The error taxonomy of the authentication core.

use vstd::prelude::*;

verus! {

/// Every failure a core operation can report.
///
/// - `InvalidAccessToken`: the token is malformed, carries a bad signature,
///   has expired, or its subject is not currently logged in. Sub-causes are
///   never distinguished, so a caller learns nothing about why a token
///   failed.
/// - `Internal`: expiry computation or signing failed; never caused by the
///   caller's input alone.
/// - `Forbidden`: the identity is verified but lacks the required role.
/// - `NotFound`: a positional lookup was out of range.
#[derive(Clone, Copy, Debug, PartialEq, Eq, Structural)]
pub enum AuthError {
    InvalidAccessToken,
    Internal,
    Forbidden,
    NotFound,
}

} // verus!
