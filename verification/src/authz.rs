//! The role gate: a pure comparison of a verified identity against a
//! required role, used in front of privileged operations.

use vstd::prelude::*;

use crate::errors::AuthError;
use crate::model::LoginInfo;

verus! {

/// Allows continuation exactly when the verified identity carries the
/// required role; otherwise reports `Forbidden`. Authentication has
/// already succeeded by the time this gate runs, so the failure is an
/// authorization failure, distinct from `InvalidAccessToken`.
pub fn check_required_role(required_role: &String, login_info: &LoginInfo) -> (r: Result<
    (),
    AuthError,
>)
    ensures
        r is Ok <==> login_info@.role == required_role@,
        r is Err ==> r->Err_0 == AuthError::Forbidden,
{
    if login_info.role == *required_role {
        Ok(())
    } else {
        Err(AuthError::Forbidden)
    }
}

} // verus!
