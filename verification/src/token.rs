//! The token codec: signed, expiring claims carried in an opaque string.
//!
//! A token wraps three claims — the subject (a login name), a role, and an
//! expiry timestamp in seconds — signed with the process secret using an
//! HMAC-SHA-512 signature. Signing and signature checking are done by the
//! `jsonwebtoken` crate; this module states what those calls return and
//! keeps the expiry comparison in verified code.

use vstd::prelude::*;

use crate::errors::AuthError;

verus! {

/// The signed payload of a token: subject, role and expiry (seconds since
/// the Unix epoch).
#[derive(Debug, Clone, PartialEq, Eq)]
pub struct UserLoginClaims {
    pub sub: String,
    pub role: String,
    pub exp: u64,
}

/// The token string produced by signing the given claims with the given
/// secret. The signature scheme is a deterministic MAC, so the token is a
/// function of the secret and the claims alone.
pub uninterp spec fn token_of(secret: Seq<u8>, sub: Seq<char>, role: Seq<char>, exp: u64) -> Seq<
    char,
>;

/// The claims a token string yields under the given secret: what this
/// library's decoding procedure recovers, `Some` exactly when it accepts
/// the token. Acceptance means: correctly signed with that secret, and
/// carrying string `sub` and `role` claims and an integer `exp` (the
/// fixed validation also rejects a correctly signed token that carries an
/// audience claim). The procedure reads no clock and nothing else
/// ambient, so the result is a function of the secret and the token
/// alone.
pub uninterp spec fn claims_of(secret: Seq<u8>, token: Seq<char>) -> Option<
    (Seq<char>, Seq<char>, u64),
>;

/// Relies on `jsonwebtoken::encode` with HMAC-SHA-512: the returned token
/// carries exactly the claims handed in, deterministically, and decoding
/// it with the same secret yields those claims back. For an HMAC secret
/// the call cannot fail — the key family always matches the algorithm, a
/// MAC key of any length is accepted, and serializing string and integer
/// claims cannot err — so the result is always `Ok`. Determinism rests on
/// the crate's process-wide default crypto provider; built with the
/// `rust_crypto` backend alone that default is fixed, and nothing here
/// installs another.
#[verifier::external_body]
pub(crate) fn jwt_encode_hs512(secret: &Vec<u8>, sub: &String, role: &String, exp: u64) -> (r:
    Result<String, AuthError>)
    ensures
        r is Ok,
        r matches Ok(t) ==> t@ == token_of(secret@, sub@, role@, exp),
        r matches Ok(t) ==> claims_of(secret@, t@) == Some((sub@, role@, exp)),
{
    let mut claims = serde_json::Map::new();
    claims.insert("sub".to_string(), serde_json::Value::String(sub.clone()));
    claims.insert("role".to_string(), serde_json::Value::String(role.clone()));
    claims.insert("exp".to_string(), serde_json::Value::from(exp));
    jsonwebtoken::encode(
        &jsonwebtoken::Header::new(jsonwebtoken::Algorithm::HS512),
        &serde_json::Value::Object(claims),
        &jsonwebtoken::EncodingKey::from_secret(secret.as_slice()),
    ).map_err(|_| AuthError::Internal)
}

/// Relies on `jsonwebtoken::decode` with HMAC-SHA-512, with expiry
/// validation switched off and no required claims, so that no clock is
/// read and the expiry comparison stays in verified code: succeeds
/// exactly on the tokens [`claims_of`] accepts, returning the claims they
/// carry. Determinism rests on the crate's process-wide default crypto
/// provider; built with the `rust_crypto` backend alone that default is
/// fixed, and nothing here installs another.
#[verifier::external_body]
pub(crate) fn jwt_decode_hs512(secret: &Vec<u8>, token: &String) -> (r: Result<
    UserLoginClaims,
    AuthError,
>)
    ensures
        r matches Ok(c) ==> claims_of(secret@, token@) == Some((c.sub@, c.role@, c.exp)),
        r matches Err(e) ==> e == AuthError::InvalidAccessToken && claims_of(secret@, token@)
            is None,
{
    let mut validation = jsonwebtoken::Validation::new(jsonwebtoken::Algorithm::HS512);
    validation.validate_exp = false;
    validation.required_spec_claims.clear();
    let key = jsonwebtoken::DecodingKey::from_secret(secret.as_slice());
    let data = jsonwebtoken::decode::<serde_json::Value>(token, &key, &validation)
        .map_err(|_| AuthError::InvalidAccessToken)?;
    let sub = data.claims.get("sub").and_then(|v| v.as_str())
        .ok_or(AuthError::InvalidAccessToken)?.to_string();
    let role = data.claims.get("role").and_then(|v| v.as_str())
        .ok_or(AuthError::InvalidAccessToken)?.to_string();
    let exp = data.claims.get("exp").and_then(|v| v.as_u64())
        .ok_or(AuthError::InvalidAccessToken)?;
    Ok(UserLoginClaims { sub, role, exp })
}

} // verus!
