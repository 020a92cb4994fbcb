//! The session manager: composes the token codec and the login directory,
//! and enforces the consistency between a stateless signed token and the
//! server-side login state.
//!
//! A token authenticates a request if and only if it is correctly signed,
//! unexpired, and its subject is currently marked logged in by the
//! directory. The directory, not the token, is the source of truth for the
//! role, so a stale token can never assert an outdated role.
//!
//! Time enters every operation as an explicit count of seconds since the
//! Unix epoch; reading the clock is the caller's business.

use vstd::prelude::*;

use crate::directory::{
    dir_wf, lemma_lookup_is_entry, lemma_lookup_logout_same, lemma_lookup_upsert_same,
    lemma_logout_keeps_names_and_roles, lemma_upsert_keeps_names_and_roles, lookup,
    spec_set_logged_out, spec_upsert, Directory,
};
use crate::errors::AuthError;
use crate::model::{
    role_for, role_of, spec_project, AccessToken, LoginInfo, LoginInfoView, StoredLoginInfo,
    StoredLoginInfoView,
};
use crate::token::{claims_of, jwt_decode_hs512, jwt_encode_hs512, token_of, UserLoginClaims};

verus! {

/// How long a token stays valid after issue, in seconds.
pub const ACCESS_TOKEN_EXPIRATION_TIME_SECS: u64 = 60;

/// Every entry's role is the one its name derives at first login; an
/// invariant of the session manager (the directory alone does not care
/// where roles come from).
pub open spec fn roles_consistent(dir: Seq<StoredLoginInfoView>) -> bool {
    forall|i: int| 0 <= i < dir.len() ==> dir[i].role == role_of(dir[i].loginname)
}

/// A name currently counts as logged in.
pub open spec fn is_logged_in(dir: Seq<StoredLoginInfoView>, name: Seq<char>) -> bool {
    match lookup(dir, name) {
        Some(e) => e.logged_in,
        None => false,
    }
}

/// What verifying a token against a directory state yields: the public
/// projection of the subject's entry when the token is correctly signed,
/// unexpired and the subject is logged in; the uniform
/// `InvalidAccessToken` otherwise.
pub open spec fn spec_verify(
    secret: Seq<u8>,
    dir: Seq<StoredLoginInfoView>,
    token: Seq<char>,
    now: u64,
) -> Result<LoginInfoView, AuthError> {
    match claims_of(secret, token) {
        Some(claims) => if claims.2 > now {
            match lookup(dir, claims.0) {
                Some(e) => if e.logged_in {
                    Ok((LoginInfoView { loginname: e.loginname, role: e.role }))
                } else {
                    Err(AuthError::InvalidAccessToken)
                },
                None => Err(AuthError::InvalidAccessToken),
            }
        } else {
            Err(AuthError::InvalidAccessToken)
        },
        None => Err(AuthError::InvalidAccessToken),
    }
}

/// The session manager's state: the signing secret, fixed at start-up for
/// the process lifetime, and the login directory.
pub struct AppState {
    secret: Vec<u8>,
    pub logins: Directory,
}

impl View for AppState {
    type V = Seq<StoredLoginInfoView>;

    closed spec fn view(&self) -> Seq<StoredLoginInfoView> {
        self.logins@
    }
}

impl AppState {
    /// The signing secret's mathematical value.
    pub closed spec fn spec_secret(&self) -> Seq<u8> {
        self.secret@
    }

    /// Well-formedness: unique names, roles as derived at first login.
    pub open spec fn wf(&self) -> bool {
        dir_wf(self@) && roles_consistent(self@)
    }

    /// A fresh manager around the given signing secret, with an empty
    /// directory.
    pub fn new(secret: Vec<u8>) -> (r: Self)
        ensures
            r.wf(),
            r.spec_secret() == secret@,
            r@ == Seq::<StoredLoginInfoView>::empty(),
    {
        AppState { secret, logins: Directory::new() }
    }

    /// Issues a signed token for the subject and role, expiring
    /// [`ACCESS_TOKEN_EXPIRATION_TIME_SECS`] after `now`. Succeeds for
    /// every subject and role; the one failure, internal, is an expiry
    /// `now + 60` that does not fit in 64 bits.
    pub fn create_jwt_for_user(&self, loginname: &String, role: &String, now: u64) -> (r: Result<
        String,
        AuthError,
    >)
        ensures
            r matches Ok(t) ==> now + ACCESS_TOKEN_EXPIRATION_TIME_SECS <= u64::MAX && t@
                == token_of(
                self.spec_secret(),
                loginname@,
                role@,
                (now + ACCESS_TOKEN_EXPIRATION_TIME_SECS) as u64,
            ) && claims_of(self.spec_secret(), t@) == Some(
                (loginname@, role@, (now + ACCESS_TOKEN_EXPIRATION_TIME_SECS) as u64),
            ),
            r matches Err(e) ==> e == AuthError::Internal,
            now > u64::MAX - ACCESS_TOKEN_EXPIRATION_TIME_SECS ==> r is Err,
            now <= u64::MAX - ACCESS_TOKEN_EXPIRATION_TIME_SECS ==> r is Ok,
    {
        if now > u64::MAX - ACCESS_TOKEN_EXPIRATION_TIME_SECS {
            return Err(AuthError::Internal);
        }
        let exp = now + ACCESS_TOKEN_EXPIRATION_TIME_SECS;
        jwt_encode_hs512(&self.secret, loginname, role, exp)
    }

    /// Checks a token's signature and expiry, returning its claims. The
    /// expiry must lie strictly after `now`. Every failure is the uniform
    /// `InvalidAccessToken`.
    pub fn decode_user_jwt(&self, token: &String, now: u64) -> (r: Result<
        UserLoginClaims,
        AuthError,
    >)
        ensures
            r matches Ok(c) ==> claims_of(self.spec_secret(), token@) == Some(
                (c.sub@, c.role@, c.exp),
            ) && c.exp > now,
            r matches Err(e) ==> e == AuthError::InvalidAccessToken && (claims_of(
                self.spec_secret(),
                token@,
            ) matches Some(claims) ==> claims.2 <= now),
    {
        let claims = match jwt_decode_hs512(&self.secret, token) {
            Ok(c) => c,
            Err(_) => {
                return Err(AuthError::InvalidAccessToken);
            },
        };
        if claims.exp > now {
            Ok(claims)
        } else {
            Err(AuthError::InvalidAccessToken)
        }
    }

    /// Logs a user in. The password is accepted unconditionally — an
    /// explicit stub, documented, not a security feature. The role is
    /// derived from the name for a first login and never recomputed
    /// afterwards; the directory entry is created or marked logged in; a
    /// fresh token for the derived role is returned with its time to live
    /// in seconds. Succeeds whenever the expiry `now + 60` fits in 64
    /// bits; the one failure is internal and leaves the directory
    /// untouched.
    pub fn login(&mut self, loginname: String, _password: String, now: u64) -> (r: Result<
        (u64, AccessToken),
        AuthError,
    >)
        requires
            old(self).wf(),
        ensures
            final(self).wf(),
            final(self).spec_secret() == old(self).spec_secret(),
            match r {
                Ok((ttl, token)) => {
                    &&& ttl == ACCESS_TOKEN_EXPIRATION_TIME_SECS
                    &&& now + ACCESS_TOKEN_EXPIRATION_TIME_SECS <= u64::MAX
                    &&& token@ == token_of(
                        old(self).spec_secret(),
                        loginname@,
                        role_of(loginname@),
                        (now + ACCESS_TOKEN_EXPIRATION_TIME_SECS) as u64,
                    )
                    &&& claims_of(old(self).spec_secret(), token@) == Some(
                        (
                            loginname@,
                            role_of(loginname@),
                            (now + ACCESS_TOKEN_EXPIRATION_TIME_SECS) as u64,
                        ),
                    )
                    &&& final(self)@ == spec_upsert(
                        old(self)@,
                        loginname@,
                        role_of(loginname@),
                    )
                },
                Err(e) => e == AuthError::Internal && final(self)@ == old(self)@,
            },
            now > u64::MAX - ACCESS_TOKEN_EXPIRATION_TIME_SECS ==> r is Err,
            now <= u64::MAX - ACCESS_TOKEN_EXPIRATION_TIME_SECS ==> r is Ok,
    {
        let role = role_for(&loginname);
        let jwt = match self.create_jwt_for_user(&loginname, &role, now) {
            Ok(j) => j,
            Err(e) => {
                return Err(e);
            },
        };
        let access_token = AccessToken(jwt);
        proof {
            lemma_upsert_keeps_names_and_roles(self@, loginname@, role_of(loginname@));
        }
        self.logins.upsert_logged_in(loginname, role);
        Ok((ACCESS_TOKEN_EXPIRATION_TIME_SECS, access_token))
    }

    /// Logs a user out: clears the directory flag when the name is known,
    /// does nothing otherwise. Idempotent.
    pub fn logout(&mut self, login_info: &LoginInfo)
        requires
            old(self).wf(),
        ensures
            final(self).wf(),
            final(self).spec_secret() == old(self).spec_secret(),
            final(self)@ == spec_set_logged_out(old(self)@, login_info@.loginname),
    {
        proof {
            lemma_logout_keeps_names_and_roles(self@, login_info@.loginname);
        }
        self.logins.set_logged_out(&login_info.loginname);
    }

    /// Authenticates a request: decodes the token, then cross-checks the
    /// directory — the subject must be currently logged in, and the
    /// returned role is the directory's, never the token's. Exactly
    /// [`spec_verify`] on the current state.
    pub fn verify_access_token(&self, access_token: &String, now: u64) -> (r: Result<
        LoginInfo,
        AuthError,
    >)
        ensures
            match r {
                Ok(info) => spec_verify(self.spec_secret(), self@, access_token@, now)
                    == Ok::<LoginInfoView, AuthError>(info@),
                Err(e) => spec_verify(self.spec_secret(), self@, access_token@, now)
                    == Err::<LoginInfoView, AuthError>(e),
            },
    {
        let claims = match self.decode_user_jwt(access_token, now) {
            Ok(c) => c,
            Err(_) => {
                return Err(AuthError::InvalidAccessToken);
            },
        };
        match self.logins.get(&claims.sub) {
            Some(entry) => {
                if entry.logged_in {
                    Ok(LoginInfo::from_stored(&entry))
                } else {
                    Err(AuthError::InvalidAccessToken)
                }
            },
            None => Err(AuthError::InvalidAccessToken),
        }
    }

    /// Refreshes a token: re-checks that the identity is still logged in
    /// (the caller's word is not trusted), then issues a fresh token with
    /// a new expiry, carrying the directory's current role for the
    /// subject. A logged-in subject is owed a fresh token whenever the
    /// expiry `now + 60` fits in 64 bits; `InvalidAccessToken` means
    /// exactly "not logged in", `Internal` exactly "logged in, expiry
    /// does not fit".
    pub fn update_access_token(&self, _access_token: &String, login_info: &LoginInfo, now: u64) -> (r:
        Result<(String, u64), AuthError>)
        requires
            self.wf(),
        ensures
            !is_logged_in(self@, login_info@.loginname) ==> r == Err::<
                (String, u64),
                AuthError,
            >(AuthError::InvalidAccessToken),
            r matches Err(e) ==> e == AuthError::InvalidAccessToken || e == AuthError::Internal,
            r matches Err(e) && e == AuthError::InvalidAccessToken ==> !is_logged_in(
                self@,
                login_info@.loginname,
            ),
            is_logged_in(self@, login_info@.loginname) && now > u64::MAX
                - ACCESS_TOKEN_EXPIRATION_TIME_SECS ==> r == Err::<(String, u64), AuthError>(
                AuthError::Internal,
            ),
            is_logged_in(self@, login_info@.loginname) && now <= u64::MAX
                - ACCESS_TOKEN_EXPIRATION_TIME_SECS ==> r is Ok,
            r matches Ok((token, ttl)) ==> {
                &&& is_logged_in(self@, login_info@.loginname)
                &&& ttl == ACCESS_TOKEN_EXPIRATION_TIME_SECS
                &&& now + ACCESS_TOKEN_EXPIRATION_TIME_SECS <= u64::MAX
                &&& token@ == token_of(
                    self.spec_secret(),
                    login_info@.loginname,
                    role_of(login_info@.loginname),
                    (now + ACCESS_TOKEN_EXPIRATION_TIME_SECS) as u64,
                )
                &&& claims_of(self.spec_secret(), token@) == Some(
                    (
                        login_info@.loginname,
                        role_of(login_info@.loginname),
                        (now + ACCESS_TOKEN_EXPIRATION_TIME_SECS) as u64,
                    ),
                )
            },
    {
        proof {
            lemma_lookup_is_entry(self@, login_info@.loginname);
        }
        match self.logins.get(&login_info.loginname) {
            Some(entry) => {
                if entry.logged_in {
                    match self.create_jwt_for_user(&entry.loginname, &entry.role, now) {
                        Ok(token) => Ok((token, ACCESS_TOKEN_EXPIRATION_TIME_SECS)),
                        Err(_) => Err(AuthError::Internal),
                    }
                } else {
                    Err(AuthError::InvalidAccessToken)
                }
            },
            None => Err(AuthError::InvalidAccessToken),
        }
    }

    /// Revoking a token is logging its owner out: the directory check in
    /// [`Self::verify_access_token`] then rejects every outstanding token
    /// for that name.
    pub fn invalidate_access_token(&mut self, _access_token: &String, login_info: &LoginInfo)
        requires
            old(self).wf(),
        ensures
            final(self).wf(),
            final(self).spec_secret() == old(self).spec_secret(),
            final(self)@ == spec_set_logged_out(old(self)@, login_info@.loginname),
    {
        self.logout(login_info);
    }

    /// Every user seen since the process started, in order of first login,
    /// with their current login state.
    pub fn get_seen_users(&self) -> (r: Vec<StoredLoginInfo>)
        ensures
            r@.len() == self@.len(),
            forall|i: int| 0 <= i < r@.len() ==> r@[i]@ == self@[i],
    {
        self.logins.list()
    }

    /// The public view of the user at a position of the listing order, or
    /// `NotFound` past the end.
    pub fn get_seen_user(&self, index: usize) -> (r: Result<LoginInfo, AuthError>)
        ensures
            index < self@.len() ==> (r matches Ok(info) && info@ == spec_project(
                self@[index as int],
            )),
            index >= self@.len() ==> r == Err::<LoginInfo, AuthError>(AuthError::NotFound),
    {
        match self.logins.get_at(index) {
            Some(e) => Ok(LoginInfo::from_stored(&e)),
            None => Err(AuthError::NotFound),
        }
    }
}

/// Law: a first login stores the role derived from the name — `admin` for
/// the login name `admin`, `regular` for every other name — and marks the
/// entry logged in.
pub proof fn lemma_first_login_role(dir: Seq<StoredLoginInfoView>, loginname: Seq<char>)
    requires
        lookup(dir, loginname) is None,
    ensures
        lookup(spec_upsert(dir, loginname, role_of(loginname)), loginname) == Some(
            (StoredLoginInfoView { loginname: loginname, role: role_of(loginname), logged_in: true }),
        ),
        loginname == "admin"@ ==> role_of(loginname) == "admin"@,
        loginname != "admin"@ ==> role_of(loginname) == "regular"@,
{
    lemma_lookup_upsert_same(dir, loginname, role_of(loginname));
}

/// Law: a token issued by a successful login verifies immediately against
/// the state that login left, yielding exactly the login name and its
/// derived role.
pub proof fn lemma_login_verify_round_trip(
    secret: Seq<u8>,
    dir: Seq<StoredLoginInfoView>,
    loginname: Seq<char>,
    token: Seq<char>,
    exp: u64,
    now: u64,
)
    requires
        roles_consistent(dir),
        claims_of(secret, token) == Some((loginname, role_of(loginname), exp)),
        exp > now,
    ensures
        spec_verify(secret, spec_upsert(dir, loginname, role_of(loginname)), token, now) == Ok::<
            LoginInfoView,
            AuthError,
        >((LoginInfoView { loginname: loginname, role: role_of(loginname) })),
{
    lemma_lookup_upsert_same(dir, loginname, role_of(loginname));
    lemma_lookup_is_entry(dir, loginname);
    if lookup(dir, loginname) is Some {
        let e = lookup(dir, loginname)->Some_0;
        let i = choose|i: int| 0 <= i < dir.len() && dir[i] == e;
        assert(e.role == role_of(e.loginname));
    }
}

/// Law: a token's acceptance window is bounded by its expiry — with the
/// fixed time to live of sixty seconds, a token issued at time `T` carries
/// expiry `T + 60`, so it is still accepted at `T + 59` and rejected at
/// `T + 61` (and already at `T + 60`).
pub proof fn lemma_expiry_boundary(
    secret: Seq<u8>,
    dir: Seq<StoredLoginInfoView>,
    token: Seq<char>,
    sub: Seq<char>,
    role: Seq<char>,
    exp: u64,
    now: u64,
)
    requires
        claims_of(secret, token) == Some((sub, role, exp)),
    ensures
        exp <= now ==> spec_verify(secret, dir, token, now) == Err::<LoginInfoView, AuthError>(
            AuthError::InvalidAccessToken,
        ),
        now < exp && is_logged_in(dir, sub) ==> spec_verify(secret, dir, token, now) == Ok::<
            LoginInfoView,
            AuthError,
        >(spec_project(lookup(dir, sub)->Some_0)),
{
}

/// Law: after a logout, every token for that name is rejected, expired or
/// not — the directory check overrides the token's own validity.
pub proof fn lemma_logout_invalidates(
    secret: Seq<u8>,
    dir: Seq<StoredLoginInfoView>,
    name: Seq<char>,
    token: Seq<char>,
    now: u64,
)
    requires
        claims_of(secret, token) matches Some(claims) && claims.0 == name,
    ensures
        spec_verify(secret, spec_set_logged_out(dir, name), token, now) == Err::<
            LoginInfoView,
            AuthError,
        >(AuthError::InvalidAccessToken),
{
    lemma_lookup_logout_same(dir, name);
}

} // verus!
