//! Data model: login names, tokens, stored login state and its public
//! projection.

use vstd::prelude::*;
use vstd::string::StringExecFns;

verus! {

/// An opaque signed token string, transported to clients as-is.
#[derive(Debug, Clone)]
pub struct AccessToken(pub String);

impl View for AccessToken {
    type V = Seq<char>;

    open spec fn view(&self) -> Seq<char> {
        self.0@
    }
}

/// A user's unique identifier, the login directory's key.
#[derive(Debug, Clone, Eq, PartialEq, Ord, PartialOrd, Hash)]
pub struct LoginName(pub String);

impl View for LoginName {
    type V = Seq<char>;

    open spec fn view(&self) -> Seq<char> {
        self.0@
    }
}

/// A directory entry: the user's name, immutable role, and whether the
/// user is currently considered logged in.
#[derive(Debug, PartialEq, Eq)]
pub struct StoredLoginInfo {
    pub loginname: String,
    pub role: String,
    pub logged_in: bool,
}

/// The mathematical value of a [`StoredLoginInfo`].
pub ghost struct StoredLoginInfoView {
    pub loginname: Seq<char>,
    pub role: Seq<char>,
    pub logged_in: bool,
}

impl View for StoredLoginInfo {
    type V = StoredLoginInfoView;

    open spec fn view(&self) -> StoredLoginInfoView {
        StoredLoginInfoView {
            loginname: self.loginname@,
            role: self.role@,
            logged_in: self.logged_in,
        }
    }
}

impl Clone for StoredLoginInfo {
    fn clone(&self) -> (r: Self)
        ensures
            r@ == self@,
    {
        StoredLoginInfo {
            loginname: self.loginname.clone(),
            role: self.role.clone(),
            logged_in: self.logged_in,
        }
    }
}

/// The public view of a logged-in user: the stored entry without the
/// `logged_in` flag. Derived, never stored independently.
#[derive(Debug, PartialEq, Eq)]
pub struct LoginInfo {
    pub loginname: String,
    pub role: String,
}

/// The mathematical value of a [`LoginInfo`].
pub ghost struct LoginInfoView {
    pub loginname: Seq<char>,
    pub role: Seq<char>,
}

impl View for LoginInfo {
    type V = LoginInfoView;

    open spec fn view(&self) -> LoginInfoView {
        LoginInfoView { loginname: self.loginname@, role: self.role@ }
    }
}

impl Clone for LoginInfo {
    fn clone(&self) -> (r: Self)
        ensures
            r@ == self@,
    {
        LoginInfo { loginname: self.loginname.clone(), role: self.role.clone() }
    }
}

/// The projection of a stored entry to its public view.
pub open spec fn spec_project(stored: StoredLoginInfoView) -> LoginInfoView {
    LoginInfoView { loginname: stored.loginname, role: stored.role }
}

impl LoginInfo {
    /// Narrowing conversion from a stored entry: drops the `logged_in` flag.
    pub fn from_stored(stored: &StoredLoginInfo) -> (r: Self)
        ensures
            r@ == spec_project(stored@),
    {
        LoginInfo { loginname: stored.loginname.clone(), role: stored.role.clone() }
    }
}

/// The role assigned to a login name at first login: the literal name
/// `admin` gets the role `admin`, every other name gets `regular`.
/// Immutable thereafter for a given login name.
pub open spec fn role_of(name: Seq<char>) -> Seq<char> {
    if name == "admin"@ {
        "admin"@
    } else {
        "regular"@
    }
}

/// Computes [`role_of`] on a concrete login name.
pub fn role_for(loginname: &String) -> (r: String)
    ensures
        r@ == role_of(loginname@),
{
    let admin = String::from_str("admin");
    if *loginname == admin {
        admin
    } else {
        String::from_str("regular")
    }
}

} // verus!
