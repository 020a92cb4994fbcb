//! Session-authentication core: issues, validates, refreshes and revokes
//! signed bearer tokens for named users, and tracks each user's last-known
//! login state in an in-memory directory.
//!
//! The library is organised around four components:
//! - a token codec ([`token`]) that signs and checks expiring claims,
//! - a login directory ([`directory`]) mapping login names to stored state,
//! - a session manager ([`app_state`]) composing the two and enforcing the
//!   consistency between a valid token and the directory,
//! - a role gate ([`authz`]) comparing a verified identity against a
//!   required role.

pub mod app_state;
pub mod authz;
pub mod cli;
pub mod directory;
pub mod errors;
pub mod messages;
pub mod model;
pub mod pages;
pub mod token;
