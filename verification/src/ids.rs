//! Matrix identifiers as the core sees them: strings whose grammar the
//! identifier library checks.

use vstd::prelude::*;

verus! {

/// Whether a string is a well-formed user id (`@localpart:server`).
pub uninterp spec fn is_user_id(s: Seq<char>) -> bool;

/// Whether a string is a well-formed server name.
pub uninterp spec fn is_server_name(s: Seq<char>) -> bool;

/// Calls `ruma::UserId::parse`. The result is named: whether the string
/// parses as a user id.
#[verifier::external_body]
fn user_id_parses(s: &str) -> (r: bool)
    ensures
        r == is_user_id(s@),
{
    ruma::UserId::parse(s).is_ok()
}

/// Calls `ruma::ServerName::parse`. The result is named: whether the string
/// parses as a server name.
#[verifier::external_body]
fn server_name_parses(s: &str) -> (r: bool)
    ensures
        r == is_server_name(s@),
{
    ruma::ServerName::parse(s).is_ok()
}

/// Whether `s` is a well-formed user id.
pub fn valid_user_id(s: &str) -> (r: bool)
    ensures
        r == is_user_id(s@),
{
    user_id_parses(s)
}

/// Whether `s` is a well-formed server name.
pub fn valid_server_name(s: &str) -> (r: bool)
    ensures
        r == is_server_name(s@),
{
    server_name_parses(s)
}

} // verus!
