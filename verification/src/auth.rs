//! HTTP Basic-Auth headers.
//!
//! A request carries an `Authorization` header exactly when both a
//! username and a password were supplied; anonymous registries get none.

use vstd::prelude::*;

verus! {

/// The full Basic-Auth header value for a username and password pair.
pub uninterp spec fn basic_header_of(user: Seq<char>, pass: Seq<char>) -> Seq<char>;

/// Relies on `http_auth_basic::Credentials::as_http_header`: the header is
/// `Basic` followed by the base64 form of `user:pass`, a function of the
/// two strings alone.
#[verifier::external_body]
pub(crate) fn basic_auth_header(user: &str, pass: &str) -> (r: String)
    ensures
        r@ == basic_header_of(user@, pass@),
{
    http_auth_basic::Credentials::new(user, pass).as_http_header()
}

/// The header an operation attaches for optional credentials: present
/// exactly when both parts are.
pub open spec fn auth_header_view(user: Option<Seq<char>>, pass: Option<Seq<char>>) -> Option<
    Seq<char>,
> {
    match (user, pass) {
        (Some(u), Some(p)) => Some(basic_header_of(u, p)),
        _ => None,
    }
}

/// Builds the optional Basic-Auth header for optional credentials.
pub fn auth_header_opt(user: &Option<String>, pass: &Option<String>) -> (r: Option<String>)
    ensures
        r.deep_view() == auth_header_view(user.deep_view(), pass.deep_view()),
{
    match (user, pass) {
        (Some(u), Some(p)) => Some(basic_auth_header(u.as_str(), p.as_str())),
        _ => None,
    }
}

} // verus!
