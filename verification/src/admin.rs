//! Administrative user management requests.
//!
//! Both operations go to `<address>/admin/users` with the admin's
//! Basic-Auth header and a small textual key-value payload: the full
//! user record to create or update, or just the username to delete.

use vstd::prelude::*;

use crate::auth::basic_header_of;
use crate::textutil::{dec_str_of, u64_to_string};

verus! {

/// An administrative request, ready to send: URL, the admin's auth
/// header, the payload's content type, and the payload itself.
pub struct AdminRequest {
    pub url: String,
    pub auth: String,
    pub content_type: String,
    pub payload: String,
}

/// The admin endpoint of a runner.
pub open spec fn admin_users_url_of(address: Seq<char>) -> Seq<char> {
    address + "/admin/users"@
}

/// The payload that creates or updates a user record.
pub open spec fn set_user_payload_of(
    user: Seq<char>,
    pass: Seq<char>,
    perms: u8,
    scope: Seq<char>,
) -> Seq<char> {
    "username: '"@ + user + "', password: '"@ + pass + "', perms: "@ + dec_str_of(perms as int)
        + ", scope: '"@ + scope + "'"@
}

/// The payload that deletes a user record.
pub open spec fn delete_user_payload_of(user: Seq<char>) -> Seq<char> {
    "username: '"@ + user + "'"@
}

/// The admin endpoint URL for a runner address.
pub fn admin_users_url(address: &str) -> (r: String)
    ensures
        r@ == admin_users_url_of(address@),
{
    let mut url = address.to_owned();
    url.append("/admin/users");
    url
}

/// Lays out the POST that creates or updates a remote user: the
/// username, password, permission bitmask and scope prefix, under the
/// admin's credentials.
pub fn set_user_request(
    address: &str,
    admin_user: &str,
    admin_pass: &str,
    user: &str,
    pass: &str,
    perms: u8,
    scope: &str,
) -> (r: AdminRequest)
    ensures
        r.url@ == admin_users_url_of(address@),
        r.auth@ == basic_header_of(admin_user@, admin_pass@),
        r.content_type@ == "application/stof"@,
        r.payload@ == set_user_payload_of(user@, pass@, perms, scope@),
{
    let mut payload = "username: '".to_owned();
    payload.append(user);
    payload.append("', password: '");
    payload.append(pass);
    payload.append("', perms: ");
    let perms_text = u64_to_string(perms as u64);
    payload.append(perms_text.as_str());
    payload.append(", scope: '");
    payload.append(scope);
    payload.append("'");
    AdminRequest {
        url: admin_users_url(address),
        auth: crate::auth::basic_auth_header(admin_user, admin_pass),
        content_type: "application/stof".to_owned(),
        payload,
    }
}

/// Lays out the DELETE that removes a remote user, under the admin's
/// credentials.
pub fn delete_user_request(address: &str, admin_user: &str, admin_pass: &str, user: &str) -> (r:
    AdminRequest)
    ensures
        r.url@ == admin_users_url_of(address@),
        r.auth@ == basic_header_of(admin_user@, admin_pass@),
        r.content_type@ == "application/stof"@,
        r.payload@ == delete_user_payload_of(user@),
{
    let mut payload = "username: '".to_owned();
    payload.append(user);
    payload.append("'");
    AdminRequest {
        url: admin_users_url(address),
        auth: crate::auth::basic_auth_header(admin_user, admin_pass),
        content_type: "application/stof".to_owned(),
        payload,
    }
}

} // verus!
