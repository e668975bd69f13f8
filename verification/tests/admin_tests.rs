use http_auth_basic::Credentials;
use stof_cli::admin::{delete_user_request, set_user_request};

#[test]
fn set_user_request_carries_the_full_record() {
    let r = set_user_request(
        "https://runner.example.com",
        "admin",
        "secret",
        "alice",
        "pw",
        9,
        "acme",
    );
    assert_eq!(r.url, "https://runner.example.com/admin/users");
    assert_eq!(r.content_type, "application/stof");
    assert_eq!(r.payload, "username: 'alice', password: 'pw', perms: 9, scope: 'acme'");
    assert_eq!(r.auth, Credentials::new("admin", "secret").as_http_header());
}

#[test]
fn perms_render_in_decimal() {
    let r = set_user_request("https://h", "a", "b", "u", "p", 15, "");
    assert_eq!(r.payload, "username: 'u', password: 'p', perms: 15, scope: ''");
    let r = set_user_request("https://h", "a", "b", "u", "p", 0, "s");
    assert_eq!(r.payload, "username: 'u', password: 'p', perms: 0, scope: 's'");
}

#[test]
fn delete_user_request_carries_only_the_username() {
    let r = delete_user_request("https://runner.example.com", "admin", "secret", "alice");
    assert_eq!(r.url, "https://runner.example.com/admin/users");
    assert_eq!(r.content_type, "application/stof");
    assert_eq!(r.payload, "username: 'alice'");
    assert_eq!(r.auth, "Basic YWRtaW46c2VjcmV0");
}
