use haystack::client::request::{plan_request, GridFormat, RequestErr};
use haystack::client::session::{channel_capacity, next_step, SessionStep};

#[test]
fn get_request_resolves_the_operation_and_sends_no_body() {
    let p = plan_request("https://example.com/api/demo/", "GET", "about", Some("ignored".to_string()), GridFormat::Zinc)
        .unwrap();
    assert_eq!(p.method, "GET");
    assert_eq!(p.url, "https://example.com/api/demo/about");
    assert_eq!(p.body, None);
    assert_eq!(p.content_type, "text/zinc");
}

#[test]
fn post_request_carries_its_body() {
    let p = plan_request("https://example.com/api/demo/", "POST", "read", Some("ver:\"3.0\"\nid\n".to_string()), GridFormat::Json)
        .unwrap();
    assert_eq!(p.url, "https://example.com/api/demo/read");
    assert_eq!(p.body.as_deref(), Some("ver:\"3.0\"\nid\n"));
    assert_eq!(p.content_type, "application/json");
}

#[test]
fn post_request_without_body_is_refused() {
    let r = plan_request("https://example.com/api/demo/", "POST", "read", None, GridFormat::Zinc);
    assert!(matches!(r, Err(RequestErr::MissingBody)));
    let r = plan_request("https://example.com/api/demo/", "PATCH", "read", None, GridFormat::Zinc);
    assert!(matches!(r, Err(RequestErr::MissingBody)));
}

#[test]
fn request_errors_come_in_order() {
    let r = plan_request("not a url", "BAD METHOD", "read", None, GridFormat::Zinc);
    assert!(matches!(r, Err(RequestErr::InvalidMethod)));
    let r = plan_request("not a url", "POST", "read", None, GridFormat::Zinc);
    assert!(matches!(r, Err(RequestErr::Uri(_))));
}

#[test]
fn operation_name_resolves_against_the_base_path() {
    let p = plan_request("https://example.com/api/demo", "GET", "about", None, GridFormat::Zinc).unwrap();
    assert_eq!(p.url, "https://example.com/api/about");
}

#[test]
fn session_signs_in_only_without_a_token() {
    assert_eq!(next_step(false), SessionStep::SignIn);
    assert_eq!(next_step(true), SessionStep::Send);
    assert_eq!(channel_capacity(None), 10000);
    assert_eq!(channel_capacity(Some(3)), 3);
}

#[test]
fn method_is_a_run_of_token_characters() {
    let base = "https://example.com/api/demo/";
    assert!(plan_request(base, "M-SEARCH", "about", None, GridFormat::Zinc).is_ok());
    assert!(plan_request(base, "x!#$%&'*+-.^_`|~9", "about", None, GridFormat::Zinc).is_ok());
    assert!(matches!(plan_request(base, "", "about", None, GridFormat::Zinc), Err(RequestErr::InvalidMethod)));
    assert!(matches!(plan_request(base, "GÉT", "about", None, GridFormat::Zinc), Err(RequestErr::InvalidMethod)));
    assert!(matches!(plan_request(base, "GET(", "about", None, GridFormat::Zinc), Err(RequestErr::InvalidMethod)));
}
