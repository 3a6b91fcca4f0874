use connprobe::decimal::decimal_string;
use connprobe::greeting::greet;
use connprobe::probe::generic_report;
use connprobe::probe::generic_request;
use connprobe::probe::openai_report;
use connprobe::probe::openai_request;

#[test]
fn greet_plain_name() {
    assert_eq!(
        greet("World"),
        "Hello, World! You've been greeted from Rust!"
    );
}

#[test]
fn greet_empty_name() {
    assert_eq!(greet(""), "Hello, ! You've been greeted from Rust!");
}

#[test]
fn greet_format_sensitive_characters() {
    assert_eq!(
        greet("{}%s{0}"),
        "Hello, {}%s{0}! You've been greeted from Rust!"
    );
}

#[test]
fn greet_is_repeatable() {
    assert_eq!(greet("Ada"), greet("Ada"));
}

#[test]
fn authenticated_success_with_json_body() {
    let r = openai_report(Ok((200, "{}".to_string())));
    let text = r.expect("a completed exchange is a success");
    assert!(text.contains("Status: 200"));
    assert!(text.contains("Response: {}"));
    assert_eq!(text, "Status: 200, Response: {}");
}

#[test]
fn authenticated_error_status_is_still_success() {
    let r = openai_report(Ok((401, "unauthorized".to_string())));
    let text = r.expect("a received 401 is not a transport failure");
    assert!(text.contains("Status: 401"));
    assert_eq!(text, "Status: 401, Response: unauthorized");
}

#[test]
fn authenticated_transport_failure_is_an_error() {
    let r = openai_report(Err("connection refused".to_string()));
    let message = match r {
        Ok(_) => panic!("a transport failure must not be a success"),
        Err(m) => m,
    };
    assert!(!message.is_empty());
    assert!(!message.starts_with("Status: "));
    assert_eq!(message, "connection refused");
}

#[test]
fn generic_transport_failure_is_an_error() {
    let r = generic_report(Err("dns error".to_string()));
    assert_eq!(r, Err("dns error".to_string()));
}

#[test]
fn generic_success_reports_body_length() {
    let body = "a".repeat(1337);
    let r = generic_report(Ok((200, body)));
    assert_eq!(
        r,
        Ok("HTTP Test - Status: 200, Response length: 1337 chars".to_string())
    );
}

#[test]
fn generic_success_empty_body() {
    let r = generic_report(Ok((503, String::new())));
    assert_eq!(
        r,
        Ok("HTTP Test - Status: 503, Response length: 0 chars".to_string())
    );
}

#[test]
fn generic_length_counts_bytes() {
    let r = generic_report(Ok((200, "é".to_string())));
    assert_eq!(
        r,
        Ok("HTTP Test - Status: 200, Response length: 2 chars".to_string())
    );
}

#[test]
fn authenticated_request_without_credential() {
    let d = openai_request(None);
    assert_eq!(d.url, "https://api.openai.com/v1/models");
    let h = d.header.expect("the probe sends the header even with no credential");
    assert_eq!(h.name, "Authorization");
    assert_eq!(h.value, "Bearer ");
}

#[test]
fn authenticated_request_with_credential() {
    let d = openai_request(Some("sk-test".to_string()));
    assert_eq!(d.url, "https://api.openai.com/v1/models");
    let h = d.header.expect("the authorization header is always present");
    assert_eq!(h.name, "Authorization");
    assert_eq!(h.value, "Bearer sk-test");
}

#[test]
fn generic_request_has_no_header() {
    let d = generic_request();
    assert_eq!(d.url, "https://httpbin.org/get");
    assert!(d.header.is_none());
}

#[test]
fn decimal_of_zero() {
    assert_eq!(decimal_string(0), "0");
}

#[test]
fn decimal_of_single_digit() {
    assert_eq!(decimal_string(7), "7");
}

#[test]
fn decimal_of_round_number() {
    assert_eq!(decimal_string(1000000), "1000000");
}

#[test]
fn decimal_of_largest_value() {
    assert_eq!(decimal_string(u64::MAX), "18446744073709551615");
}
