use konfctl::auth::{build_login_url, callback_result, parse_callback, AuthError};

#[test]
fn build_login_url_format() {
    let url = build_login_url("https://example.com", 12345, "my-state");
    assert_eq!(
        url,
        "https://example.com/cli/login?port=12345&state=my-state"
    );
}

#[test]
fn parse_callback_valid() {
    let url = "http://localhost:9999/callback?token=abc123&state=my-state&name=Alice";
    let result = parse_callback(url, "my-state").unwrap();
    assert_eq!(result.token, "abc123");
    assert_eq!(result.name.as_deref(), Some("Alice"));
}

#[test]
fn parse_callback_without_name() {
    let url = "http://localhost:9999/callback?token=abc123&state=my-state";
    let result = parse_callback(url, "my-state").unwrap();
    assert_eq!(result.token, "abc123");
    assert!(result.name.is_none());
}

#[test]
fn parse_callback_state_mismatch() {
    let url = "http://localhost:9999/callback?token=abc&state=wrong";
    let err = parse_callback(url, "expected").unwrap_err();
    assert!(err.to_string().contains("State mismatch"));
}

#[test]
fn parse_callback_missing_state() {
    let url = "http://localhost:9999/callback?token=abc";
    let err = parse_callback(url, "any").unwrap_err();
    assert!(err.to_string().contains("Missing state"));
}

#[test]
fn parse_callback_missing_token() {
    let url = "http://localhost:9999/callback?state=ok";
    let err = parse_callback(url, "ok").unwrap_err();
    assert!(err.to_string().contains("Missing token"));
}

#[test]
fn parse_callback_empty_token() {
    let url = "http://localhost:9999/callback?token=&state=ok";
    let err = parse_callback(url, "ok").unwrap_err();
    assert!(err.to_string().contains("empty token"));
}

#[test]
fn parse_callback_invalid_url() {
    let err = parse_callback("not a url", "any").unwrap_err();
    assert!(err.to_string().contains("Invalid callback URL"));
}

#[test]
fn parse_callback_decodes_percent_escapes_and_keeps_conference() {
    let url = "http://localhost:1/callback?token=a%20b&state=s&name=J%C3%B8rn&conference_id=c-1";
    let result = parse_callback(url, "s").unwrap();
    assert_eq!(result.token, "a b");
    assert_eq!(result.name.as_deref(), Some("Jørn"));
    assert_eq!(result.conference_id.as_deref(), Some("c-1"));
}

#[test]
fn callback_result_last_value_wins_and_empty_name_is_none() {
    let pairs = vec![
        ("state".to_string(), "x".to_string()),
        ("token".to_string(), "first".to_string()),
        ("token".to_string(), "second".to_string()),
        ("name".to_string(), String::new()),
    ];
    let result = callback_result(&pairs, "x").unwrap();
    assert_eq!(result.token, "second");
    assert!(result.name.is_none());
    assert!(result.conference_id.is_none());
}

#[test]
fn callback_result_errors_in_order() {
    let none: Vec<(String, String)> = vec![];
    assert_eq!(callback_result(&none, "x").unwrap_err(), AuthError::MissingState);
    let wrong = vec![("state".to_string(), "y".to_string())];
    assert_eq!(callback_result(&wrong, "x").unwrap_err(), AuthError::StateMismatch);
    let no_token = vec![("state".to_string(), "x".to_string())];
    assert_eq!(callback_result(&no_token, "x").unwrap_err(), AuthError::MissingToken);
    let empty = vec![
        ("state".to_string(), "x".to_string()),
        ("token".to_string(), String::new()),
    ];
    assert_eq!(callback_result(&empty, "x").unwrap_err(), AuthError::EmptyToken);
    assert_eq!(AuthError::StateMismatch.to_string(), "State mismatch — possible CSRF attack");
}
