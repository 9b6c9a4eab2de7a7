use termai_bridge::auth_token::{auth_file_path, extract_token, TokenError};

#[test]
fn token_from_compact_object() {
    assert_eq!(extract_token("{\"token\":\"abc123\"}"), Ok("abc123".to_string()));
}

#[test]
fn token_from_object_with_more_keys() {
    let content = "{\"token\":\"k-9_Z\", \"tokenHash\": \"yyy\"}";
    assert_eq!(extract_token(content), Ok("k-9_Z".to_string()));
}

#[test]
fn token_after_a_space() {
    assert_eq!(extract_token("{\"token\": \"xyz\", \"tokenHash\": \"h\"}"), Ok("xyz".to_string()));
}

#[test]
fn empty_token_value() {
    assert_eq!(extract_token("{\"token\":\"\"}"), Ok(String::new()));
}

#[test]
fn missing_marker_is_token_not_found() {
    assert_eq!(extract_token("{\"tokenHash\":\"abc\"}"), Err(TokenError::TokenNotFound));
    assert_eq!(extract_token(""), Err(TokenError::TokenNotFound));
    assert_eq!(extract_token("{\"Token\":\"abc\"}"), Err(TokenError::TokenNotFound));
}

#[test]
fn missing_quotes_is_token_not_found() {
    assert_eq!(extract_token("{\"token\":12}"), Err(TokenError::TokenNotFound));
    assert_eq!(extract_token("{\"token\":\"unterminated"), Err(TokenError::TokenNotFound));
}

#[test]
fn auth_file_below_home() {
    assert_eq!(
        auth_file_path(Some("/home/ada".to_string())),
        "/home/ada/.terminai/web-remote-auth.json"
    );
}

#[test]
fn auth_file_below_default_home() {
    assert_eq!(auth_file_path(None), "/tmp/.terminai/web-remote-auth.json");
}
