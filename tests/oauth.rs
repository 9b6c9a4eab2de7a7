use termai_bridge::oauth::{
    authorization_url, callback_reply, extract_code, CallbackReply, NO_CODE_MESSAGE,
    OAUTH_CALLBACK_EVENT, OAUTH_ERROR_EVENT, REDIRECT_PORT, SUCCESS_RESPONSE,
};

#[test]
fn code_up_to_ampersand() {
    assert_eq!(extract_code("GET /?code=ZXY&state=1 HTTP/1.1"), Some("ZXY".to_string()));
}

#[test]
fn code_up_to_space() {
    assert_eq!(extract_code("GET /?code=4/0Abc HTTP/1.1"), Some("4/0Abc".to_string()));
}

#[test]
fn code_up_to_end() {
    assert_eq!(extract_code("code=tail"), Some("tail".to_string()));
}

#[test]
fn empty_code() {
    assert_eq!(extract_code("GET /?code=&state=1 HTTP/1.1"), Some(String::new()));
}

#[test]
fn no_code_in_favicon_request() {
    assert_eq!(extract_code("GET /favicon.ico HTTP/1.1"), None);
}

#[test]
fn favicon_request_gives_error_event() {
    let reply = callback_reply("GET /favicon.ico HTTP/1.1");
    assert_eq!(reply, CallbackReply::Rejected);
    assert_eq!(reply.event_name(), "oauth-error");
    assert_eq!(reply.event_name(), OAUTH_ERROR_EVENT);
    assert_eq!(reply.payload(), NO_CODE_MESSAGE);
    assert_eq!(reply.response(), None);
}

#[test]
fn code_request_gives_callback_event() {
    let reply = callback_reply("GET /?code=ZXY&state=1 HTTP/1.1");
    assert_eq!(reply, CallbackReply::Authorized { code: "ZXY".to_string() });
    assert_eq!(reply.event_name(), "oauth-callback");
    assert_eq!(reply.event_name(), OAUTH_CALLBACK_EVENT);
    assert_eq!(reply.payload(), "ZXY");
    assert_eq!(reply.response(), Some(SUCCESS_RESPONSE));
    assert!(SUCCESS_RESPONSE.starts_with("HTTP/1.1 200 OK\r\n"));
}

#[test]
fn url_embeds_client_id() {
    assert_eq!(
        authorization_url("my-client"),
        "https://accounts.google.com/o/oauth2/v2/auth?client_id=my-client&redirect_uri=http://localhost:9876&response_type=code&scope=openid%20email%20profile"
    );
}

#[test]
fn url_with_empty_client_id() {
    assert!(authorization_url("").contains("client_id=&redirect_uri="));
    assert_eq!(REDIRECT_PORT, 9876);
}
