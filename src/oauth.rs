//! The loopback OAuth flow: the authorization URL that the browser opens, and
//! what the one-shot listener makes of the request it accepts.
use vstd::prelude::*;

use crate::text::{chars_of, find_seq, find_seq_from, find_stop, find_stop_from, string_of};

verus! {

/// The port that the one-shot callback listener binds on the loopback host.
pub const REDIRECT_PORT: u16 = 9876;

/// Bytes of the accepted request that the listener reads.
pub const CALLBACK_BUFFER_LEN: usize = 2048;

/// Event carrying the captured authorization code.
pub const OAUTH_CALLBACK_EVENT: &'static str = "oauth-callback";

/// Event sent when the accepted request holds no code.
pub const OAUTH_ERROR_EVENT: &'static str = "oauth-error";

/// The message of the `oauth-error` event.
pub const NO_CODE_MESSAGE: &'static str = "No authorization code received";

/// The identity provider's endpoint, up to the client id.
pub const AUTH_ENDPOINT: &'static str = "https://accounts.google.com/o/oauth2/v2/auth?client_id=";

/// The query parameters that follow the client id.
pub const AUTH_PARAMS: &'static str = "&redirect_uri=http://localhost:9876&response_type=code&scope=openid%20email%20profile";

/// The page sent back to the browser once a code was captured.
pub const SUCCESS_RESPONSE: &'static str = "HTTP/1.1 200 OK\r\nContent-Type: text/html\r\n\r\n<html><body style=\"font-family: sans-serif; display: flex; justify-content: center; align-items: center; height: 100vh; background: #0f0f1a; color: white;\"><div style=\"text-align: center;\"><h1>\u{2705} Signed in!</h1><p>You can close this tab and return to TermAI.</p></div></body></html>";

/// The query key that introduces the authorization code.
pub open spec fn code_key() -> Seq<char> {
    seq!['c', 'o', 'd', 'e', '=']
}

/// The code in a request: after the first `code=`, the run of characters up
/// to the next `&` or space, or to the end of the text.
pub open spec fn code_of(request: Seq<char>) -> Option<Seq<char>> {
    match find_seq_from(request, code_key(), 0) {
        Some(m) => Some(request.subrange(m + 5, find_stop_from(request, m + 5))),
        None => None,
    }
}

/// The URL that the browser is sent to for the given client id.
pub open spec fn authorization_url_of(client_id: Seq<char>) -> Seq<char> {
    AUTH_ENDPOINT@ + client_id + AUTH_PARAMS@
}

/// Builds the authorization URL, embedding `client_id` and the fixed redirect
/// target, response type and scope.
pub fn authorization_url(client_id: &str) -> (r: String)
    ensures
        r@ == authorization_url_of(client_id@),
{
    let mut r = String::from_str(AUTH_ENDPOINT);
    r.append(client_id);
    r.append(AUTH_PARAMS);
    r
}

/// Extracts the authorization code from the text of a request.
pub fn extract_code(request: &str) -> (r: Option<String>)
    ensures
        match code_of(request@) {
            Some(c) => r matches Some(s) && s@ == c,
            None => r is None,
        },
{
    let s = chars_of(request);
    let key_text = "code=";
    proof {
        reveal_strlit("code=");
    }
    let key = chars_of(key_text);
    assert(key@ =~= code_key());
    match find_seq(&s, &key, 0) {
        Some(m) => {
            proof {
                crate::text::lemma_found_occurs(s@, key@, 0);
                assert(find_seq_from(s@, key@, 0) == Some(m as int));
                assert(m + key@.len() <= s@.len());
            }
            let start = m + key.len();
            let end = find_stop(&s, start);
            Some(string_of(&s, start, end))
        },
        None => None,
    }
}

/// What the listener does with the request it accepted.
#[derive(Debug, Clone, PartialEq, Eq)]
pub enum CallbackReply {
    /// A code was found: emit it and answer with the success page.
    Authorized { code: String },
    /// No code was found: emit the error event and send no answer.
    Rejected,
}

impl CallbackReply {
    /// The name of the event to emit.
    pub fn event_name(&self) -> (r: &'static str)
        ensures
            r@ == (match self {
                CallbackReply::Authorized { .. } => OAUTH_CALLBACK_EVENT@,
                CallbackReply::Rejected => OAUTH_ERROR_EVENT@,
            }),
    {
        match self {
            CallbackReply::Authorized { .. } => OAUTH_CALLBACK_EVENT,
            CallbackReply::Rejected => OAUTH_ERROR_EVENT,
        }
    }

    /// The payload of the event to emit: the code, or the error message.
    pub fn payload(&self) -> (r: String)
        ensures
            r@ == (match self {
                CallbackReply::Authorized { code } => code@,
                CallbackReply::Rejected => NO_CODE_MESSAGE@,
            }),
    {
        match self {
            CallbackReply::Authorized { code } => code.clone(),
            CallbackReply::Rejected => String::from_str(NO_CODE_MESSAGE),
        }
    }

    /// The bytes to write back to the browser, if any.
    pub fn response(&self) -> (r: Option<&'static str>)
        ensures
            match self {
                CallbackReply::Authorized { .. } => r matches Some(p) && p@ == SUCCESS_RESPONSE@,
                CallbackReply::Rejected => r is None,
            },
    {
        match self {
            CallbackReply::Authorized { .. } => Some(SUCCESS_RESPONSE),
            CallbackReply::Rejected => None,
        }
    }
}

/// Decides the listener's reply to the text of the request it accepted.
pub fn callback_reply(request: &str) -> (r: CallbackReply)
    ensures
        match code_of(request@) {
            Some(c) => r matches CallbackReply::Authorized { code } && code@ == c,
            None => r is Rejected,
        },
{
    match extract_code(request) {
        Some(code) => CallbackReply::Authorized { code },
        None => CallbackReply::Rejected,
    }
}

} // verus!
