//! Connecting to a browser that runs outside the library: which endpoints
//! are accepted, the web driver address an endpoint stands for, and the
//! errors of a failed connection. The connection itself is made by the
//! application.
use vstd::prelude::*;
use crate::error::TarziError;
use crate::text::{append_str, has_prefix, replaced, str_replace, str_starts_with, str_to_string, string_of};

verus! {

/// A WebSocket endpoint: one that starts with `ws://` or `wss://`.
pub open spec fn websocket_endpoint(e: Seq<char>) -> bool {
    has_prefix(e, "ws://"@) || has_prefix(e, "wss://"@)
}

/// Whether an endpoint can be connected to: only WebSocket endpoints are.
pub fn check_external_browser_prerequisites(ws_endpoint: &str) -> (r: bool)
    ensures
        r == websocket_endpoint(ws_endpoint@),
{
    str_starts_with(ws_endpoint, "ws://") || str_starts_with(ws_endpoint, "wss://")
}

/// The endpoint used when none is given: the value of the endpoint variable
/// where it is set, else the local DevTools port.
pub open spec fn default_endpoint_text(env_value: Option<Seq<char>>) -> Seq<char> {
    match env_value {
        Some(v) => v,
        None => "ws://localhost:9222"@,
    }
}

/// The default endpoint; `env_value` is the value of
/// `TARZI_EXTERNAL_BROWSER_ENDPOINT` where it is set.
pub fn get_default_endpoint(env_value: Option<String>) -> (r: String)
    ensures
        r@ == default_endpoint_text(match env_value {
            Some(v) => Some(v@),
            None => None,
        }),
{
    match env_value {
        Some(v) => v,
        None => str_to_string("ws://localhost:9222"),
    }
}

/// The web driver address for an endpoint: a `ws://` endpoint becomes
/// `http://` and a `wss://` one `https://`, with every `/ws` taken out;
/// any other endpoint stays as it is.
pub open spec fn webdriver_address(e: Seq<char>) -> Seq<char> {
    if has_prefix(e, "ws://"@) {
        replaced(replaced(e, "ws://"@, "http://"@), "/ws"@, ""@)
    } else if has_prefix(e, "wss://"@) {
        replaced(replaced(e, "wss://"@, "https://"@), "/ws"@, ""@)
    } else {
        e
    }
}

pub fn webdriver_url_for(ws_endpoint: &str) -> (r: String)
    ensures
        r@ == webdriver_address(ws_endpoint@),
{
    proof {
        reveal_strlit("ws://");
        reveal_strlit("wss://");
        reveal_strlit("/ws");
    }
    if str_starts_with(ws_endpoint, "ws://") {
        let http = str_replace(ws_endpoint, "ws://", "http://");
        str_replace(http.as_str(), "/ws", "")
    } else if str_starts_with(ws_endpoint, "wss://") {
        let https = str_replace(ws_endpoint, "wss://", "https://");
        str_replace(https.as_str(), "/ws", "")
    } else {
        str_to_string(ws_endpoint)
    }
}

/// Where to connect for an endpoint: its web driver address, or the
/// prerequisites error for an endpoint that is not a WebSocket one.
pub fn external_connection_target(ws_endpoint: &str) -> (r: Result<String, TarziError>)
    ensures
        if websocket_endpoint(ws_endpoint@) {
            r matches Ok(u) && u@ == webdriver_address(ws_endpoint@)
        } else {
            r matches Err(TarziError::Browser(m)) && m@ == "External browser prerequisites not met"@
        },
{
    if check_external_browser_prerequisites(ws_endpoint) {
        Ok(webdriver_url_for(ws_endpoint))
    } else {
        Err(TarziError::Browser(str_to_string("External browser prerequisites not met")))
    }
}

/// The error of a connection that failed with a message, or, without one,
/// that took too long.
pub open spec fn connection_failure_message(m: Option<Seq<char>>) -> Seq<char> {
    match m {
        Some(t) => "Failed to connect to external browser: "@ + t,
        None => "Timeout while connecting to external browser"@,
    }
}

pub fn external_connection_failure(message: Option<&str>) -> (r: TarziError)
    ensures
        r matches TarziError::Browser(m) && m@ == connection_failure_message(match message {
            Some(t) => Some(t@),
            None => None,
        }),
{
    match message {
        Some(t) => {
            let mut v: Vec<char> = Vec::new();
            append_str(&mut v, "Failed to connect to external browser: ");
            append_str(&mut v, t);
            TarziError::Browser(string_of(v.as_slice()))
        },
        None => TarziError::Browser(str_to_string("Timeout while connecting to external browser")),
    }
}

} // verus!
