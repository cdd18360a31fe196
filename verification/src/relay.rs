//! The relay client's decisions: validating the caller's payload, the exact
//! wire strings of the handshake and relay requests, and the classification
//! of the server's response. The single HTTP round trip itself is performed
//! by the driver outside this crate.

use vstd::prelude::*;

use crate::text::{dec_chars, u16_dec};

verus! {

/// The path the payload is relayed to.
pub open spec fn execute_path() -> Seq<char> {
    "/execute"@
}

/// Rejects a missing payload; a present payload is passed through
/// unchanged.
pub fn require_payload(code: Option<String>) -> (r: Result<String, String>)
    ensures
        code matches Some(c) ==> (r matches Ok(p) && p == c),
        code is None ==> (r matches Err(e) && e@ == "No valid script to execute."@),
{
    match code {
        Some(c) => Ok(c),
        None => Err(String::from_str("No valid script to execute.")),
    }
}

/// The loopback address of one port, in `host:port` form.
pub open spec fn loopback_address(port: u16) -> Seq<char> {
    "127.0.0.1:"@ + dec_chars(port as nat)
}

/// Formats the loopback address a probe connects to.
pub fn probe_address(port: u16) -> (a: String)
    ensures
        a@ == loopback_address(port),
{
    let mut a = String::from_str("127.0.0.1:");
    let p = u16_dec(port);
    a.append(p.as_str());
    a
}

/// The raw handshake request sent to one port: a GET of the secret path
/// that asks the peer to close the connection after responding.
pub open spec fn handshake_request_model(port: u16) -> Seq<char> {
    "GET /secret HTTP/1.1\r\nHost: "@ + loopback_address(port) + "\r\nConnection: close\r\n\r\n"@
}

/// Builds the handshake request for one port.
pub fn handshake_request(port: u16) -> (r: String)
    ensures
        r@ == handshake_request_model(port),
{
    let mut r = String::from_str("GET /secret HTTP/1.1\r\nHost: ");
    let a = probe_address(port);
    r.append(a.as_str());
    r.append("\r\nConnection: close\r\n\r\n");
    proof {
        assert(r@ =~= handshake_request_model(port));
    }
    r
}

/// The URL the payload is relayed to once a server is found.
pub open spec fn execute_url_model(port: u16) -> Seq<char> {
    "http://"@ + loopback_address(port) + execute_path()
}

/// Builds the relay URL for the discovered port.
pub fn execute_url(port: u16) -> (u: String)
    ensures
        u@ == execute_url_model(port),
{
    let mut u = String::from_str("http://");
    let a = probe_address(port);
    u.append(a.as_str());
    u.append("/execute");
    proof {
        assert(u@ =~= execute_url_model(port));
    }
    u
}

/// An HTTP status that counts as success.
pub open spec fn is_success_status(status: u16) -> bool {
    200 <= status < 300
}

/// The error reported for a response with a non-success status.
pub open spec fn http_error_message(status: u16, body: Seq<char>) -> Seq<char> {
    "HTTP "@ + dec_chars(status as nat) + ": "@ + body
}

/// Classifies the relayed request's response: a success status yields the
/// raw body; any other status yields an error naming the status and body.
pub fn classify_response(status: u16, body: String) -> (r: Result<String, String>)
    ensures
        is_success_status(status) ==> (r matches Ok(b) && b@ == body@),
        !is_success_status(status) ==> (r matches Err(e) && e@ == http_error_message(status, body@)),
{
    if 200 <= status && status < 300 {
        Ok(body)
    } else {
        let mut e = String::from_str("HTTP ");
        let s = u16_dec(status);
        e.append(s.as_str());
        e.append(": ");
        e.append(body.as_str());
        Err(e)
    }
}

/// The error reported when the relayed request itself fails in transport.
pub fn request_failed_message(cause: &str) -> (m: String)
    ensures
        m@ == "HTTP request failed: "@ + cause@,
{
    let mut m = String::from_str("HTTP request failed: ");
    m.append(cause);
    m
}

/// The error reported when a success response's body cannot be read.
pub fn body_read_failed_message(cause: &str) -> (m: String)
    ensures
        m@ == "Failed to read response body: "@ + cause@,
{
    let mut m = String::from_str("Failed to read response body: ");
    m.append(cause);
    m
}

} // verus!
