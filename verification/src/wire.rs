//! The exact text the loop puts on the wire: the two endpoint URLs, the
//! bearer authorization header, and the JSON body of the poll request.

use vstd::prelude::*;

use crate::strutil::{json_escape, json_escaped};

verus! {

/// The URL polled for work: `{host}/api/external-engine/work`.
pub open spec fn poll_url_spec(host: Seq<char>) -> Seq<char> {
    host + "/api/external-engine/work"@
}

/// Builds the poll URL, as [`poll_url_spec`] states.
pub fn poll_url(host: &str) -> (u: String)
    ensures
        u@ == poll_url_spec(host@),
{
    let mut u = String::from_str(host);
    u.append("/api/external-engine/work");
    u
}

/// The URL the results are streamed to:
/// `{host}/api/external-engine/work/{id}`.
pub open spec fn stream_url_spec(host: Seq<char>, id: Seq<char>) -> Seq<char> {
    host + "/api/external-engine/work/"@ + id
}

/// Builds the stream URL for the request `id`, as [`stream_url_spec`]
/// states.
pub fn stream_url(host: &str, id: &str) -> (u: String)
    ensures
        u@ == stream_url_spec(host@, id@),
{
    let mut u = String::from_str(host);
    u.append("/api/external-engine/work/");
    u.append(id);
    u
}

/// The value of the `Authorization` header: `Bearer {token}`.
pub open spec fn bearer_header_spec(token: Seq<char>) -> Seq<char> {
    "Bearer "@ + token
}

/// Builds the authorization header value, as [`bearer_header_spec`] states.
pub fn bearer_header(token: &str) -> (h: String)
    ensures
        h@ == bearer_header_spec(token@),
{
    let mut h = String::from_str("Bearer ");
    h.append(token);
    h
}

/// The JSON body sent with every poll: an object with the single member
/// `providerSecret`, its value the secret as a JSON string literal.
pub open spec fn poll_body_spec(secret: Seq<char>) -> Seq<char> {
    "{\"providerSecret\":\""@ + json_escaped(secret) + "\"}"@
}

/// Builds the poll body, as [`poll_body_spec`] states.
pub fn poll_body(secret: &str) -> (b: String)
    ensures
        b@ == poll_body_spec(secret@),
{
    let mut b = String::from_str("{\"providerSecret\":\"");
    b.append(json_escape(secret).as_str());
    b.append("\"}");
    b
}

} // verus!
