//! The server side of the WebSocket opening handshake.
//!
//! The reply to an upgrade request is computed here synchronously: status
//! 101 with the `Connection` and `Upgrade` headers, and — when the client
//! sent a `Sec-WebSocket-Key` — the accept key: the base64 encoding of the
//! SHA-1 digest of the key concatenated with a fixed GUID. A request
//! without a key still gets a 101 reply, only without the accept header;
//! that mirrors the served behaviour and is deliberately not corrected.

use crate::http_request::{header_lookup, header_value, Request, RequestView};
use crate::response::{Response, ResponseView, STATUS_SWITCHING_PROTOCOLS};
use sha1::Digest;
use vstd::prelude::*;
use vstd::string::StrSliceExecFns;
use vstd::utf8::encode_utf8;

verus! {

/// The SHA-1 digest of a byte sequence.
pub uninterp spec fn sha1_of(input: Seq<u8>) -> Seq<u8>;

/// The RFC 4648 standard base64 encoding, with padding, of a byte sequence.
pub uninterp spec fn base64_of(input: Seq<u8>) -> Seq<char>;

/// Relies on `sha1::Sha1` through `Digest::digest`: the digest is twenty
/// bytes and is a function of the input bytes alone.
#[verifier::external_body]
fn sha1_digest(input: &Vec<u8>) -> (r: Vec<u8>)
    ensures
        r@ == sha1_of(input@),
        r@.len() == 20,
{
    sha1::Sha1::digest(input.as_slice()).as_slice().to_vec()
}

/// Relies on `base64::engine::general_purpose::STANDARD` through
/// `Engine::encode`: the standard padded encoding, a function of the input
/// bytes alone. The size bound keeps the encoded length computable.
#[verifier::external_body]
fn base64_encode(input: &Vec<u8>) -> (r: String)
    requires
        input@.len() <= 0x10000000,
    ensures
        r@ == base64_of(input@),
{
    base64::Engine::encode(&base64::engine::general_purpose::STANDARD, input.as_slice())
}

/// The GUID that the handshake appends to the client's key.
pub open spec fn handshake_guid() -> Seq<char> {
    "258EAFA5-E914-47DA-95CA-C5AB0DC85B11"@
}

/// The accept key owed for a client key: base64 of the SHA-1 digest of the
/// UTF-8 bytes of the key followed by those of the GUID.
pub open spec fn accept_key_spec(key: Seq<char>) -> Seq<char> {
    base64_of(sha1_of(encode_utf8(key) + encode_utf8(handshake_guid())))
}

/// Computes the `Sec-WebSocket-Accept` value for a client's key.
pub fn accept_key(key: &str) -> (r: String)
    ensures
        r@ == accept_key_spec(key@),
{
    let mut input = key.as_bytes_vec();
    let mut guid = "258EAFA5-E914-47DA-95CA-C5AB0DC85B11".as_bytes_vec();
    input.append(&mut guid);
    let digest = sha1_digest(&input);
    base64_encode(&digest)
}

/// The reply owed to an upgrade request: status 101, `Connection: upgrade`,
/// `Upgrade: websocket`, and the accept header exactly when the request
/// carries a `Sec-WebSocket-Key`, with an empty body.
pub open spec fn upgrade_response_spec(req: RequestView) -> ResponseView {
    match header_lookup(req.headers, "sec-websocket-key"@) {
        Some(key) => ResponseView {
            status: STATUS_SWITCHING_PROTOCOLS,
            headers: seq![
                ("sec-websocket-accept"@, accept_key_spec(key)),
                ("connection"@, "upgrade"@),
                ("upgrade"@, "websocket"@),
            ],
            body: Seq::<u8>::empty(),
        },
        None => ResponseView {
            status: STATUS_SWITCHING_PROTOCOLS,
            headers: seq![("connection"@, "upgrade"@), ("upgrade"@, "websocket"@)],
            body: Seq::<u8>::empty(),
        },
    }
}

/// Builds the handshake reply for `req`. The session on the upgraded
/// connection is started by the runner after this reply is sent; its
/// outcome never reaches the reply.
pub fn upgrade(req: &Request) -> (r: Response)
    ensures
        r@ == upgrade_response_spec(req@),
{
    let key = header_value(&req.headers, "sec-websocket-key");
    // The reply is fresh and its header names are distinct, so the list
    // is written down directly in its final order.
    let mut headers: Vec<(String, String)> = Vec::new();
    match key {
        Some(k) => {
            let accept = accept_key(k.as_str());
            headers.push(("sec-websocket-accept".to_owned(), accept));
            headers.push(("connection".to_owned(), "upgrade".to_owned()));
            headers.push(("upgrade".to_owned(), "websocket".to_owned()));
            let resp = Response { status: STATUS_SWITCHING_PROTOCOLS, headers, body: Vec::new() };
            proof {
                assert(resp@.headers =~= upgrade_response_spec(req@).headers);
            }
            resp
        },
        None => {
            headers.push(("connection".to_owned(), "upgrade".to_owned()));
            headers.push(("upgrade".to_owned(), "websocket".to_owned()));
            let resp = Response { status: STATUS_SWITCHING_PROTOCOLS, headers, body: Vec::new() };
            proof {
                assert(resp@.headers =~= upgrade_response_spec(req@).headers);
            }
            resp
        },
    }
}

} // verus!
