//! The WebSocket handshake: checking the upgrade request and computing the accept key.
use vstd::prelude::*;
use vstd::utf8::encode_utf8;
use crate::crypto::{base64_encode, base64_encoding, sha1, sha1_digest};
use crate::error::AppError;
use crate::text::{trim, trimmed};

verus! {

/// The GUID that RFC 6455 appends to the client's key.
pub open spec fn websocket_guid() -> Seq<char> {
    "258EAFA5-E914-47DA-95CA-C5AB0DC85B11"@
}

/// The accept key answered to the client's key `key`.
pub open spec fn spec_accept_key(key: Seq<char>) -> Seq<char> {
    base64_encoding(sha1(encode_utf8(key + websocket_guid())))
}

/// What the handshake check gives for the `Upgrade`, `Connection` and
/// `Sec-WebSocket-Key` headers (each `None` where absent or not text): the accept
/// key, or the message of the bad request.
pub open spec fn spec_check_websocket_header(
    upgrade: Option<Seq<char>>,
    connection: Option<Seq<char>>,
    key: Option<Seq<char>>,
) -> Result<Seq<char>, Seq<char>> {
    match upgrade {
        None => Err(Seq::empty()),
        Some(u) => if trimmed(u) != "websocket"@ {
            Err(Seq::empty())
        } else {
            match connection {
                None => Err(Seq::empty()),
                Some(c) => if trimmed(c) != "Upgrade"@ {
                    Err(Seq::empty())
                } else {
                    match key {
                        None => Err("Failed to read ws key from headers"@),
                        Some(k) => Ok(spec_accept_key(k)),
                    }
                },
            }
        },
    }
}

/// A WebSocket upgrade is accepted exactly where the `Upgrade` header reads
/// `websocket` and the `Connection` header reads `Upgrade` (each up to surrounding
/// white space) and the client sent a key; the answer is then the base64 text of the
/// SHA-1 digest of the key followed by the GUID `258EAFA5-E914-47DA-95CA-C5AB0DC85B11`.
/// A missing key, with the other two headers right, is reported as such.
pub proof fn lemma_websocket_handshake(upgrade: Option<Seq<char>>, connection: Option<Seq<char>>, key: Option<Seq<char>>)
    ensures
        spec_check_websocket_header(upgrade, connection, key) is Ok <==> (
            upgrade matches Some(u) && trimmed(u) == "websocket"@
            && (connection matches Some(c) && trimmed(c) == "Upgrade"@)
            && key is Some),
        key matches Some(k) ==> (spec_check_websocket_header(upgrade, connection, key) is Ok ==>
            spec_check_websocket_header(upgrade, connection, key)
                == Ok::<Seq<char>, Seq<char>>(base64_encoding(sha1(encode_utf8(k + "258EAFA5-E914-47DA-95CA-C5AB0DC85B11"@))))),
        key is None ==> (upgrade matches Some(u) && trimmed(u) == "websocket"@
            && (connection matches Some(c) && trimmed(c) == "Upgrade"@) ==>
            spec_check_websocket_header(upgrade, connection, key) == Err::<Seq<char>, Seq<char>>("Failed to read ws key from headers"@)),
{
}

/// Checks the headers of a WebSocket upgrade request and computes the accept key.
pub fn check_websocket_header(upgrade: Option<&str>, connection: Option<&str>, key: Option<&str>) -> (r: Result<String, AppError>)
    requires
        key matches Some(k) ==> encode_utf8(k@ + websocket_guid()).len() <= usize::MAX / 4,
    ensures
        match spec_check_websocket_header(
            match upgrade { Some(u) => Some(u@), None => None },
            match connection { Some(c) => Some(c@), None => None },
            match key { Some(k) => Some(k@), None => None },
        ) {
            Ok(accept) => r is Ok && r->Ok_0@ == accept,
            Err(message) => r is Err && r->Err_0 is BadRequest && r->Err_0->BadRequest_0@ == message,
        },
{
    let upgrade = match upgrade {
        None => return Err(AppError::BadRequest(String::new())),
        Some(u) => u,
    };
    let websocket = String::from_str("websocket");
    if String::from_str(trim(upgrade)) != websocket {
        return Err(AppError::BadRequest(String::new()));
    }
    let connection = match connection {
        None => return Err(AppError::BadRequest(String::new())),
        Some(c) => c,
    };
    let upgrade_word = String::from_str("Upgrade");
    if String::from_str(trim(connection)) != upgrade_word {
        return Err(AppError::BadRequest(String::new()));
    }
    let mut key = match key {
        None => return Err(AppError::BadRequest(String::from_str("Failed to read ws key from headers"))),
        Some(k) => String::from_str(k),
    };
    key.append("258EAFA5-E914-47DA-95CA-C5AB0DC85B11");
    let digest = sha1_digest(key.as_str().as_bytes());
    Ok(base64_encode(digest.as_slice()))
}

} // verus!
