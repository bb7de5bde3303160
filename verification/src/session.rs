//! Session tokens: `[session id in base64].[signature in base64]`, where the
//! signature is the HMAC of the first part under the server's key.
use vstd::prelude::*;
use vstd::utf8::{encode_utf8, is_ascii_chars, is_ascii_chars_encode_utf8};
use crate::bytes::{copy_range, find_byte, index_of, lemma_index_of_concat, lemma_index_of};
use crate::cache::{make_key as cache_key, spec_make_key};
use crate::crypto::{
    base64_decode, base64_decoding, base64_encode, base64_encoding, hmac_sha256, hmac_sign,
    hmac_verify, is_base64_char, sha256, sha256_digest,
};
use crate::error::AppError;
use crate::id::Uuid;
use crate::text::{regex_capture, regex_captured, u64_to_string, decimal};

verus! {

/// The byte of the dot that separates the parts of a token.
pub const DOT: u8 = 46;

/// Why a token was refused.
#[derive(Clone, Copy, Debug, PartialEq, Eq)]
pub enum TokenError {
    /// The token has no dot.
    Malformed,
    /// The signature is not base64, or is not the HMAC of the first part.
    BadSignature,
    /// The first part is not base64.
    BadEncoding,
    /// The first part does not decode to sixteen bytes.
    BadLength,
}

/// The signing key derived from the server's secret: the SHA-256 digest of its bytes.
pub fn signing_key(secret: &str) -> (key: Vec<u8>)
    ensures
        key@ == sha256(encode_utf8(secret@)),
{
    sha256_digest(secret.as_bytes())
}

/// The HMAC of the bytes of `message` under `key`.
pub fn sign(key: &[u8], message: &str) -> (tag: Vec<u8>)
    ensures
        tag@ == hmac_sha256(key@, encode_utf8(message@)),
        tag@.len() == 32,
{
    hmac_sign(key, message.as_bytes())
}

/// Checks that `signature` is the base64 text of the HMAC of `message` under `key`.
pub fn verify(key: &[u8], message: &[u8], signature: &[u8]) -> (r: Option<()>)
    requires
        signature@.len() <= usize::MAX / 4,
    ensures
        r is Some <==> (match base64_decoding(signature@) {
            Some(tag) => tag == hmac_sha256(key@, message@),
            None => false,
        }),
{
    match base64_decode(signature) {
        None => None,
        Some(tag) => if hmac_verify(key, message, tag.as_slice()) {
            Some(())
        } else {
            None
        },
    }
}

/// The base64 text of the HMAC of `message` under `key`: a signature that
/// `verify` accepts for that message and key.
pub fn signature_text(key: &[u8], message: &str) -> (s: String)
    ensures
        s@ == base64_encoding(hmac_sha256(key@, encode_utf8(message@))),
        encode_utf8(s@).len() == 44,
        base64_decoding(encode_utf8(s@)) == Some(hmac_sha256(key@, encode_utf8(message@))),
{
    let tag = sign(key, message);
    let text = base64_encode(tag.as_slice());
    proof {
        assert(is_ascii_chars(text@)) by {
            assert forall|i: int| 0 <= i < text@.len() implies '\0' <= #[trigger] text@[i] <= '\u{7f}' by {
                assert(is_base64_char(text@[i]));
            }
        }
        is_ascii_chars_encode_utf8(text@);
    }
    text
}

/// The token of a session under `key`.
pub open spec fn spec_token(session: Seq<u8>, key: Seq<u8>) -> Seq<char> {
    let body = base64_encoding(session);
    body + seq!['.'] + base64_encoding(hmac_sha256(key, encode_utf8(body)))
}

/// Builds the token of `session`. Checking it under the same key gives the session
/// back (`token_verify` returns exactly what `spec_token_verify` says).
pub fn token(session: &Uuid, key: &[u8]) -> (t: String)
    ensures
        t@ == spec_token(session.bytes@, key@),
        encode_utf8(t@).len() == 69,
        spec_token_verify(encode_utf8(t@), key@) == Ok::<Seq<u8>, TokenError>(session.bytes@),
{
    let body = base64_encode(session.as_bytes().as_slice());
    let signature = sign(key, body.as_str());
    let signature_text = base64_encode(signature.as_slice());
    let mut buffer = body.clone();
    proof {
        reveal_strlit(".");
    }
    buffer.append(".");
    buffer.append(signature_text.as_str());
    proof {
        lemma_token_bytes(body@, signature_text@);
        assert(buffer@ =~= body@ + seq!['.'] + signature_text@);
        assert(is_ascii_chars(buffer@)) by {
            assert forall|i: int| 0 <= i < buffer@.len() implies '\0' <= #[trigger] buffer@[i] <= '\u{7f}' by {
                if i < body@.len() {
                    assert(is_base64_char(body@[i]));
                } else if i > body@.len() {
                    assert(is_base64_char(signature_text@[i - body@.len() - 1]));
                }
            }
        }
        is_ascii_chars_encode_utf8(buffer@);
    }
    buffer
}

/// The two first dot-separated parts of a token, where there are at least two.
pub open spec fn token_parts(t: Seq<u8>) -> Option<(Seq<u8>, Seq<u8>)> {
    let i = index_of(t, DOT);
    if i == t.len() {
        None
    } else {
        let rest = t.subrange(i + 1, t.len() as int);
        Some((t.subrange(0, i), rest.subrange(0, index_of(rest, DOT))))
    }
}

/// What checking the token with bytes `t` under `key` gives: the session id's bytes.
pub open spec fn spec_token_verify(t: Seq<u8>, key: Seq<u8>) -> Result<Seq<u8>, TokenError> {
    match token_parts(t) {
        None => Err(TokenError::Malformed),
        Some((body, signature)) => match base64_decoding(signature) {
            None => Err(TokenError::BadSignature),
            Some(tag) => if tag != hmac_sha256(key, body) {
                Err(TokenError::BadSignature)
            } else {
                match base64_decoding(body) {
                    None => Err(TokenError::BadEncoding),
                    Some(b) => if b.len() == 16 {
                        Ok(b)
                    } else {
                        Err(TokenError::BadLength)
                    },
                }
            },
        },
    }
}

/// The bytes of a token: the ASCII of its two base64 parts and the dot between them.
proof fn lemma_token_bytes(e1: Seq<char>, e2: Seq<char>)
    requires
        forall|i: int| 0 <= i < e1.len() ==> is_base64_char(#[trigger] e1[i]),
        forall|i: int| 0 <= i < e2.len() ==> is_base64_char(#[trigger] e2[i]),
    ensures
        token_parts(encode_utf8(e1 + seq!['.'] + e2)) == Some((encode_utf8(e1), encode_utf8(e2))),
{
    let t = e1 + seq!['.'] + e2;
    assert(is_ascii_chars(e1));
    assert(is_ascii_chars(e2));
    assert(is_ascii_chars(t));
    is_ascii_chars_encode_utf8(e1);
    is_ascii_chars_encode_utf8(e2);
    is_ascii_chars_encode_utf8(t);
    let b1 = encode_utf8(e1);
    let b2 = encode_utf8(e2);
    let bt = encode_utf8(t);
    assert(t[e1.len() as int] == '.');
    assert(bt =~= b1 + seq![DOT] + b2) by {
        assert forall|i: int| 0 <= i < bt.len() implies bt[i] == (b1 + seq![DOT] + b2)[i] by {
            if i < e1.len() {
                assert(t[i] == e1[i]);
            } else if i == e1.len() {
            } else {
                assert(t[i] == e2[i - e1.len() - 1]);
            }
        }
    }
    assert forall|j: int| 0 <= j < b1.len() implies b1[j] != DOT by {
        assert(is_base64_char(e1[j]));
    }
    assert forall|j: int| 0 <= j < b2.len() implies b2[j] != DOT by {
        assert(is_base64_char(e2[j]));
    }
    lemma_index_of_concat(b1, seq![DOT] + b2, DOT);
    assert(b1 + seq![DOT] + b2 =~= b1 + (seq![DOT] + b2));
    assert(index_of(bt, DOT) == b1.len());
    assert(bt.subrange(0, b1.len() as int) =~= b1);
    let rest = bt.subrange(b1.len() as int + 1, bt.len() as int);
    assert(rest =~= b2);
    lemma_index_of_concat(b2, Seq::<u8>::empty(), DOT);
    assert(b2 + Seq::<u8>::empty() =~= b2);
    assert(rest.subrange(0, index_of(rest, DOT)) =~= b2);
}

/// Checks a token under `key` and gives the session id that it carries.
pub fn token_verify(token: &str, key: &[u8]) -> (r: Result<Uuid, TokenError>)
    requires
        encode_utf8(token@).len() <= usize::MAX / 4,
    ensures
        match spec_token_verify(encode_utf8(token@), key@) {
            Ok(b) => r is Ok && r->Ok_0.bytes@ == b,
            Err(e) => r == Err::<Uuid, TokenError>(e),
        },
{
    let bytes = token.as_bytes();
    let ghost t = bytes@;
    let i = find_byte(bytes, 0, DOT);
    proof {
        assert(t.subrange(0, t.len() as int) =~= t);
        lemma_index_of(t, DOT);
    }
    if i == bytes.len() {
        return Err(TokenError::Malformed);
    }
    let j = find_byte(bytes, i + 1, DOT);
    proof {
        lemma_index_of(t.subrange(i + 1, t.len() as int), DOT);
    }
    let body = copy_range(bytes, 0, i);
    let signature = copy_range(bytes, i + 1, j);
    let ghost rest = t.subrange(i + 1, t.len() as int);
    proof {
        assert(signature@ =~= rest.subrange(0, index_of(rest, DOT)));
    }
    let checked = verify(key, body.as_slice(), signature.as_slice());
    if checked.is_none() {
        return Err(TokenError::BadSignature);
    }
    match base64_decode(body.as_slice()) {
        None => Err(TokenError::BadEncoding),
        Some(decoded) => match Uuid::from_slice(decoded.as_slice()) {
            None => Err(TokenError::BadLength),
            Some(id) => Ok(id),
        },
    }
}

/// The cache key under which the user of a session is kept.
pub fn make_key(session: &Uuid) -> (key: Vec<u8>)
    ensures
        key@ == spec_make_key(encode_utf8("sessions"@), session.bytes@, encode_utf8("user_id"@)),
{
    cache_key("sessions".as_bytes(), session, "user_id".as_bytes())
}

/// An authenticated session: its id and the user that it belongs to.
#[derive(Clone, Copy, Debug)]
pub struct Session {
    pub id: Uuid,
    pub user_id: Uuid,
}

/// Why a cookie header gave no token.
#[derive(Clone, Copy, Debug, PartialEq, Eq)]
pub enum CookieError {
    /// The header value is not visible ASCII text.
    NotText,
    /// The header holds no `session=` entry.
    NoSession,
}

/// The pattern of the session entry of a cookie header.
pub open spec fn cookie_pattern() -> Seq<char> {
    "\\bsession=([^;]+)"@
}

/// The token that a cookie header holds, from the header's text (`None` where the
/// value is not text).
pub open spec fn spec_parse_cookie(value: Option<Seq<char>>) -> Result<Seq<char>, CookieError> {
    match value {
        None => Err(CookieError::NotText),
        Some(text) => match regex_captured(cookie_pattern(), text, 1) {
            Some(Some(token)) => Ok(token),
            _ => Err(CookieError::NoSession),
        },
    }
}

/// Takes the session token out of a cookie header, given as its text (`None` where
/// the header value is not text).
pub fn parse_cookie(value: Option<&str>) -> (r: Result<String, CookieError>)
    ensures
        match spec_parse_cookie(match value { Some(v) => Some(v@), None => None }) {
            Ok(token) => r is Ok && r->Ok_0@ == token,
            Err(e) => r == Err::<String, CookieError>(e),
        },
{
    match value {
        None => Err(CookieError::NotText),
        Some(text) => match regex_capture("\\bsession=([^;]+)", text, 1) {
            Some(Some(token)) => Ok(token),
            _ => Err(CookieError::NoSession),
        },
    }
}

/// The token of a request: the `Authorization` header where it is present and is
/// text, else the session entry of the `Cookie` header. Each header is given as
/// `None` where it is absent, `Some(None)` where its value is not text.
pub open spec fn spec_request_token(
    authorization: Option<Option<Seq<char>>>,
    cookie: Option<Option<Seq<char>>>,
) -> Result<Seq<char>, Seq<char>> {
    match authorization {
        Some(Some(t)) => Ok(t),
        _ => match cookie {
            None => Err("There is no cookie in header"@),
            Some(value) => match spec_parse_cookie(value) {
                Ok(t) => Ok(t),
                Err(_) => Err("Invalid cookie"@),
            },
        },
    }
}

/// The `Authorization` header, where it is present and is text, is the token,
/// whatever the `Cookie` header holds. Otherwise the token comes from the cookie
/// alone, whether the `Authorization` header is missing or is not text: it is the
/// cookie's session entry where there is one; a request without a cookie, or whose
/// cookie holds no session entry, has no token.
pub proof fn lemma_request_token(
    authorization: Option<Option<Seq<char>>>,
    cookie: Option<Option<Seq<char>>>,
    other_cookie: Option<Option<Seq<char>>>,
)
    ensures
        authorization matches Some(Some(a)) ==> spec_request_token(authorization, cookie) == Ok::<Seq<char>, Seq<char>>(a),
        authorization matches Some(Some(_)) ==> spec_request_token(authorization, cookie)
            == spec_request_token(authorization, other_cookie),
        !(authorization matches Some(Some(_))) ==> spec_request_token(authorization, cookie)
            == spec_request_token(None, cookie),
        !(authorization matches Some(Some(_))) ==> (spec_request_token(authorization, cookie) is Ok <==> (
            cookie matches Some(value) && spec_parse_cookie(value) is Ok)),
        !(authorization matches Some(Some(_))) ==> (cookie matches Some(value) ==> (spec_parse_cookie(value) matches Ok(t)
            ==> spec_request_token(authorization, cookie) == Ok::<Seq<char>, Seq<char>>(t))),
        cookie is None && !(authorization matches Some(Some(_))) ==> spec_request_token(authorization, cookie) is Err,
{
}

/// Picks the token of a request out of its headers; the error is the reason of
/// the authentication failure.
pub fn request_token(authorization: Option<Option<&str>>, cookie: Option<Option<&str>>) -> (r: Result<String, AppError>)
    ensures
        authorization matches Some(Some(a)) ==> r is Ok && r->Ok_0@ == a@,
        match spec_request_token(
            match authorization { Some(Some(a)) => Some(Some(a@)), Some(None) => Some(None), None => None },
            match cookie { Some(Some(c)) => Some(Some(c@)), Some(None) => Some(None), None => None },
        ) {
            Ok(t) => r is Ok && r->Ok_0@ == t,
            Err(reason) => r is Err && r->Err_0 is Unauthenticated && r->Err_0->Unauthenticated_0@ == reason,
        },
{
    if let Some(Some(t)) = authorization {
        return Ok(String::from_str(t));
    }
    match cookie {
        None => Err(AppError::Unauthenticated(String::from_str("There is no cookie in header"))),
        Some(value) => match parse_cookie(value) {
            Ok(t) => Ok(t),
            Err(_) => Err(AppError::Unauthenticated(String::from_str("Invalid cookie"))),
        },
    }
}

/// Checks the token of a request: the session id it carries, or the failure.
pub fn verify_session_token(token: &str, key: &[u8]) -> (r: Result<Uuid, AppError>)
    requires
        encode_utf8(token@).len() <= usize::MAX / 4,
    ensures
        match spec_token_verify(encode_utf8(token@), key@) {
            Ok(b) => r is Ok && r->Ok_0.bytes@ == b,
            Err(_) => r is Err && r->Err_0 is Unauthenticated && r->Err_0->Unauthenticated_0@ == "Invalid session"@,
        },
{
    match token_verify(token, key) {
        Ok(id) => Ok(id),
        Err(_) => Err(AppError::Unauthenticated(String::from_str("Invalid session"))),
    }
}

/// The message of an identifier of the wrong length.
pub open spec fn bad_length_message(len: nat) -> Seq<char> {
    "invalid bytes length: expected 16, found "@ + decimal(len)
}

/// Finishes authentication from what the cache holds under the session's key:
/// the user id's bytes, nothing (the session is unknown), or the cache's failure.
pub fn session_from_cache(id: Uuid, cached: Result<Option<Vec<u8>>, String>) -> (r: Result<Session, AppError>)
    ensures
        match cached {
            Err(message) => r is Err && r->Err_0 is Unexpected && r->Err_0->Unexpected_0@ == message@,
            Ok(None) => r is Err && r->Err_0 is Unauthenticated && r->Err_0->Unauthenticated_0@ == "Session not found"@,
            Ok(Some(bytes)) => if bytes@.len() == 16 {
                r is Ok && r->Ok_0.id == id && r->Ok_0.user_id.bytes@ == bytes@
            } else {
                r is Err && r->Err_0 is Unexpected && r->Err_0->Unexpected_0@ == bad_length_message(bytes@.len())
            },
        },
{
    match cached {
        Err(message) => Err(AppError::Unexpected(message)),
        Ok(None) => Err(AppError::Unauthenticated(String::from_str("Session not found"))),
        Ok(Some(bytes)) => match Uuid::from_slice(bytes.as_slice()) {
            Some(user_id) => Ok(Session { id, user_id }),
            None => {
                let mut message = String::from_str("invalid bytes length: expected 16, found ");
                let found = u64_to_string(bytes.len() as u64);
                message.append(found.as_str());
                Err(AppError::Unexpected(message))
            },
        },
    }
}

} // verus!
