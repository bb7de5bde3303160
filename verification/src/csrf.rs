//! CSRF tokens: `[session key (base64)].[expiry timestamp].[signature (base64)]`.
use vstd::prelude::*;
use vstd::utf8::encode_utf8;
use crate::crypto::{base64_encode, base64_encoding, hmac_sha256};
use crate::id::Uuid;
use crate::session::sign;
use crate::text::{decimal, u64_to_string};

verus! {

/// How long a CSRF token lasts, in seconds: three hours.
pub const CSRF_LIFETIME_SECS: u64 = 10800;

/// A CSRF token lasts three hours.
pub proof fn lemma_csrf_lifetime()
    ensures
        CSRF_LIFETIME_SECS == 3 * 60 * 60,
{
}

/// The CSRF token of `session` that expires at `expire_at` (Unix seconds), under `key`.
pub open spec fn spec_csrf_token(session: Seq<u8>, expire_at: nat, key: Seq<u8>) -> Seq<char> {
    let body = base64_encoding(session) + seq!['.'] + decimal(expire_at);
    body + seq!['.'] + base64_encoding(hmac_sha256(key, encode_utf8(body)))
}

/// Builds the CSRF token of `session_key` at the time `now_secs` (Unix seconds):
/// it expires three hours later.
pub fn generate_csrf_token(session_key: &Uuid, now_secs: u64, key: &[u8]) -> (t: String)
    requires
        now_secs + CSRF_LIFETIME_SECS <= u64::MAX,
    ensures
        t@ == spec_csrf_token(session_key.bytes@, (now_secs + CSRF_LIFETIME_SECS) as nat, key@),
{
    let timestamp: u64 = now_secs + CSRF_LIFETIME_SECS;
    let mut buffer = base64_encode(session_key.as_bytes().as_slice());
    proof {
        reveal_strlit(".");
    }
    buffer.append(".");
    let stamp = u64_to_string(timestamp);
    buffer.append(stamp.as_str());
    let ghost body = buffer@;
    assert(body =~= base64_encoding(session_key.bytes@) + seq!['.'] + decimal(timestamp as nat));
    let signature = sign(key, buffer.as_str());
    let signature_text = base64_encode(signature.as_slice());
    buffer.append(".");
    buffer.append(signature_text.as_str());
    assert(buffer@ =~= body + seq!['.'] + signature_text@);
    buffer
}

/// The CSRF token handed to a client: that of its session where it is
/// authenticated, else that of the nil session.
pub fn get_csrf_token(session: Option<Uuid>, now_secs: u64, key: &[u8]) -> (t: String)
    requires
        now_secs + CSRF_LIFETIME_SECS <= u64::MAX,
    ensures
        t@ == spec_csrf_token(
            match session {
                Some(s) => s.bytes@,
                None => Seq::new(16, |i: int| 0u8),
            },
            (now_secs + CSRF_LIFETIME_SECS) as nat,
            key@,
        ),
{
    let session_id = match session {
        Some(s) => s,
        None => Uuid::nil(),
    };
    generate_csrf_token(&session_id, now_secs, key)
}

} // verus!
