//! Encodings and digests that the library takes from the `base64`, `ring` and
//! `blake3` crates, and the hexadecimal text of a digest.
use vstd::prelude::*;
use vstd::utf8::encode_utf8;

verus! {

/// Whether `c` belongs to the standard base64 alphabet or is the padding `=`.
pub open spec fn is_base64_char(c: char) -> bool {
    ||| 'A' <= c <= 'Z'
    ||| 'a' <= c <= 'z'
    ||| '0' <= c <= '9'
    ||| c == '+'
    ||| c == '/'
    ||| c == '='
}

/// The character of the six-bit value `n` in the standard base64 alphabet.
pub open spec fn base64_digit(n: nat) -> char {
    if n < 26 {
        (65 + n) as char
    } else if n < 52 {
        (71 + n) as char
    } else if n < 62 {
        (n - 4) as char
    } else if n == 62 {
        '+'
    } else {
        '/'
    }
}

/// The standard, padded base64 text of `bytes`, as `base64::encode` writes it:
/// each group of three bytes becomes four characters, six bits each, high bits
/// first; a last group of one or two bytes is padded with `=`.
pub open spec fn base64_encoding(bytes: Seq<u8>) -> Seq<char>
    decreases bytes.len(),
{
    if bytes.len() == 0 {
        Seq::empty()
    } else if bytes.len() == 1 {
        let b0 = bytes[0] as nat;
        seq![base64_digit(b0 / 4), base64_digit((b0 % 4) * 16), '=', '=']
    } else if bytes.len() == 2 {
        let b0 = bytes[0] as nat;
        let b1 = bytes[1] as nat;
        seq![base64_digit(b0 / 4), base64_digit((b0 % 4) * 16 + b1 / 16), base64_digit((b1 % 16) * 4), '=']
    } else {
        let b0 = bytes[0] as nat;
        let b1 = bytes[1] as nat;
        let b2 = bytes[2] as nat;
        seq![
            base64_digit(b0 / 4),
            base64_digit((b0 % 4) * 16 + b1 / 16),
            base64_digit((b1 % 16) * 4 + b2 / 64),
            base64_digit(b2 % 64),
        ] + base64_encoding(bytes.subrange(3, bytes.len() as int))
    }
}

/// What `base64::decode` gives for `input`: `None` where it reports an error.
pub uninterp spec fn base64_decoding(input: Seq<u8>) -> Option<Seq<u8>>;

/// HMAC-SHA256 of `data` under the key `key`, as `ring::hmac::sign` computes it.
pub uninterp spec fn hmac_sha256(key: Seq<u8>, data: Seq<u8>) -> Seq<u8>;

/// The SHA-256 digest of `data`, as `ring::digest::digest` computes it.
pub uninterp spec fn sha256(data: Seq<u8>) -> Seq<u8>;

/// The SHA-1 digest of `data`, as `ring::digest::digest` computes it.
pub uninterp spec fn sha1(data: Seq<u8>) -> Seq<u8>;

/// Calls `base64::encode` (standard alphabet, padded). The contract claims that the
/// text is the standard padded encoding of the bytes (`base64_encoding`), that every
/// character of it is in the standard alphabet or is `=`, as the crate's encoding
/// table shows,
/// that it has four characters for each started group of three bytes, as the crate's
/// `encoded_size` computes with padding, and that `base64::decode` gives the bytes
/// back from it, as the crate documents.
#[verifier::external_body]
pub(crate) fn base64_encode(bytes: &[u8]) -> (r: String)
    requires
        bytes@.len() <= usize::MAX / 4,
    ensures
        r@ == base64_encoding(bytes@),
        r@.len() == 4 * ((bytes@.len() + 2) / 3),
        forall|i: int| 0 <= i < r@.len() ==> is_base64_char(#[trigger] r@[i]),
        base64_decoding(encode_utf8(r@)) == Some(bytes@),
{
    base64::encode(bytes)
}

/// Calls `base64::decode` (standard alphabet). The contract claims that the outcome
/// is a function of the input (named `base64_decoding`).
#[verifier::external_body]
pub(crate) fn base64_decode(input: &[u8]) -> (r: Option<Vec<u8>>)
    requires
        input@.len() <= usize::MAX / 4,
    ensures
        r is Some <==> base64_decoding(input@) is Some,
        r matches Some(v) ==> base64_decoding(input@) == Some(v@),
{
    base64::decode(input).ok()
}

/// Calls `ring::hmac::sign` with a `ring::hmac::Key` made by `Key::new(HMAC_SHA256, key)`.
/// The contract claims that the tag is a function of the key and the data (named
/// `hmac_sha256`) and, as the crate's source shows (a tag is the output of SHA-256),
/// that it is 32 bytes long.
#[verifier::external_body]
pub(crate) fn hmac_sign(key: &[u8], data: &[u8]) -> (tag: Vec<u8>)
    ensures
        tag@ == hmac_sha256(key@, data@),
        tag@.len() == 32,
{
    let key = ring::hmac::Key::new(ring::hmac::HMAC_SHA256, key);
    ring::hmac::sign(&key, data).as_ref().to_vec()
}

/// Calls `ring::hmac::verify` with a key made as in `hmac_sign`. The contract claims
/// what the crate documents and its source shows: it succeeds exactly when `tag`
/// equals the HMAC of `data` under the key.
#[verifier::external_body]
pub(crate) fn hmac_verify(key: &[u8], data: &[u8], tag: &[u8]) -> (ok: bool)
    ensures
        ok == (tag@ == hmac_sha256(key@, data@)),
{
    let key = ring::hmac::Key::new(ring::hmac::HMAC_SHA256, key);
    ring::hmac::verify(&key, data, tag).is_ok()
}

/// Calls `ring::digest::digest(&SHA256, data)`; the digest is named `sha256`, and
/// is 32 bytes long, as SHA-256 is.
#[verifier::external_body]
pub(crate) fn sha256_digest(data: &[u8]) -> (d: Vec<u8>)
    ensures
        d@ == sha256(data@),
        d@.len() == 32,
{
    ring::digest::digest(&ring::digest::SHA256, data).as_ref().to_vec()
}

/// Calls `ring::digest::digest(&SHA1_FOR_LEGACY_USE_ONLY, data)`; the digest is
/// named `sha1`, and is 20 bytes long, as SHA-1 is.
#[verifier::external_body]
pub(crate) fn sha1_digest(data: &[u8]) -> (d: Vec<u8>)
    ensures
        d@ == sha1(data@),
        d@.len() == 20,
{
    ring::digest::digest(&ring::digest::SHA1_FOR_LEGACY_USE_ONLY, data).as_ref().to_vec()
}

/// The incremental BLAKE3 hasher of the `blake3` crate.
#[verifier::external_type_specification]
#[verifier::external_body]
pub struct ExBlake3Hasher(blake3::Hasher);

/// The bytes that a BLAKE3 hasher has been fed since it was made.
pub uninterp spec fn hashed_input(hasher: blake3::Hasher) -> Seq<u8>;

/// The 32-byte BLAKE3 hash of `input`, as `blake3::Hasher::finalize` computes it.
pub uninterp spec fn blake3_digest(input: Seq<u8>) -> Seq<u8>;

/// Calls `blake3::Hasher::new`. The contract claims that the new hasher has been
/// fed nothing.
#[verifier::external_body]
pub(crate) fn blake3_new() -> (hasher: blake3::Hasher)
    ensures
        hashed_input(hasher) == Seq::<u8>::empty(),
{
    blake3::Hasher::new()
}

/// Calls `blake3::Hasher::update`. The contract claims that the hasher has then
/// been fed `input` after what it was fed before.
#[verifier::external_body]
pub(crate) fn blake3_update(hasher: &mut blake3::Hasher, input: &[u8])
    ensures
        hashed_input(*final(hasher)) == hashed_input(*old(hasher)) + input@,
{
    hasher.update(input);
}

/// Calls `blake3::Hasher::finalize` and takes the bytes of the hash. The contract
/// claims that they are the hash of all that the hasher was fed (named
/// `blake3_digest`), 32 bytes long as the crate's `OUT_LEN` says.
#[verifier::external_body]
pub(crate) fn blake3_finalize(hasher: &blake3::Hasher) -> (digest: [u8; 32])
    ensures
        digest@ == blake3_digest(hashed_input(*hasher)),
{
    *hasher.finalize().as_bytes()
}

/// The lower-case hexadecimal digit of `n` (below 16).
pub open spec fn lower_hex_digit(n: nat) -> char {
    if n < 10 {
        (48 + n) as char
    } else {
        (87 + n) as char
    }
}

/// The lower-case hexadecimal text of `bytes`: two digits per byte, the high half
/// first.
pub open spec fn hex_lower(bytes: Seq<u8>) -> Seq<char>
    decreases bytes.len(),
{
    if bytes.len() == 0 {
        Seq::empty()
    } else {
        hex_lower(bytes.drop_last()) + seq![
            lower_hex_digit(bytes.last() as nat / 16),
            lower_hex_digit(bytes.last() as nat % 16),
        ]
    }
}

fn lower_hex_char(n: u8) -> (c: char)
    requires
        n < 16,
    ensures
        c == lower_hex_digit(n as nat),
{
    if n < 10 {
        (48 + n) as char
    } else {
        (87 + n) as char
    }
}

/// Writes `bytes` as lower-case hexadecimal text.
pub fn to_hex(bytes: &[u8]) -> (text: String)
    ensures
        text@ == hex_lower(bytes@),
        text@.len() == 2 * bytes@.len(),
{
    let mut text = String::new();
    let mut i: usize = 0;
    while i < bytes.len()
        invariant
            i <= bytes@.len(),
            text@ == hex_lower(bytes@.subrange(0, i as int)),
            text@.len() == 2 * i,
        decreases bytes@.len() - i,
    {
        let b = bytes[i];
        crate::text::push_char(&mut text, lower_hex_char(b / 16));
        crate::text::push_char(&mut text, lower_hex_char(b % 16));
        proof {
            let next = bytes@.subrange(0, i + 1);
            assert(next.drop_last() =~= bytes@.subrange(0, i as int));
            assert(next.last() == b);
        }
        i = i + 1;
    }
    proof {
        assert(bytes@.subrange(0, bytes@.len() as int) =~= bytes@);
    }
    text
}

} // verus!
