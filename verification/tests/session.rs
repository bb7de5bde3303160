use boluo::session::signature_text;
use boluo::id::Uuid;
use boluo::session::{
    make_key, parse_cookie, request_token, sign, signing_key, token, token_verify, verify,
    CookieError, TokenError,
};

fn new_session() -> Uuid {
    Uuid::from_bytes(*uuid::Uuid::new_v4().as_bytes())
}

#[test]
fn test_session_sign() {
    let key = signing_key("a secret of the server");
    let session = new_session();
    assert!(token_verify("", &key).is_err());
    let session_2 = token_verify(&*token(&session, &key), &key).unwrap();
    assert_eq!(session, session_2);
}

#[test]
fn test_sign() {
    let key = signing_key("a secret of the server");
    let message = "hello, world";
    let signature = sign(&key, message);
    let signature = base64::encode(&signature);
    verify(&key, message.as_bytes(), signature.as_bytes()).unwrap();
}

#[test]
fn tampered_signature_is_refused() {
    let key = signing_key("a secret of the server");
    let message = "hello, world";
    let signature = base64::encode(&sign(&key, message));
    assert!(verify(&key, b"hello, world!", signature.as_bytes()).is_none());
    assert!(verify(&key, message.as_bytes(), b"not base64!").is_none());
    let other = signing_key("another secret");
    assert!(verify(&other, message.as_bytes(), signature.as_bytes()).is_none());
}

#[test]
fn token_has_two_parts_and_a_foreign_key_fails() {
    let key = signing_key("k");
    let session = Uuid::from_bytes([7u8; 16]);
    let t = token(&session, &key);
    let body = base64::encode(&[7u8; 16]);
    assert!(t.starts_with(&(body.clone() + ".")));
    assert_eq!(t.matches('.').count(), 1);
    assert_eq!(token_verify(&t, &signing_key("other")), Err(TokenError::BadSignature));
    assert_eq!(token_verify("no-dot-here", &key), Err(TokenError::Malformed));
}

#[test]
fn session_cache_key_layout() {
    let session = Uuid::from_bytes([1u8; 16]);
    let mut expected = b"sessions:".to_vec();
    expected.extend_from_slice(&[1u8; 16]);
    expected.extend_from_slice(b":user_id");
    assert_eq!(make_key(&session), expected);
}

#[test]
fn cookie_and_header_tokens() {
    assert_eq!(parse_cookie(Some("a=1; session=abc.def; b=2")), Ok("abc.def".to_string()));
    assert_eq!(parse_cookie(Some("a=1")), Err(CookieError::NoSession));
    assert!(request_token(Some(Some("xyz")), None).is_ok());
    assert_eq!(request_token(Some(Some("xyz")), None).unwrap(), "xyz");
    assert_eq!(
        request_token(None, Some(Some("session=tok"))).unwrap(),
        "tok"
    );
    assert!(request_token(None, None).is_err());
}

#[test]
fn signature_text_verifies() {
    let key = signing_key("a secret of the server");
    let s = signature_text(&key, "hello, world");
    assert_eq!(s, base64::encode(&sign(&key, "hello, world")));
    assert_eq!(s.len(), 44);
    assert!(verify(&key, b"hello, world", s.as_bytes()).is_some());
    assert_eq!(token(&Uuid::from_bytes([3u8; 16]), &key).len(), 69);
}
