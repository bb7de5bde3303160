use boluo::text::{to_ascii_lowercase, u64_to_string};
use boluo::pool::InternalPool;
use std::collections::VecDeque;
use boluo::cache::{make_key, COLON};
use boluo::context::{env_bool, flag};
use boluo::csrf::{generate_csrf_token, get_csrf_token, CSRF_LIFETIME_SECS};
use boluo::database::{create_first, fetch_first, CreationError, FetchError};
use boluo::error::AppError;
use boluo::id::Uuid;
use boluo::redis::{Connection, QueryError, RedisErrorInfo};
use boluo::session::{session_from_cache, sign, signing_key, verify_session_token, token};
use boluo::users::{
    login_cookie, login_user, logout_cookie, lookup_email, require_login, returned_token, CookieExpiry, Login, Register,
    RegisterForm, SESSION_COOKIE_LIFETIME_SECS,
};
use boluo::utils::{inner_map, merge_blank, millis_to_timestamp, split_timestamp, timestamp, timestamp_to_date_time};
use boluo::websocket::check_websocket_header;
use boluo::permissions::is_master_from;
use boluo::database::{ClientHealth, CrcBuilder};
use std::hash::{BuildHasher, Hasher};

fn info(dropped: bool) -> RedisErrorInfo {
    RedisErrorInfo {
        connection_dropped: dropped,
        connection_refusal: false,
        timeout: false,
        io_error: false,
        message: "m".to_string(),
    }
}

#[test]
fn websocket_accept_key_of_rfc_example() {
    let accepted = check_websocket_header(
        Some("websocket"),
        Some("Upgrade"),
        Some("dGhlIHNhbXBsZSBub25jZQ=="),
    );
    assert_eq!(accepted.ok(), Some("s3pPLMBiTxaQ9kYGzzhZRbK+xOo=".to_string()));
    assert!(matches!(check_websocket_header(None, Some("Upgrade"), Some("k")), Err(AppError::BadRequest(m)) if m.is_empty()));
    assert!(matches!(check_websocket_header(Some(" websocket "), Some("keep-alive"), Some("k")), Err(AppError::BadRequest(_))));
    match check_websocket_header(Some("websocket"), Some("Upgrade"), None) {
        Err(AppError::BadRequest(m)) => assert_eq!(m, "Failed to read ws key from headers"),
        other => panic!("unexpected {:?}", other),
    }
}

#[test]
fn flags_from_text() {
    assert!(env_bool("1"));
    assert!(env_bool("yes"));
    assert!(!env_bool("0"));
    assert!(!env_bool(" FALSE "));
    assert!(!env_bool(""));
    assert!(!flag(None));
    assert!(flag(Some("true".to_string())));
}

#[test]
fn csrf_token_layout() {
    let key = signing_key("s");
    let session = Uuid::from_bytes([2u8; 16]);
    let t = generate_csrf_token(&session, 1000, &key);
    let body = format!("{}.{}", base64::encode(&[2u8; 16]), 1000 + CSRF_LIFETIME_SECS);
    let signature = base64::encode(&sign(&key, &body));
    assert_eq!(t, format!("{}.{}", body, signature));
    let anonymous = get_csrf_token(None, 1000, &key);
    assert!(anonymous.starts_with(&base64::encode(&[0u8; 16])));
    assert_eq!(CSRF_LIFETIME_SECS, 3 * 60 * 60);
}

#[test]
fn cache_keys_are_kind_id_field() {
    let key = make_key(b"space", &Uuid::from_bytes([9u8; 16]), b"heartbeat");
    assert_eq!(&key[..6], b"space:");
    assert_eq!(key[6 + 16], COLON);
    assert_eq!(&key[6 + 17..], b"heartbeat");
    assert_ne!(key, make_key(b"space", &Uuid::from_bytes([8u8; 16]), b"heartbeat"));
}

#[test]
fn first_rows() {
    assert_eq!(fetch_first(Ok(vec![1, 2])).ok(), Some(1));
    assert!(matches!(fetch_first::<u8>(Ok(vec![])), Err(FetchError::NoSuchRecord)));
    assert!(matches!(fetch_first::<u8>(Err("boom".to_string())), Err(FetchError::QueryFail(m)) if m == "boom"));
    assert_eq!(create_first(Ok(vec![7])).ok(), Some(7));
    assert!(matches!(create_first::<u8>(Ok(vec![])), Err(CreationError::EmptyResult)));
}

#[test]
fn connection_marked_broken_by_dropped_link() {
    let mut conn = Connection::new(0u8);
    assert!(!conn.is_broken());
    assert_eq!(conn.handle::<u8>(Ok(3)).ok(), Some(3));
    assert!(matches!(conn.handle::<u8>(Err(info(false))), Err(QueryError::Redis(_))));
    assert!(!conn.is_broken());
    assert!(conn.handle::<u8>(Err(info(true))).is_err());
    assert!(conn.is_broken());
    assert!(conn.handle::<u8>(Ok(1)).is_ok());
    assert!(conn.is_broken());
    *conn.inner_mut() = 5;
}

#[test]
fn sessions_from_the_cache() {
    let id = Uuid::from_bytes([1u8; 16]);
    let s = session_from_cache(id, Ok(Some(vec![2u8; 16]))).unwrap();
    assert_eq!(s.id, id);
    assert_eq!(s.user_id, Uuid::from_bytes([2u8; 16]));
    match session_from_cache(id, Ok(Some(vec![2u8; 3]))) {
        Err(AppError::Unexpected(m)) => assert_eq!(m, "invalid bytes length: expected 16, found 3"),
        other => panic!("unexpected {:?}", other),
    }
    assert!(matches!(session_from_cache(id, Ok(None)), Err(AppError::Unauthenticated(m)) if m == "Session not found"));
    assert!(matches!(session_from_cache(id, Err("down".to_string())), Err(AppError::Unexpected(m)) if m == "down"));
    let key = signing_key("k");
    assert_eq!(verify_session_token(&token(&id, &key), &key).ok(), Some(id));
    assert!(verify_session_token("garbage", &key).is_err());
}

#[test]
fn registration_is_normalized_and_checked() {
    let form = Register {
        email: "Humura@Humura.NET".to_string(),
        username: " humura ".to_string(),
        nickname: " Akami Humura ".to_string(),
        password: "MadokaMadokaSuHaSuHa".to_string(),
    }
    .into_form();
    let r = form.prepare().ok().unwrap();
    assert_eq!(r.email, "humura@humura.net");
    assert_eq!(r.username, "humura");
    assert_eq!(r.nickname, "Akami Humura");
    let bad = RegisterForm {
        email: "x".to_string(),
        username: "u".to_string(),
        nickname: "n".to_string(),
        password: "p".to_string(),
    };
    assert!(matches!(bad.prepare(), Err(CreationError::ValidationFail(m)) if m == "E-mail address length shall not be less than 5."));
    assert_eq!(lookup_email(Some("A@B.C")), Some("a@b.c".to_string()));
    assert_eq!(lookup_email(None), None);
}

#[test]
fn login_answers_and_cookies() {
    let login = Login { username: "u".to_string(), password: "p".to_string(), with_token: true };
    assert_eq!(login.returned_token("t".to_string()), Some("t".to_string()));
    assert_eq!(returned_token(false, "t".to_string()), None);
    let c = login_cookie("tok".to_string(), false, 1000);
    assert_eq!(c.name, "session");
    assert_eq!(c.value, "tok");
    assert!(c.http_only && c.secure && c.same_site_lax);
    assert_eq!(c.path, "/api/");
    assert_eq!(c.expires, CookieExpiry::At(1000 + 256 * 24 * 60 * 60));
    assert_eq!(SESSION_COOKIE_LIFETIME_SECS, 256 * 24 * 60 * 60);
    assert!(!login_cookie("tok".to_string(), true, 0).secure);
    let out = logout_cookie();
    assert_eq!(out.value, "");
    assert_eq!(out.expires, CookieExpiry::Blank);
}

#[test]
fn times_and_text() {
    assert_eq!(split_timestamp(1_234_567), (1234, 567_000_000));
    assert_eq!(split_timestamp(-5000), (-5, 0));
    let date = timestamp_to_date_time(1_500_000_000_123).unwrap();
    assert_eq!(date.timestamp_millis(), 1_500_000_000_123);
    assert!(timestamp_to_date_time(8_000_000_000_000_000).is_some());
    assert!(timestamp_to_date_time(-8_000_000_000_000_000).is_some());
    assert!(timestamp_to_date_time(i64::MAX - 807).is_none());
    assert!(timestamp().unwrap() > 1_500_000_000_000);
    assert_eq!(merge_blank("  a \t b\n\nc  "), "a b c");
    let mapped: Result<Option<u32>, ()> = inner_map(Ok(Some(2u32)), |x: u32| x + 1);
    assert_eq!(mapped, Ok(Some(3)));
    assert_eq!(inner_map::<u32, (), u32, _>(Ok(None), |x: u32| x), Ok(None));
    assert_eq!(inner_map::<u32, u8, u32, _>(Err(4), |x: u32| x), Err(4));
}

#[test]
fn crc_builder_hashes_with_crc32() {
    let mut h = CrcBuilder.build_hasher();
    h.write(b"123456789");
    assert_eq!(h.finish(), 0xCBF43926);
}

#[test]
fn signing_key_is_sha256_of_secret() {
    let expected: Vec<u8> = vec![
        0xba, 0x78, 0x16, 0xbf, 0x8f, 0x01, 0xcf, 0xea, 0x41, 0x41, 0x40, 0xde, 0x5d, 0xae, 0x22, 0x23,
        0xb0, 0x03, 0x61, 0xa3, 0x96, 0x17, 0x7a, 0x9c, 0xb4, 0x10, 0xff, 0x61, 0xf2, 0x00, 0x15, 0xad,
    ];
    assert_eq!(signing_key("abc"), expected);
}

#[test]
fn pool_hands_connection_to_waiting_task() {
    let mut pool: InternalPool<u32> = InternalPool::new(VecDeque::new(), 1);
    let (gone_tx, gone_rx) = futures::channel::oneshot::channel::<u32>();
    drop(gone_rx);
    let (tx, mut rx) = futures::channel::oneshot::channel::<u32>();
    pool.wait(gone_tx);
    pool.wait(tx);
    pool.put_back(5);
    assert_eq!(rx.try_recv().unwrap(), Some(5));
    assert!(pool.waiters.is_empty());
    assert!(pool.conns.is_empty());
    pool.put_back(6);
    assert_eq!(pool.take(), Some(6));
    assert_eq!(pool.take(), None);
}

#[test]
fn database_connection_health() {
    let mut h = ClientHealth::new();
    assert!(!h.is_broken());
    h.after_query(true, false);
    assert!(!h.is_broken());
    h.after_query(false, true);
    assert!(!h.is_broken());
    h.after_query(true, true);
    assert!(h.is_broken());
    let mut g = ClientHealth::new();
    g.before_transaction(true);
    assert!(g.is_broken());
}

#[test]
fn login_rows_and_master_rows() {
    assert_eq!(login_user(Some((true, 7u8))), Some(7));
    assert_eq!(login_user(Some((false, 7u8))), None);
    assert_eq!(login_user::<u8>(None), None);
    assert!(matches!(require_login::<u8>(None), Err(AppError::NoPermission)));
    assert_eq!(require_login(Some(3u8)).ok(), Some(3));
    assert!(is_master_from(&vec![true, false]));
    assert!(!is_master_from(&vec![false, true]));
    assert!(!is_master_from(&vec![]));
}

#[test]
fn inner_map_calls_the_mapper_on_the_inner_value() {
    assert_eq!(inner_map(Ok::<Option<i32>, &str>(Some(2)), |v: i32| v * 10), Ok(Some(20)));
    assert_eq!(inner_map(Ok::<Option<i32>, &str>(None), |v: i32| v * 10), Ok(None));
    assert_eq!(inner_map(Err::<Option<i32>, &str>("e"), |v: i32| v * 10), Err("e"));
}

#[test]
fn decimal_and_lower_case_text() {
    assert_eq!(u64_to_string(0), "0");
    assert_eq!(u64_to_string(1234567890), "1234567890");
    assert_eq!(u64_to_string(u64::MAX), u64::MAX.to_string());
    assert_eq!(to_ascii_lowercase("AbC-Ü"), "abc-Ü");
}

#[test]
fn milliseconds_as_time_stamps() {
    assert_eq!(millis_to_timestamp(0), Some(0));
    assert_eq!(millis_to_timestamp(1_609_459_200_000), Some(1_609_459_200_000));
    assert_eq!(millis_to_timestamp(i64::MAX as u128), Some(i64::MAX));
    assert_eq!(millis_to_timestamp(i64::MAX as u128 + 1), None);
    assert_eq!(millis_to_timestamp(u128::MAX), None);
}
