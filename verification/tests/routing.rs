use boluo::api::{body_parse_error, body_read_error, query_error, query_text, Return};
use boluo::error::{AppError, LogLevel, ModelError, ValidationFailed};
use boluo::routes::{
    channels_router, events_router, media_router, messages_router, route, spaces_router,
    users_router, ChannelsRoute, EventsRoute, MediaRoute, Method, Section, UsersRoute,
};

#[test]
fn sections_by_prefix() {
    let (section, rest) = route("/api/users/login");
    assert_eq!(section, Section::Users);
    assert_eq!(rest, "/login");
    assert_eq!(route("/api/csrf-token").0, Section::CsrfToken);
    assert_eq!(route("/api/events/connect"), (Section::Events, "/connect".to_string()));
    assert_eq!(route("/elsewhere").0, Section::Missing);
}

#[test]
fn handlers_by_path_and_method() {
    assert_eq!(users_router("/login", Method::Post).ok(), Some(UsersRoute::Login));
    assert_eq!(users_router("/logout", Method::Get).ok(), Some(UsersRoute::Logout));
    assert_eq!(users_router("/logout", Method::Post).ok(), Some(UsersRoute::Logout));
    match users_router("/login", Method::Get) {
        Err(AppError::NotFound(m)) => assert_eq!(m, "The request was sent with the wrong path or method"),
        other => panic!("unexpected {:?}", other),
    }
    assert_eq!(events_router("/connect", Method::Get).ok(), Some(EventsRoute::Connect));
    assert!(media_router("/upload", Method::Post).is_ok());
    assert!(matches!(media_router("/upload", Method::Post), Ok(MediaRoute::Upload)));
    assert!(channels_router("/query", Method::Get).is_ok());
    assert!(matches!(channels_router("/nothing", Method::Get), Err(_)));
    assert!(spaces_router("/list", Method::Get).is_ok());
    assert!(messages_router("/send", Method::Post).is_ok());
    let _ = ChannelsRoute::Query;
}

#[test]
fn error_status_codes_and_codes() {
    assert_eq!(AppError::Unauthenticated("x".to_string()).status_code(), 401);
    assert_eq!(AppError::NotFound("t").status_code(), 404);
    assert_eq!(AppError::NoPermission.status_code(), 403);
    assert_eq!(AppError::Validation(ValidationFailed("v")).status_code(), 400);
    assert_eq!(AppError::BadRequest("b".to_string()).status_code(), 400);
    assert_eq!(AppError::MethodNotAllowed.status_code(), 405);
    assert_eq!(AppError::Conflict("c".to_string()).status_code(), 409);
    assert_eq!(AppError::Unexpected("u".to_string()).status_code(), 500);
    assert_eq!(AppError::Database { source: "d".to_string() }.error_code(), "UNEXPECTED");
    assert_eq!(AppError::NoPermission.error_code(), "NO_PERMISSION");
    assert_eq!(AppError::Conflict("users".to_string()).table(), Some("users".to_string()));
    assert_eq!(AppError::NoPermission.table(), None);
    assert_eq!(AppError::NotFound("x").log_level(), LogLevel::Debug);
    assert_eq!(AppError::MethodNotAllowed.log_level(), LogLevel::Info);
    assert_eq!(AppError::Serialize("s".to_string()).log_level(), LogLevel::Error);
}

#[test]
fn error_messages() {
    assert_eq!(AppError::NotFound("space").message(), "\"space\" not found");
    assert_eq!(AppError::Conflict("users".to_string()).message(), "\"users\" already exists");
    assert_eq!(AppError::Validation(ValidationFailed("too short")).message(), "Validation failed: too short");
    assert_eq!(AppError::BadRequest("x".to_string()).message(), "Wrong request format: x");
    assert_eq!(AppError::Hyper { source: "h".to_string() }.message(), "An I/O error occurred");
    assert_eq!(
        AppError::Cache { source: "gone".to_string() }.message(),
        "An unexpected cache database error occurred: gone"
    );
}

#[test]
fn database_errors_become_model_errors() {
    match ModelError::from_db(Some("23505".to_string()), Some("users".to_string()), "dup".to_string()) {
        ModelError::Conflict(t) => assert_eq!(t, "users"),
        other => panic!("unexpected {:?}", other),
    }
    match ModelError::from_db(Some("23505".to_string()), None, "dup".to_string()) {
        ModelError::Conflict(t) => assert_eq!(t, "Unknown"),
        other => panic!("unexpected {:?}", other),
    }
    match ModelError::from_db(Some("42P01".to_string()), None, "no table".to_string()) {
        ModelError::Database(m) => assert_eq!(m, "no table"),
        other => panic!("unexpected {:?}", other),
    }
    assert!(matches!(
        ModelError::Conflict("t".to_string()).into_app_error(),
        AppError::Conflict(t) if t == "t"
    ));
}

#[test]
fn answers_carry_value_or_error_text() {
    let body = Return::new(5u32).status(201);
    assert_eq!(body.status_code, 201);
    let web = body.body();
    assert!(web.ok);
    assert_eq!(web.some, Some(5));
    assert_eq!(web.err, None);
    let failed = Return::<u32>::form_error(AppError::NoPermission);
    assert_eq!(failed.status_code, 403);
    let web = failed.body();
    assert!(web.ok);
    assert_eq!(web.some, None);
    assert_eq!(web.err, Some("Permission denied".to_string()));
}

#[test]
fn request_reading_errors() {
    assert_eq!(query_text(None), "");
    assert_eq!(query_text(Some("id=1")), "id=1");
    assert!(matches!(query_error("/x?y"), AppError::BadRequest(m) if m == "Failed to parse the query in the URI (/x?y)"));
    assert!(matches!(body_read_error(), AppError::BadRequest(m) if m == "Failed to read the request body"));
    assert!(matches!(body_parse_error(), AppError::BadRequest(m) if m == "Failed to parse the request body"));
}
