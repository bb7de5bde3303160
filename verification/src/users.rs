//! Registering users: how the form is normalized and checked before the record is
//! created, and how lookups by e-mail are normalized.
use vstd::prelude::*;
use crate::database::CreationError;
use crate::error::AppError;
use crate::text::{ascii_lower, to_ascii_lowercase, trim, trimmed};
use crate::validator::{
    email, email_rules, first_failure, nickname, nickname_rules, password, password_rules, username,
    username_rules,
};

verus! {

/// A registration request.
#[derive(Clone, Debug)]
pub struct RegisterForm {
    pub email: String,
    pub username: String,
    pub nickname: String,
    pub password: String,
}

/// The fields of a user to be created, normalized and checked.
#[derive(Clone, Debug)]
pub struct Registration {
    pub email: String,
    pub username: String,
    pub nickname: String,
    pub password: String,
}

/// An e-mail address as it is stored and looked up: in lower-case ASCII.
pub open spec fn normal_email(e: Seq<char>) -> Seq<char> {
    e.map_values(|c: char| ascii_lower(c))
}

/// The message of the first check that a registration fails: the e-mail address,
/// then the nickname, the username and the password.
pub open spec fn registration_failure(
    email_rules: Seq<(&'static str, crate::validator::Rule)>,
    nickname_rules: Seq<(&'static str, crate::validator::Rule)>,
    username_rules: Seq<(&'static str, crate::validator::Rule)>,
    password_rules: Seq<(&'static str, crate::validator::Rule)>,
    e: Seq<char>,
    n: Seq<char>,
    u: Seq<char>,
    p: Seq<char>,
) -> Option<&'static str> {
    if first_failure(email_rules, e) is Some {
        first_failure(email_rules, e)
    } else if first_failure(nickname_rules, n) is Some {
        first_failure(nickname_rules, n)
    } else if first_failure(username_rules, u) is Some {
        first_failure(username_rules, u)
    } else {
        first_failure(password_rules, p)
    }
}

impl RegisterForm {
    /// Normalizes the form (trims the username and the nickname, lower-cases the
    /// e-mail address) and checks it with the validators of each field, in the
    /// order e-mail address, nickname, username, password.
    pub fn prepare(&self) -> (r: Result<Registration, CreationError>)
        ensures
            ({
                let e = normal_email(self.email@);
                let n = trimmed(self.nickname@);
                let u = trimmed(self.username@);
                let p = self.password@;
                match registration_failure(
                    email_rules(), nickname_rules(), username_rules(), password_rules(),
                    e, n, u, p,
                ) {
                    Some(message) => r is Err && r->Err_0 is ValidationFail && r->Err_0->ValidationFail_0@ == message@,
                    None => r is Ok && r->Ok_0.email@ == e && r->Ok_0.nickname@ == n
                        && r->Ok_0.username@ == u && r->Ok_0.password@ == p,
                }
            }),
    {
        let user_name = trim(self.username.as_str());
        let nick = trim(self.nickname.as_str());
        let mail = to_ascii_lowercase(self.email.as_str());
        let email_rules = email();
        let nickname_rules = nickname();
        let username_rules = username();
        let password_rules = password();
        if let Err(message) = email_rules.run(mail.as_str()) {
            return Err(CreationError::ValidationFail(String::from_str(message)));
        }
        if let Err(message) = nickname_rules.run(nick) {
            return Err(CreationError::ValidationFail(String::from_str(message)));
        }
        if let Err(message) = username_rules.run(user_name) {
            return Err(CreationError::ValidationFail(String::from_str(message)));
        }
        if let Err(message) = password_rules.run(self.password.as_str()) {
            return Err(CreationError::ValidationFail(String::from_str(message)));
        }
        Ok(Registration {
            email: mail,
            username: String::from_str(user_name),
            nickname: String::from_str(nick),
            password: self.password.clone(),
        })
    }
}

/// An e-mail address to look a user up by, normalized as stored.
pub fn lookup_email(email: Option<&str>) -> (r: Option<String>)
    ensures
        match email {
            Some(e) => r is Some && r->0@ == normal_email(e@),
            None => r is None,
        },
{
    match email {
        Some(e) => Some(to_ascii_lowercase(e)),
        None => None,
    }
}

/// The body of a registration request.
#[derive(Clone, Debug)]
pub struct Register {
    pub email: String,
    pub username: String,
    pub nickname: String,
    pub password: String,
}

impl Register {
    /// The registration form with these fields.
    pub fn into_form(self) -> (form: RegisterForm)
        ensures
            form.email == self.email,
            form.username == self.username,
            form.nickname == self.nickname,
            form.password == self.password,
    {
        RegisterForm {
            email: self.email,
            username: self.username,
            nickname: self.nickname,
            password: self.password,
        }
    }
}

/// The body of a login request of the users' API.
#[derive(Clone, Debug)]
pub struct Login {
    pub username: String,
    pub password: String,
    pub with_token: bool,
}

/// The body of a login request of the top-level handlers.
#[derive(Clone, Debug)]
pub struct LoginForm {
    pub username: String,
    pub password: String,
    pub with_token: bool,
}

/// The session token that a login answers with: only where the client asked for it
/// (it always gets the cookie).
pub fn returned_token(with_token: bool, token: String) -> (r: Option<String>)
    ensures
        with_token ==> r == Some(token),
        !with_token ==> r is None,
{
    if with_token {
        Some(token)
    } else {
        None
    }
}

impl Login {
    /// The session token that this login answers with.
    pub fn returned_token(&self, token: String) -> (r: Option<String>)
        ensures
            self.with_token ==> r == Some(token),
            !self.with_token ==> r is None,
    {
        returned_token(self.with_token, token)
    }
}

impl LoginForm {
    /// The session token that this login answers with.
    pub fn returned_token(&self, token: String) -> (r: Option<String>)
        ensures
            self.with_token ==> r == Some(token),
            !self.with_token ==> r is None,
    {
        returned_token(self.with_token, token)
    }
}

/// The user that a login names: the row of the user with that name says whether
/// the password matched; only then is the user logged in.
pub fn login_user<U>(row: Option<(bool, U)>) -> (r: Option<U>)
    ensures
        match row {
            Some((true, u)) => r == Some(u),
            _ => r is None,
        },
{
    match row {
        Some((matched, u)) => if matched {
            Some(u)
        } else {
            None
        },
        None => None,
    }
}

/// A failed login is refused as a permission failure.
pub fn require_login<U>(user: Option<U>) -> (r: Result<U, AppError>)
    ensures
        match user {
            Some(u) => r == Ok::<U, AppError>(u),
            None => r == Err::<U, AppError>(AppError::NoPermission),
        },
{
    match user {
        Some(u) => Ok(u),
        None => Err(AppError::NoPermission),
    }
}

/// The name of the cookie that carries the session token.
pub const SESSION_COOKIE_NAME: &'static str = "session";

/// The path under which browsers send the session cookie.
pub const SESSION_COOKIE_PATH: &'static str = "/api/";

/// How long a login's session cookie lasts, in seconds: 256 days.
pub const SESSION_COOKIE_LIFETIME_SECS: i64 = 22118400;

/// A login's session cookie lasts 256 days.
pub proof fn lemma_session_cookie_lifetime()
    ensures
        SESSION_COOKIE_LIFETIME_SECS == 256 * 24 * 60 * 60,
{
}

/// When a cookie expires.
#[derive(Clone, Copy, Debug, PartialEq, Eq)]
pub enum CookieExpiry {
    /// At this time, in seconds since the Unix epoch.
    At(i64),
    /// At the all-zero calendar time, long past: the browser drops the cookie.
    Blank,
}

/// The session cookie that a response sets.
#[derive(Clone, Debug)]
pub struct SessionCookie {
    pub name: &'static str,
    pub value: String,
    pub http_only: bool,
    pub secure: bool,
    pub same_site_lax: bool,
    pub path: &'static str,
    pub expires: CookieExpiry,
}

/// The cookie that a login sets: the token, sent only to the API and not to
/// scripts, on same-site requests, over HTTPS unless the server runs in debug
/// mode, for 256 days from `now` (seconds since the Unix epoch).
pub fn login_cookie(token: String, debug: bool, now: i64) -> (c: SessionCookie)
    requires
        now <= i64::MAX - SESSION_COOKIE_LIFETIME_SECS,
    ensures
        c.name == SESSION_COOKIE_NAME,
        c.value == token,
        c.http_only,
        c.secure == !debug,
        c.same_site_lax,
        c.path == SESSION_COOKIE_PATH,
        c.expires == CookieExpiry::At((now + SESSION_COOKIE_LIFETIME_SECS) as i64),
{
    SessionCookie {
        name: SESSION_COOKIE_NAME,
        value: token,
        http_only: true,
        secure: !debug,
        same_site_lax: true,
        path: SESSION_COOKIE_PATH,
        expires: CookieExpiry::At(now + SESSION_COOKIE_LIFETIME_SECS),
    }
}

/// The cookie that a logout sets: an empty token that has already expired.
pub fn logout_cookie() -> (c: SessionCookie)
    ensures
        c.name == SESSION_COOKIE_NAME,
        c.value@.len() == 0,
        c.http_only,
        !c.secure,
        !c.same_site_lax,
        c.path == SESSION_COOKIE_PATH,
        c.expires == CookieExpiry::Blank,
{
    SessionCookie {
        name: SESSION_COOKIE_NAME,
        value: String::new(),
        http_only: true,
        secure: false,
        same_site_lax: false,
        path: SESSION_COOKIE_PATH,
        expires: CookieExpiry::Blank,
    }
}

} // verus!
