//! Routing: which handler answers a request, from its path and method.
use vstd::prelude::*;
use crate::error::AppError;

verus! {

/// The method of a request.
#[derive(Clone, Copy, Debug, PartialEq, Eq, Structural)]
pub enum Method {
    Get,
    Post,
    Patch,
    Head,
    Options,
    Other,
}

/// A route: a path, the method it takes (`None` for any), and its handler.
pub type Route<H> = (&'static str, Option<Method>, H);

/// The handler of the first route that matches the path and the method.
pub open spec fn first_match<H>(table: Seq<Route<H>>, path: Seq<char>, method: Method) -> Option<H>
    decreases table.len(),
{
    if table.len() == 0 {
        None
    } else if table[0].0@ == path && (table[0].1 is None || table[0].1 == Some(method)) {
        Some(table[0].2)
    } else {
        first_match(table.drop_first(), path, method)
    }
}

/// Finds the handler of the first route of `table` that matches.
pub fn dispatch<H: Copy>(table: &Vec<Route<H>>, path: &str, method: Method) -> (r: Option<H>)
    ensures
        r == first_match(table@, path@, method),
{
    let ghost t = table@;
    let wanted = String::from_str(path);
    let mut i: usize = 0;
    assert(t.subrange(0, t.len() as int) =~= t);
    while i < table.len()
        invariant
            i <= t.len(),
            t == table@,
            wanted@ == path@,
            first_match(t, path@, method) == first_match(t.subrange(i as int, t.len() as int), path@, method),
        decreases t.len() - i,
    {
        let (p, m, h) = table[i];
        let candidate = String::from_str(p);
        let method_ok = match m {
            None => true,
            Some(mm) => mm == method,
        };
        assert(t.subrange(i as int, t.len() as int)[0] == t[i as int]);
        if candidate == wanted && method_ok {
            return Some(h);
        }
        assert(t.subrange(i as int, t.len() as int).drop_first() =~= t.subrange(i + 1, t.len() as int));
        i = i + 1;
    }
    None
}

/// The handlers of the users API.
#[derive(Clone, Copy, Debug, PartialEq, Eq, Structural)]
pub enum UsersRoute {
    Login,
    Register,
    Logout,
    Query,
    GetMe,
    Edit,
}

/// The routes of the users API, in the order they are tried.
pub open spec fn users_table() -> Seq<Route<UsersRoute>> {
    seq![
        ("/login", Some(Method::Post), UsersRoute::Login),
        ("/register", Some(Method::Post), UsersRoute::Register),
        ("/logout", None, UsersRoute::Logout),
        ("/query", Some(Method::Get), UsersRoute::Query),
        ("/get_me", Some(Method::Get), UsersRoute::GetMe),
        ("/edit", Some(Method::Post), UsersRoute::Edit),
    ]
}

/// Builds the routes of the users API.
pub fn users_routes() -> (t: Vec<Route<UsersRoute>>)
    ensures
        t@ == users_table(),
{
    vec![
            ("/login", Some(Method::Post), UsersRoute::Login),
            ("/register", Some(Method::Post), UsersRoute::Register),
            ("/logout", None, UsersRoute::Logout),
            ("/query", Some(Method::Get), UsersRoute::Query),
            ("/get_me", Some(Method::Get), UsersRoute::GetMe),
            ("/edit", Some(Method::Post), UsersRoute::Edit),
    ]
}

/// The handler of a request to the users API; a missing route is an error.
pub fn users_router(path: &str, method: Method) -> (r: Result<UsersRoute, AppError>)
    ensures
        match first_match(users_table(), path@, method) {
            Some(h) => r == Ok::<UsersRoute, AppError>(h),
            None => r == Err::<UsersRoute, AppError>(AppError::missing_spec()),
        },
{
    match dispatch(&users_routes(), path, method) {
        Some(h) => Ok(h),
        None => Err(AppError::missing()),
    }
}

/// Each handler of the users API answers its own path and method: logging in,
/// registering and editing `POST`, the queries `GET`, logging out any method; any
/// other request reaches none.
pub proof fn lemma_users_routes(path: Seq<char>, method: Method)
    ensures
        first_match(users_table(), path, method) == Some(UsersRoute::Login)
            <==> path == "/login"@ && method == Method::Post,
        first_match(users_table(), path, method) == Some(UsersRoute::Register)
            <==> path == "/register"@ && method == Method::Post,
        first_match(users_table(), path, method) == Some(UsersRoute::Logout)
            <==> path == "/logout"@,
        first_match(users_table(), path, method) == Some(UsersRoute::Query)
            <==> path == "/query"@ && method == Method::Get,
        first_match(users_table(), path, method) == Some(UsersRoute::GetMe)
            <==> path == "/get_me"@ && method == Method::Get,
        first_match(users_table(), path, method) == Some(UsersRoute::Edit)
            <==> path == "/edit"@ && method == Method::Post,
        first_match(users_table(), path, method) is None <==> !(
            (path == "/login"@ && method == Method::Post)
            || (path == "/register"@ && method == Method::Post)
            || (path == "/logout"@)
            || (path == "/query"@ && method == Method::Get)
            || (path == "/get_me"@ && method == Method::Get)
            || (path == "/edit"@ && method == Method::Post)
        ),
{
    reveal_strlit("/login");
    reveal_strlit("/register");
    reveal_strlit("/logout");
    reveal_strlit("/query");
    reveal_strlit("/get_me");
    reveal_strlit("/edit");
    assert("/login"@.len() != "/register"@.len());
    assert("/login"@.len() != "/logout"@.len());
    assert("/login"@[1] != "/query"@[1]);
    assert("/login"@.len() != "/get_me"@.len());
    assert("/login"@.len() != "/edit"@.len());
    assert("/register"@.len() != "/logout"@.len());
    assert("/register"@.len() != "/query"@.len());
    assert("/register"@.len() != "/get_me"@.len());
    assert("/register"@.len() != "/edit"@.len());
    assert("/logout"@.len() != "/query"@.len());
    assert("/logout"@[1] != "/get_me"@[1]);
    assert("/logout"@.len() != "/edit"@.len());
    assert("/query"@.len() != "/get_me"@.len());
    assert("/query"@.len() != "/edit"@.len());
    assert("/get_me"@.len() != "/edit"@.len());
    reveal_with_fuel(first_match, 7);
}

/// The handlers of the spaces API.
#[derive(Clone, Copy, Debug, PartialEq, Eq, Structural)]
pub enum SpacesRoute {
    List,
    Query,
    QueryWithRelated,
    My,
    Create,
    Edit,
    Join,
    Leave,
    Members,
    Delete,
    CheckName,
}

/// The routes of the spaces API, in the order they are tried.
pub open spec fn spaces_table() -> Seq<Route<SpacesRoute>> {
    seq![
        ("/list", Some(Method::Get), SpacesRoute::List),
        ("/query", Some(Method::Get), SpacesRoute::Query),
        ("/query_with_related", Some(Method::Get), SpacesRoute::QueryWithRelated),
        ("/my", Some(Method::Get), SpacesRoute::My),
        ("/create", Some(Method::Post), SpacesRoute::Create),
        ("/edit", Some(Method::Post), SpacesRoute::Edit),
        ("/join", Some(Method::Post), SpacesRoute::Join),
        ("/leave", Some(Method::Post), SpacesRoute::Leave),
        ("/members", Some(Method::Get), SpacesRoute::Members),
        ("/delete", Some(Method::Post), SpacesRoute::Delete),
        ("/check_name", Some(Method::Get), SpacesRoute::CheckName),
    ]
}

/// Builds the routes of the spaces API.
pub fn spaces_routes() -> (t: Vec<Route<SpacesRoute>>)
    ensures
        t@ == spaces_table(),
{
    vec![
            ("/list", Some(Method::Get), SpacesRoute::List),
            ("/query", Some(Method::Get), SpacesRoute::Query),
            ("/query_with_related", Some(Method::Get), SpacesRoute::QueryWithRelated),
            ("/my", Some(Method::Get), SpacesRoute::My),
            ("/create", Some(Method::Post), SpacesRoute::Create),
            ("/edit", Some(Method::Post), SpacesRoute::Edit),
            ("/join", Some(Method::Post), SpacesRoute::Join),
            ("/leave", Some(Method::Post), SpacesRoute::Leave),
            ("/members", Some(Method::Get), SpacesRoute::Members),
            ("/delete", Some(Method::Post), SpacesRoute::Delete),
            ("/check_name", Some(Method::Get), SpacesRoute::CheckName),
    ]
}

/// The handler of a request to the spaces API; a missing route is an error.
pub fn spaces_router(path: &str, method: Method) -> (r: Result<SpacesRoute, AppError>)
    ensures
        match first_match(spaces_table(), path@, method) {
            Some(h) => r == Ok::<SpacesRoute, AppError>(h),
            None => r == Err::<SpacesRoute, AppError>(AppError::missing_spec()),
        },
{
    match dispatch(&spaces_routes(), path, method) {
        Some(h) => Ok(h),
        None => Err(AppError::missing()),
    }
}

/// Each handler of the spaces API answers its own path and method: the queries
/// `GET`, the changes `POST`; any other request reaches none.
pub proof fn lemma_spaces_routes(path: Seq<char>, method: Method)
    ensures
        first_match(spaces_table(), path, method) == Some(SpacesRoute::List)
            <==> path == "/list"@ && method == Method::Get,
        first_match(spaces_table(), path, method) == Some(SpacesRoute::Query)
            <==> path == "/query"@ && method == Method::Get,
        first_match(spaces_table(), path, method) == Some(SpacesRoute::QueryWithRelated)
            <==> path == "/query_with_related"@ && method == Method::Get,
        first_match(spaces_table(), path, method) == Some(SpacesRoute::My)
            <==> path == "/my"@ && method == Method::Get,
        first_match(spaces_table(), path, method) == Some(SpacesRoute::Create)
            <==> path == "/create"@ && method == Method::Post,
        first_match(spaces_table(), path, method) == Some(SpacesRoute::Edit)
            <==> path == "/edit"@ && method == Method::Post,
        first_match(spaces_table(), path, method) == Some(SpacesRoute::Join)
            <==> path == "/join"@ && method == Method::Post,
        first_match(spaces_table(), path, method) == Some(SpacesRoute::Leave)
            <==> path == "/leave"@ && method == Method::Post,
        first_match(spaces_table(), path, method) == Some(SpacesRoute::Members)
            <==> path == "/members"@ && method == Method::Get,
        first_match(spaces_table(), path, method) == Some(SpacesRoute::Delete)
            <==> path == "/delete"@ && method == Method::Post,
        first_match(spaces_table(), path, method) == Some(SpacesRoute::CheckName)
            <==> path == "/check_name"@ && method == Method::Get,
        first_match(spaces_table(), path, method) is None <==> !(
            (path == "/list"@ && method == Method::Get)
            || (path == "/query"@ && method == Method::Get)
            || (path == "/query_with_related"@ && method == Method::Get)
            || (path == "/my"@ && method == Method::Get)
            || (path == "/create"@ && method == Method::Post)
            || (path == "/edit"@ && method == Method::Post)
            || (path == "/join"@ && method == Method::Post)
            || (path == "/leave"@ && method == Method::Post)
            || (path == "/members"@ && method == Method::Get)
            || (path == "/delete"@ && method == Method::Post)
            || (path == "/check_name"@ && method == Method::Get)
        ),
{
    reveal_strlit("/list");
    reveal_strlit("/query");
    reveal_strlit("/query_with_related");
    reveal_strlit("/my");
    reveal_strlit("/create");
    reveal_strlit("/edit");
    reveal_strlit("/join");
    reveal_strlit("/leave");
    reveal_strlit("/members");
    reveal_strlit("/delete");
    reveal_strlit("/check_name");
    assert("/list"@.len() != "/query"@.len());
    assert("/list"@.len() != "/query_with_related"@.len());
    assert("/list"@.len() != "/my"@.len());
    assert("/list"@.len() != "/create"@.len());
    assert("/list"@[1] != "/edit"@[1]);
    assert("/list"@[1] != "/join"@[1]);
    assert("/list"@.len() != "/leave"@.len());
    assert("/list"@.len() != "/members"@.len());
    assert("/list"@.len() != "/delete"@.len());
    assert("/list"@.len() != "/check_name"@.len());
    assert("/query"@.len() != "/query_with_related"@.len());
    assert("/query"@.len() != "/my"@.len());
    assert("/query"@.len() != "/create"@.len());
    assert("/query"@.len() != "/edit"@.len());
    assert("/query"@.len() != "/join"@.len());
    assert("/query"@[1] != "/leave"@[1]);
    assert("/query"@.len() != "/members"@.len());
    assert("/query"@.len() != "/delete"@.len());
    assert("/query"@.len() != "/check_name"@.len());
    assert("/query_with_related"@.len() != "/my"@.len());
    assert("/query_with_related"@.len() != "/create"@.len());
    assert("/query_with_related"@.len() != "/edit"@.len());
    assert("/query_with_related"@.len() != "/join"@.len());
    assert("/query_with_related"@.len() != "/leave"@.len());
    assert("/query_with_related"@.len() != "/members"@.len());
    assert("/query_with_related"@.len() != "/delete"@.len());
    assert("/query_with_related"@.len() != "/check_name"@.len());
    assert("/my"@.len() != "/create"@.len());
    assert("/my"@.len() != "/edit"@.len());
    assert("/my"@.len() != "/join"@.len());
    assert("/my"@.len() != "/leave"@.len());
    assert("/my"@.len() != "/members"@.len());
    assert("/my"@.len() != "/delete"@.len());
    assert("/my"@.len() != "/check_name"@.len());
    assert("/create"@.len() != "/edit"@.len());
    assert("/create"@.len() != "/join"@.len());
    assert("/create"@.len() != "/leave"@.len());
    assert("/create"@.len() != "/members"@.len());
    assert("/create"@[1] != "/delete"@[1]);
    assert("/create"@.len() != "/check_name"@.len());
    assert("/edit"@[1] != "/join"@[1]);
    assert("/edit"@.len() != "/leave"@.len());
    assert("/edit"@.len() != "/members"@.len());
    assert("/edit"@.len() != "/delete"@.len());
    assert("/edit"@.len() != "/check_name"@.len());
    assert("/join"@.len() != "/leave"@.len());
    assert("/join"@.len() != "/members"@.len());
    assert("/join"@.len() != "/delete"@.len());
    assert("/join"@.len() != "/check_name"@.len());
    assert("/leave"@.len() != "/members"@.len());
    assert("/leave"@.len() != "/delete"@.len());
    assert("/leave"@.len() != "/check_name"@.len());
    assert("/members"@.len() != "/delete"@.len());
    assert("/members"@.len() != "/check_name"@.len());
    assert("/delete"@.len() != "/check_name"@.len());
    reveal_with_fuel(first_match, 12);
}

/// The handlers of the channels API.
#[derive(Clone, Copy, Debug, PartialEq, Eq, Structural)]
pub enum ChannelsRoute {
    Query,
    QueryWithRelated,
    BySpace,
    My,
    Create,
    Edit,
    EditMember,
    Members,
    Join,
    Leave,
    Delete,
    CheckName,
}

/// The routes of the channels API, in the order they are tried.
pub open spec fn channels_table() -> Seq<Route<ChannelsRoute>> {
    seq![
        ("/query", Some(Method::Get), ChannelsRoute::Query),
        ("/query_with_related", Some(Method::Get), ChannelsRoute::QueryWithRelated),
        ("/by_space", Some(Method::Get), ChannelsRoute::BySpace),
        ("/my", Some(Method::Get), ChannelsRoute::My),
        ("/create", Some(Method::Post), ChannelsRoute::Create),
        ("/edit", Some(Method::Post), ChannelsRoute::Edit),
        ("/edit_member", Some(Method::Post), ChannelsRoute::EditMember),
        ("/members", Some(Method::Get), ChannelsRoute::Members),
        ("/join", Some(Method::Post), ChannelsRoute::Join),
        ("/leave", Some(Method::Post), ChannelsRoute::Leave),
        ("/delete", Some(Method::Post), ChannelsRoute::Delete),
        ("/check_name", Some(Method::Get), ChannelsRoute::CheckName),
    ]
}

/// Builds the routes of the channels API.
pub fn channels_routes() -> (t: Vec<Route<ChannelsRoute>>)
    ensures
        t@ == channels_table(),
{
    vec![
            ("/query", Some(Method::Get), ChannelsRoute::Query),
            ("/query_with_related", Some(Method::Get), ChannelsRoute::QueryWithRelated),
            ("/by_space", Some(Method::Get), ChannelsRoute::BySpace),
            ("/my", Some(Method::Get), ChannelsRoute::My),
            ("/create", Some(Method::Post), ChannelsRoute::Create),
            ("/edit", Some(Method::Post), ChannelsRoute::Edit),
            ("/edit_member", Some(Method::Post), ChannelsRoute::EditMember),
            ("/members", Some(Method::Get), ChannelsRoute::Members),
            ("/join", Some(Method::Post), ChannelsRoute::Join),
            ("/leave", Some(Method::Post), ChannelsRoute::Leave),
            ("/delete", Some(Method::Post), ChannelsRoute::Delete),
            ("/check_name", Some(Method::Get), ChannelsRoute::CheckName),
    ]
}

/// The handler of a request to the channels API; a missing route is an error.
pub fn channels_router(path: &str, method: Method) -> (r: Result<ChannelsRoute, AppError>)
    ensures
        match first_match(channels_table(), path@, method) {
            Some(h) => r == Ok::<ChannelsRoute, AppError>(h),
            None => r == Err::<ChannelsRoute, AppError>(AppError::missing_spec()),
        },
{
    match dispatch(&channels_routes(), path, method) {
        Some(h) => Ok(h),
        None => Err(AppError::missing()),
    }
}

/// Each handler of the channels API answers its own path and method: the queries
/// `GET`, the changes `POST`; any other request reaches none.
pub proof fn lemma_channels_routes(path: Seq<char>, method: Method)
    ensures
        first_match(channels_table(), path, method) == Some(ChannelsRoute::Query)
            <==> path == "/query"@ && method == Method::Get,
        first_match(channels_table(), path, method) == Some(ChannelsRoute::QueryWithRelated)
            <==> path == "/query_with_related"@ && method == Method::Get,
        first_match(channels_table(), path, method) == Some(ChannelsRoute::BySpace)
            <==> path == "/by_space"@ && method == Method::Get,
        first_match(channels_table(), path, method) == Some(ChannelsRoute::My)
            <==> path == "/my"@ && method == Method::Get,
        first_match(channels_table(), path, method) == Some(ChannelsRoute::Create)
            <==> path == "/create"@ && method == Method::Post,
        first_match(channels_table(), path, method) == Some(ChannelsRoute::Edit)
            <==> path == "/edit"@ && method == Method::Post,
        first_match(channels_table(), path, method) == Some(ChannelsRoute::EditMember)
            <==> path == "/edit_member"@ && method == Method::Post,
        first_match(channels_table(), path, method) == Some(ChannelsRoute::Members)
            <==> path == "/members"@ && method == Method::Get,
        first_match(channels_table(), path, method) == Some(ChannelsRoute::Join)
            <==> path == "/join"@ && method == Method::Post,
        first_match(channels_table(), path, method) == Some(ChannelsRoute::Leave)
            <==> path == "/leave"@ && method == Method::Post,
        first_match(channels_table(), path, method) == Some(ChannelsRoute::Delete)
            <==> path == "/delete"@ && method == Method::Post,
        first_match(channels_table(), path, method) == Some(ChannelsRoute::CheckName)
            <==> path == "/check_name"@ && method == Method::Get,
        first_match(channels_table(), path, method) is None <==> !(
            (path == "/query"@ && method == Method::Get)
            || (path == "/query_with_related"@ && method == Method::Get)
            || (path == "/by_space"@ && method == Method::Get)
            || (path == "/my"@ && method == Method::Get)
            || (path == "/create"@ && method == Method::Post)
            || (path == "/edit"@ && method == Method::Post)
            || (path == "/edit_member"@ && method == Method::Post)
            || (path == "/members"@ && method == Method::Get)
            || (path == "/join"@ && method == Method::Post)
            || (path == "/leave"@ && method == Method::Post)
            || (path == "/delete"@ && method == Method::Post)
            || (path == "/check_name"@ && method == Method::Get)
        ),
{
    reveal_strlit("/query");
    reveal_strlit("/query_with_related");
    reveal_strlit("/by_space");
    reveal_strlit("/my");
    reveal_strlit("/create");
    reveal_strlit("/edit");
    reveal_strlit("/edit_member");
    reveal_strlit("/members");
    reveal_strlit("/join");
    reveal_strlit("/leave");
    reveal_strlit("/delete");
    reveal_strlit("/check_name");
    assert("/query"@.len() != "/query_with_related"@.len());
    assert("/query"@.len() != "/by_space"@.len());
    assert("/query"@.len() != "/my"@.len());
    assert("/query"@.len() != "/create"@.len());
    assert("/query"@.len() != "/edit"@.len());
    assert("/query"@.len() != "/edit_member"@.len());
    assert("/query"@.len() != "/members"@.len());
    assert("/query"@.len() != "/join"@.len());
    assert("/query"@[1] != "/leave"@[1]);
    assert("/query"@.len() != "/delete"@.len());
    assert("/query"@.len() != "/check_name"@.len());
    assert("/query_with_related"@.len() != "/by_space"@.len());
    assert("/query_with_related"@.len() != "/my"@.len());
    assert("/query_with_related"@.len() != "/create"@.len());
    assert("/query_with_related"@.len() != "/edit"@.len());
    assert("/query_with_related"@.len() != "/edit_member"@.len());
    assert("/query_with_related"@.len() != "/members"@.len());
    assert("/query_with_related"@.len() != "/join"@.len());
    assert("/query_with_related"@.len() != "/leave"@.len());
    assert("/query_with_related"@.len() != "/delete"@.len());
    assert("/query_with_related"@.len() != "/check_name"@.len());
    assert("/by_space"@.len() != "/my"@.len());
    assert("/by_space"@.len() != "/create"@.len());
    assert("/by_space"@.len() != "/edit"@.len());
    assert("/by_space"@.len() != "/edit_member"@.len());
    assert("/by_space"@.len() != "/members"@.len());
    assert("/by_space"@.len() != "/join"@.len());
    assert("/by_space"@.len() != "/leave"@.len());
    assert("/by_space"@.len() != "/delete"@.len());
    assert("/by_space"@.len() != "/check_name"@.len());
    assert("/my"@.len() != "/create"@.len());
    assert("/my"@.len() != "/edit"@.len());
    assert("/my"@.len() != "/edit_member"@.len());
    assert("/my"@.len() != "/members"@.len());
    assert("/my"@.len() != "/join"@.len());
    assert("/my"@.len() != "/leave"@.len());
    assert("/my"@.len() != "/delete"@.len());
    assert("/my"@.len() != "/check_name"@.len());
    assert("/create"@.len() != "/edit"@.len());
    assert("/create"@.len() != "/edit_member"@.len());
    assert("/create"@.len() != "/members"@.len());
    assert("/create"@.len() != "/join"@.len());
    assert("/create"@.len() != "/leave"@.len());
    assert("/create"@[1] != "/delete"@[1]);
    assert("/create"@.len() != "/check_name"@.len());
    assert("/edit"@.len() != "/edit_member"@.len());
    assert("/edit"@.len() != "/members"@.len());
    assert("/edit"@[1] != "/join"@[1]);
    assert("/edit"@.len() != "/leave"@.len());
    assert("/edit"@.len() != "/delete"@.len());
    assert("/edit"@.len() != "/check_name"@.len());
    assert("/edit_member"@.len() != "/members"@.len());
    assert("/edit_member"@.len() != "/join"@.len());
    assert("/edit_member"@.len() != "/leave"@.len());
    assert("/edit_member"@.len() != "/delete"@.len());
    assert("/edit_member"@.len() != "/check_name"@.len());
    assert("/members"@.len() != "/join"@.len());
    assert("/members"@.len() != "/leave"@.len());
    assert("/members"@.len() != "/delete"@.len());
    assert("/members"@.len() != "/check_name"@.len());
    assert("/join"@.len() != "/leave"@.len());
    assert("/join"@.len() != "/delete"@.len());
    assert("/join"@.len() != "/check_name"@.len());
    assert("/leave"@.len() != "/delete"@.len());
    assert("/leave"@.len() != "/check_name"@.len());
    assert("/delete"@.len() != "/check_name"@.len());
    reveal_with_fuel(first_match, 13);
}

/// The handlers of the messages API.
#[derive(Clone, Copy, Debug, PartialEq, Eq, Structural)]
pub enum MessagesRoute {
    Query,
    ByChannel,
    Send,
    Edit,
    Swap,
    MoveTo,
    ToggleFold,
    Delete,
}

/// The routes of the messages API, in the order they are tried.
pub open spec fn messages_table() -> Seq<Route<MessagesRoute>> {
    seq![
        ("/query", Some(Method::Get), MessagesRoute::Query),
        ("/by_channel", Some(Method::Get), MessagesRoute::ByChannel),
        ("/send", Some(Method::Post), MessagesRoute::Send),
        ("/edit", Some(Method::Patch), MessagesRoute::Edit),
        ("/swap", Some(Method::Post), MessagesRoute::Swap),
        ("/move_to", Some(Method::Post), MessagesRoute::MoveTo),
        ("/toggle_fold", Some(Method::Post), MessagesRoute::ToggleFold),
        ("/delete", Some(Method::Post), MessagesRoute::Delete),
    ]
}

/// Builds the routes of the messages API.
pub fn messages_routes() -> (t: Vec<Route<MessagesRoute>>)
    ensures
        t@ == messages_table(),
{
    vec![
            ("/query", Some(Method::Get), MessagesRoute::Query),
            ("/by_channel", Some(Method::Get), MessagesRoute::ByChannel),
            ("/send", Some(Method::Post), MessagesRoute::Send),
            ("/edit", Some(Method::Patch), MessagesRoute::Edit),
            ("/swap", Some(Method::Post), MessagesRoute::Swap),
            ("/move_to", Some(Method::Post), MessagesRoute::MoveTo),
            ("/toggle_fold", Some(Method::Post), MessagesRoute::ToggleFold),
            ("/delete", Some(Method::Post), MessagesRoute::Delete),
    ]
}

/// The handler of a request to the messages API; a missing route is an error.
pub fn messages_router(path: &str, method: Method) -> (r: Result<MessagesRoute, AppError>)
    ensures
        match first_match(messages_table(), path@, method) {
            Some(h) => r == Ok::<MessagesRoute, AppError>(h),
            None => r == Err::<MessagesRoute, AppError>(AppError::missing_spec()),
        },
{
    match dispatch(&messages_routes(), path, method) {
        Some(h) => Ok(h),
        None => Err(AppError::missing()),
    }
}

/// Each handler of the messages API answers its own path and method: the queries
/// `GET`, an edit `PATCH /edit`, sending, swapping, moving, folding and deleting
/// `POST`; any other request reaches none.
pub proof fn lemma_messages_routes(path: Seq<char>, method: Method)
    ensures
        first_match(messages_table(), path, method) == Some(MessagesRoute::Query)
            <==> path == "/query"@ && method == Method::Get,
        first_match(messages_table(), path, method) == Some(MessagesRoute::ByChannel)
            <==> path == "/by_channel"@ && method == Method::Get,
        first_match(messages_table(), path, method) == Some(MessagesRoute::Send)
            <==> path == "/send"@ && method == Method::Post,
        first_match(messages_table(), path, method) == Some(MessagesRoute::Edit)
            <==> path == "/edit"@ && method == Method::Patch,
        first_match(messages_table(), path, method) == Some(MessagesRoute::Swap)
            <==> path == "/swap"@ && method == Method::Post,
        first_match(messages_table(), path, method) == Some(MessagesRoute::MoveTo)
            <==> path == "/move_to"@ && method == Method::Post,
        first_match(messages_table(), path, method) == Some(MessagesRoute::ToggleFold)
            <==> path == "/toggle_fold"@ && method == Method::Post,
        first_match(messages_table(), path, method) == Some(MessagesRoute::Delete)
            <==> path == "/delete"@ && method == Method::Post,
        first_match(messages_table(), path, method) is None <==> !(
            (path == "/query"@ && method == Method::Get)
            || (path == "/by_channel"@ && method == Method::Get)
            || (path == "/send"@ && method == Method::Post)
            || (path == "/edit"@ && method == Method::Patch)
            || (path == "/swap"@ && method == Method::Post)
            || (path == "/move_to"@ && method == Method::Post)
            || (path == "/toggle_fold"@ && method == Method::Post)
            || (path == "/delete"@ && method == Method::Post)
        ),
{
    reveal_strlit("/query");
    reveal_strlit("/by_channel");
    reveal_strlit("/send");
    reveal_strlit("/edit");
    reveal_strlit("/swap");
    reveal_strlit("/move_to");
    reveal_strlit("/toggle_fold");
    reveal_strlit("/delete");
    assert("/query"@.len() != "/by_channel"@.len());
    assert("/query"@.len() != "/send"@.len());
    assert("/query"@.len() != "/edit"@.len());
    assert("/query"@.len() != "/swap"@.len());
    assert("/query"@.len() != "/move_to"@.len());
    assert("/query"@.len() != "/toggle_fold"@.len());
    assert("/query"@.len() != "/delete"@.len());
    assert("/by_channel"@.len() != "/send"@.len());
    assert("/by_channel"@.len() != "/edit"@.len());
    assert("/by_channel"@.len() != "/swap"@.len());
    assert("/by_channel"@.len() != "/move_to"@.len());
    assert("/by_channel"@.len() != "/toggle_fold"@.len());
    assert("/by_channel"@.len() != "/delete"@.len());
    assert("/send"@[1] != "/edit"@[1]);
    assert("/send"@[2] != "/swap"@[2]);
    assert("/send"@.len() != "/move_to"@.len());
    assert("/send"@.len() != "/toggle_fold"@.len());
    assert("/send"@.len() != "/delete"@.len());
    assert("/edit"@[1] != "/swap"@[1]);
    assert("/edit"@.len() != "/move_to"@.len());
    assert("/edit"@.len() != "/toggle_fold"@.len());
    assert("/edit"@.len() != "/delete"@.len());
    assert("/swap"@.len() != "/move_to"@.len());
    assert("/swap"@.len() != "/toggle_fold"@.len());
    assert("/swap"@.len() != "/delete"@.len());
    assert("/move_to"@.len() != "/toggle_fold"@.len());
    assert("/move_to"@.len() != "/delete"@.len());
    assert("/toggle_fold"@.len() != "/delete"@.len());
    reveal_with_fuel(first_match, 9);
}

/// The handlers of the media API.
#[derive(Clone, Copy, Debug, PartialEq, Eq, Structural)]
pub enum MediaRoute {
    Get,
    Upload,
}

/// The routes of the media API, in the order they are tried.
pub open spec fn media_table() -> Seq<Route<MediaRoute>> {
    seq![
        ("/get", Some(Method::Get), MediaRoute::Get),
        ("/get", Some(Method::Head), MediaRoute::Get),
        ("/upload", Some(Method::Post), MediaRoute::Upload),
    ]
}

/// Builds the routes of the media API.
pub fn media_routes() -> (t: Vec<Route<MediaRoute>>)
    ensures
        t@ == media_table(),
{
    vec![
            ("/get", Some(Method::Get), MediaRoute::Get),
            ("/get", Some(Method::Head), MediaRoute::Get),
            ("/upload", Some(Method::Post), MediaRoute::Upload),
    ]
}

/// The handler of a request to the media API; a missing route is an error.
pub fn media_router(path: &str, method: Method) -> (r: Result<MediaRoute, AppError>)
    ensures
        match first_match(media_table(), path@, method) {
            Some(h) => r == Ok::<MediaRoute, AppError>(h),
            None => r == Err::<MediaRoute, AppError>(AppError::missing_spec()),
        },
{
    match dispatch(&media_routes(), path, method) {
        Some(h) => Ok(h),
        None => Err(AppError::missing()),
    }
}

/// A stored file is fetched by `GET` or `HEAD` on `/get`, and uploaded by `POST`
/// on `/upload`; any other request reaches no handler.
pub proof fn lemma_media_routes(path: Seq<char>, method: Method)
    ensures
        first_match(media_table(), path, method) == Some(MediaRoute::Get)
            <==> (path == "/get"@ && method == Method::Get) || (path == "/get"@ && method == Method::Head),
        first_match(media_table(), path, method) == Some(MediaRoute::Upload)
            <==> path == "/upload"@ && method == Method::Post,
        first_match(media_table(), path, method) is None <==> !(
            (path == "/get"@ && method == Method::Get)
            || (path == "/get"@ && method == Method::Head)
            || (path == "/upload"@ && method == Method::Post)
        ),
{
    reveal_strlit("/get");
    reveal_strlit("/upload");
    assert("/get"@.len() != "/upload"@.len());
    reveal_with_fuel(first_match, 4);
}

/// The handlers of the events API.
#[derive(Clone, Copy, Debug, PartialEq, Eq, Structural)]
pub enum EventsRoute {
    Connect,
}

/// The routes of the events API, in the order they are tried.
pub open spec fn events_table() -> Seq<Route<EventsRoute>> {
    seq![
        ("/connect", Some(Method::Get), EventsRoute::Connect),
    ]
}

/// Builds the routes of the events API.
pub fn events_routes() -> (t: Vec<Route<EventsRoute>>)
    ensures
        t@ == events_table(),
{
    vec![
            ("/connect", Some(Method::Get), EventsRoute::Connect),
    ]
}

/// The handler of a request to the events API; a missing route is an error.
pub fn events_router(path: &str, method: Method) -> (r: Result<EventsRoute, AppError>)
    ensures
        match first_match(events_table(), path@, method) {
            Some(h) => r == Ok::<EventsRoute, AppError>(h),
            None => r == Err::<EventsRoute, AppError>(AppError::missing_spec()),
        },
{
    match dispatch(&events_routes(), path, method) {
        Some(h) => Ok(h),
        None => Err(AppError::missing()),
    }
}

/// The event stream is opened by `GET /connect`; any other request reaches no
/// handler.
pub proof fn lemma_events_routes(path: Seq<char>, method: Method)
    ensures
        first_match(events_table(), path, method) == Some(EventsRoute::Connect)
            <==> path == "/connect"@ && method == Method::Get,
        first_match(events_table(), path, method) is None <==> !(
            (path == "/connect"@ && method == Method::Get)
        ),
{
    reveal_strlit("/connect");
    reveal_with_fuel(first_match, 2);
}

/// The part of the API that a request goes to.
#[derive(Clone, Copy, Debug, PartialEq, Eq, Structural)]
pub enum Section {
    CsrfToken,
    Messages,
    Users,
    Media,
    Channels,
    Spaces,
    Events,
    Missing,
}

/// The prefixes of the parts of the API, in the order they are tried.
pub open spec fn section_table() -> Seq<(&'static str, Section)> {
    seq![
        ("/api/messages", Section::Messages),
        ("/api/users", Section::Users),
        ("/api/media", Section::Media),
        ("/api/channels", Section::Channels),
        ("/api/spaces", Section::Spaces),
        ("/api/events", Section::Events),
    ]
}

/// Whether `p` is a prefix of `s`.
pub open spec fn is_prefix(p: Seq<char>, s: Seq<char>) -> bool {
    p.len() <= s.len() && s.subrange(0, p.len() as int) == p
}

/// Whether `s` begins with `p`.
pub fn starts_with(s: &str, p: &str) -> (b: bool)
    ensures
        b == is_prefix(p@, s@),
{
    let n = p.unicode_len();
    let m = s.unicode_len();
    if n > m {
        return false;
    }
    let mut i: usize = 0;
    while i < n
        invariant
            n == p@.len(),
            m == s@.len(),
            n <= m,
            i <= n,
            forall|j: int| 0 <= j < i ==> s@[j] == p@[j],
        decreases n - i,
    {
        if s.get_char(i) != p.get_char(i) {
            assert(s@.subrange(0, n as int)[i as int] != p@[i as int]);
            return false;
        }
        i = i + 1;
    }
    assert(s@.subrange(0, n as int) =~= p@);
    true
}

/// The part of the API of a path, with the rest of the path after its prefix.
pub open spec fn spec_section(path: Seq<char>) -> (Section, Seq<char>) {
    if path == "/api/csrf-token"@ {
        (Section::CsrfToken, Seq::empty())
    } else {
        first_section(section_table(), path)
    }
}

/// The section of the first prefix of `table` that `path` begins with.
pub open spec fn first_section(table: Seq<(&'static str, Section)>, path: Seq<char>) -> (Section, Seq<char>)
    decreases table.len(),
{
    if table.len() == 0 {
        (Section::Missing, Seq::empty())
    } else if is_prefix(table[0].0@, path) {
        (table[0].1, path.subrange(table[0].0@.len() as int, path.len() as int))
    } else {
        first_section(table.drop_first(), path)
    }
}

/// A path goes to the part of the API whose prefix it begins with, the rest of the
/// path going on to that part's router; `/api/csrf-token` is a part of its own, and
/// a path under none of the prefixes goes nowhere.
pub proof fn lemma_sections(path: Seq<char>)
    ensures
        path == "/api/csrf-token"@ ==> spec_section(path) == (Section::CsrfToken, Seq::<char>::empty()),
        path != "/api/csrf-token"@ && is_prefix("/api/messages"@, path)
            ==> spec_section(path) == (Section::Messages, path.subrange(13, path.len() as int)),
        path != "/api/csrf-token"@ && is_prefix("/api/users"@, path)
            ==> spec_section(path) == (Section::Users, path.subrange(10, path.len() as int)),
        path != "/api/csrf-token"@ && is_prefix("/api/media"@, path)
            ==> spec_section(path) == (Section::Media, path.subrange(10, path.len() as int)),
        path != "/api/csrf-token"@ && is_prefix("/api/channels"@, path)
            ==> spec_section(path) == (Section::Channels, path.subrange(13, path.len() as int)),
        path != "/api/csrf-token"@ && is_prefix("/api/spaces"@, path)
            ==> spec_section(path) == (Section::Spaces, path.subrange(11, path.len() as int)),
        path != "/api/csrf-token"@ && is_prefix("/api/events"@, path)
            ==> spec_section(path) == (Section::Events, path.subrange(11, path.len() as int)),
        path != "/api/csrf-token"@ && !(
            is_prefix("/api/messages"@, path)
            || is_prefix("/api/users"@, path)
            || is_prefix("/api/media"@, path)
            || is_prefix("/api/channels"@, path)
            || is_prefix("/api/spaces"@, path)
            || is_prefix("/api/events"@, path)
        ) ==> spec_section(path).0 == Section::Missing,
{
    reveal_strlit("/api/csrf-token");
    reveal_strlit("/api/messages");
    reveal_strlit("/api/users");
    reveal_strlit("/api/media");
    reveal_strlit("/api/channels");
    reveal_strlit("/api/spaces");
    reveal_strlit("/api/events");
    if is_prefix("/api/messages"@, path) && is_prefix("/api/users"@, path) {
        assert(path.subrange(0, 13)[5] == path[5]);
        assert(path.subrange(0, 10)[5] == path[5]);
        assert("/api/messages"@[5] != "/api/users"@[5]);
    }
    if is_prefix("/api/messages"@, path) && is_prefix("/api/media"@, path) {
        assert(path.subrange(0, 13)[7] == path[7]);
        assert(path.subrange(0, 10)[7] == path[7]);
        assert("/api/messages"@[7] != "/api/media"@[7]);
    }
    if is_prefix("/api/messages"@, path) && is_prefix("/api/channels"@, path) {
        assert(path.subrange(0, 13)[5] == path[5]);
        assert(path.subrange(0, 13)[5] == path[5]);
        assert("/api/messages"@[5] != "/api/channels"@[5]);
    }
    if is_prefix("/api/messages"@, path) && is_prefix("/api/spaces"@, path) {
        assert(path.subrange(0, 13)[5] == path[5]);
        assert(path.subrange(0, 11)[5] == path[5]);
        assert("/api/messages"@[5] != "/api/spaces"@[5]);
    }
    if is_prefix("/api/messages"@, path) && is_prefix("/api/events"@, path) {
        assert(path.subrange(0, 13)[5] == path[5]);
        assert(path.subrange(0, 11)[5] == path[5]);
        assert("/api/messages"@[5] != "/api/events"@[5]);
    }
    if is_prefix("/api/users"@, path) && is_prefix("/api/media"@, path) {
        assert(path.subrange(0, 10)[5] == path[5]);
        assert(path.subrange(0, 10)[5] == path[5]);
        assert("/api/users"@[5] != "/api/media"@[5]);
    }
    if is_prefix("/api/users"@, path) && is_prefix("/api/channels"@, path) {
        assert(path.subrange(0, 10)[5] == path[5]);
        assert(path.subrange(0, 13)[5] == path[5]);
        assert("/api/users"@[5] != "/api/channels"@[5]);
    }
    if is_prefix("/api/users"@, path) && is_prefix("/api/spaces"@, path) {
        assert(path.subrange(0, 10)[5] == path[5]);
        assert(path.subrange(0, 11)[5] == path[5]);
        assert("/api/users"@[5] != "/api/spaces"@[5]);
    }
    if is_prefix("/api/users"@, path) && is_prefix("/api/events"@, path) {
        assert(path.subrange(0, 10)[5] == path[5]);
        assert(path.subrange(0, 11)[5] == path[5]);
        assert("/api/users"@[5] != "/api/events"@[5]);
    }
    if is_prefix("/api/media"@, path) && is_prefix("/api/channels"@, path) {
        assert(path.subrange(0, 10)[5] == path[5]);
        assert(path.subrange(0, 13)[5] == path[5]);
        assert("/api/media"@[5] != "/api/channels"@[5]);
    }
    if is_prefix("/api/media"@, path) && is_prefix("/api/spaces"@, path) {
        assert(path.subrange(0, 10)[5] == path[5]);
        assert(path.subrange(0, 11)[5] == path[5]);
        assert("/api/media"@[5] != "/api/spaces"@[5]);
    }
    if is_prefix("/api/media"@, path) && is_prefix("/api/events"@, path) {
        assert(path.subrange(0, 10)[5] == path[5]);
        assert(path.subrange(0, 11)[5] == path[5]);
        assert("/api/media"@[5] != "/api/events"@[5]);
    }
    if is_prefix("/api/channels"@, path) && is_prefix("/api/spaces"@, path) {
        assert(path.subrange(0, 13)[5] == path[5]);
        assert(path.subrange(0, 11)[5] == path[5]);
        assert("/api/channels"@[5] != "/api/spaces"@[5]);
    }
    if is_prefix("/api/channels"@, path) && is_prefix("/api/events"@, path) {
        assert(path.subrange(0, 13)[5] == path[5]);
        assert(path.subrange(0, 11)[5] == path[5]);
        assert("/api/channels"@[5] != "/api/events"@[5]);
    }
    if is_prefix("/api/spaces"@, path) && is_prefix("/api/events"@, path) {
        assert(path.subrange(0, 11)[5] == path[5]);
        assert(path.subrange(0, 11)[5] == path[5]);
        assert("/api/spaces"@[5] != "/api/events"@[5]);
    }
    reveal_with_fuel(first_section, 7);
}

/// Finds the part of the API that a path goes to, and the rest of the path.
pub fn route(path: &str) -> (r: (Section, String))
    ensures
        r.0 == spec_section(path@).0,
        r.1@ == spec_section(path@).1,
{
    if String::from_str(path) == String::from_str("/api/csrf-token") {
        return (Section::CsrfToken, String::new());
    }
    let table: Vec<(&'static str, Section)> = vec![
        ("/api/messages", Section::Messages),
        ("/api/users", Section::Users),
        ("/api/media", Section::Media),
        ("/api/channels", Section::Channels),
        ("/api/spaces", Section::Spaces),
        ("/api/events", Section::Events),
    ];
    let ghost t = table@;
    assert(t == section_table());
    let mut i: usize = 0;
    assert(t.subrange(0, t.len() as int) =~= t);
    while i < table.len()
        invariant
            i <= t.len(),
            t == table@,
            t == section_table(),
            spec_section(path@) == first_section(t, path@),
            first_section(t, path@) == first_section(t.subrange(i as int, t.len() as int), path@),
        decreases t.len() - i,
    {
        let (prefix, section) = table[i];
        assert(t.subrange(i as int, t.len() as int)[0] == t[i as int]);
        if starts_with(path, prefix) {
            let rest = path.substring_char(prefix.unicode_len(), path.unicode_len());
            return (section, String::from_str(rest));
        }
        assert(t.subrange(i as int, t.len() as int).drop_first() =~= t.subrange(i + 1, t.len() as int));
        i = i + 1;
    }
    (Section::Missing, String::new())
}

} // verus!
