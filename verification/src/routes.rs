//! The route table: which page a path leads to, and what the page of a single
//! user shows.

use crate::counter::{after_clicks, clicks_are_counted, Counter};
use crate::params::params_entries;
use crate::text::{after_prefix, has_char, same_text};
use leptos_router::ParamsMap;
use vstd::prelude::*;

verus! {

/// The path of the home page.
pub const HOME_PATH: &'static str = "/";

/// The path of the tutorial page.
pub const TUTORIAL_PATH: &'static str = "/raw-tutorial";

/// The path of the users page.
pub const USERS_PATH: &'static str = "/users";

/// What the path of a single user begins with; the identifier follows.
pub const USER_PREFIX: &'static str = "/users/";

/// The name of the route parameter that holds a user's identifier.
pub const USER_PARAM: &'static str = "id";

/// The label shown for an identifier that belongs to none of the users.
pub const NOT_FOUND_LABEL: &'static str = "User not found.";

/// The count at which the home page sends the visitor on to the tutorial.
pub const REDIRECT_AT: u32 = 10;

/// What the users page shows below its heading.
#[derive(Clone, Copy, Debug, PartialEq, Eq, Structural)]
pub enum UsersView {
    /// The greeting shown where the path names no user.
    Index,
    /// The page of the user that the path names.
    Single,
}

/// The page that a path leads to.
#[derive(Clone, Copy, Debug, PartialEq, Eq, Structural)]
pub enum Page {
    Home,
    Tutorial,
    Users(UsersView),
    /// No route matches the path: nothing is shown.
    NoMatch,
}

/// A matched route: the page, and the parameters taken from the path.
#[derive(Debug, PartialEq, Eq)]
pub struct RouteMatch {
    pub page: Page,
    pub params: ParamsMap,
}

/// Whether `path` is the path of a single user: the prefix, then one segment.
pub open spec fn is_user_path(path: Seq<char>) -> bool {
    USER_PREFIX@.is_prefix_of(path) && !path.skip(USER_PREFIX@.len() as int).contains('/')
}

/// The page that `path` leads to.
pub open spec fn page_of(path: Seq<char>) -> Page {
    if path == HOME_PATH@ {
        Page::Home
    } else if path == TUTORIAL_PATH@ {
        Page::Tutorial
    } else if path == USERS_PATH@ {
        Page::Users(UsersView::Index)
    } else if is_user_path(path) {
        Page::Users(UsersView::Single)
    } else {
        Page::NoMatch
    }
}

/// The parameters that the route of `path` takes from it: the identifier of
/// the user on a user's page, none on any other.
pub open spec fn params_of(path: Seq<char>) -> Map<Seq<char>, Seq<char>> {
    if page_of(path) == Page::Users(UsersView::Single) {
        Map::empty().insert(USER_PARAM@, path.skip(USER_PREFIX@.len() as int))
    } else {
        Map::empty()
    }
}

/// The identifier among the parameters; empty where there is none.
pub open spec fn user_id_of(entries: Map<Seq<char>, Seq<char>>) -> Seq<char> {
    if entries.contains_key(USER_PARAM@) {
        entries[USER_PARAM@]
    } else {
        Seq::empty()
    }
}

/// The display name of the user with identifier `id`.
pub open spec fn display_name_of(id: Seq<char>) -> Seq<char> {
    if id == "titusmoore"@ {
        "Titus"@
    } else if id == "bob"@ {
        "Bob"@
    } else if id == "steve"@ {
        "Steve"@
    } else {
        NOT_FOUND_LABEL@
    }
}

/// Matches `path` against the route table.
pub fn resolve(path: &str) -> (found: RouteMatch)
    ensures
        found.page == page_of(path@),
        params_entries(found.params) == params_of(path@),
{
    let mut params = ParamsMap::new();
    let page = if same_text(path, HOME_PATH) {
        Page::Home
    } else if same_text(path, TUTORIAL_PATH) {
        Page::Tutorial
    } else if same_text(path, USERS_PATH) {
        Page::Users(UsersView::Index)
    } else {
        match after_prefix(path, USER_PREFIX) {
            Some(id) => {
                if has_char(id, '/') {
                    Page::NoMatch
                } else {
                    let _ = params.insert(USER_PARAM.to_owned(), id.to_owned());
                    Page::Users(UsersView::Single)
                }
            },
            None => Page::NoMatch,
        }
    };
    RouteMatch { page, params }
}

/// The identifier of the user among the route parameters, looked up by name;
/// empty where the route has no such parameter.
pub fn user_id(params: &ParamsMap) -> (id: String)
    ensures
        id@ == user_id_of(params_entries(*params)),
{
    match params.get(USER_PARAM) {
        Some(id) => id.clone(),
        None => String::new(),
    }
}

/// The display name of the user with identifier `id`, or the not-found label.
pub fn display_name(id: &str) -> (name: &'static str)
    ensures
        name@ == display_name_of(id@),
{
    if same_text(id, "titusmoore") {
        "Titus"
    } else if same_text(id, "bob") {
        "Bob"
    } else if same_text(id, "steve") {
        "Steve"
    } else {
        NOT_FOUND_LABEL
    }
}

/// What the page of a single user shows for the route parameters it is given.
pub fn user_label(params: &ParamsMap) -> (name: &'static str)
    ensures
        name@ == display_name_of(user_id_of(params_entries(*params))),
{
    let id = user_id(params);
    display_name(id.as_str())
}

/// Where the home page sends the visitor while its counter shows `count`:
/// to the tutorial when the count is the threshold, nowhere otherwise.
pub fn redirect_target(count: &Counter) -> (target: Option<&'static str>)
    ensures
        match target {
            Some(path) => count@ == REDIRECT_AT && path@ == TUTORIAL_PATH@,
            None => count@ != REDIRECT_AT,
        },
{
    if count.value() == REDIRECT_AT {
        Some(TUTORIAL_PATH)
    } else {
        None
    }
}

/// A path made of the users prefix and an identifier of one segment leads to
/// the page of a single user, whose parameters hold that identifier. The page
/// shows the fixed name of each of the three users, and the not-found label
/// for every other identifier.
pub proof fn user_paths_show_their_label(id: Seq<char>)
    requires
        !id.contains('/'),
    ensures
        page_of(USER_PREFIX@ + id) == Page::Users(UsersView::Single),
        user_id_of(params_of(USER_PREFIX@ + id)) == id,
        display_name_of("titusmoore"@) == "Titus"@,
        display_name_of("bob"@) == "Bob"@,
        display_name_of("steve"@) == "Steve"@,
        id != "titusmoore"@ && id != "bob"@ && id != "steve"@ ==> display_name_of(id)
            == NOT_FOUND_LABEL@,
{
    reveal_strlit("/");
    reveal_strlit("/raw-tutorial");
    reveal_strlit("/users");
    reveal_strlit("/users/");
    reveal_strlit("titusmoore");
    reveal_strlit("bob");
    reveal_strlit("steve");
    let path = USER_PREFIX@ + id;
    assert(path.len() >= 7 && path[6] == '/');
    assert("titusmoore"@.len() == 10 && "bob"@.len() == 3 && "steve"@.len() == 5);
}

/// The home page, whose counter starts at zero, redirects after the tenth
/// click and after no other, and the path it redirects to is the tutorial's.
pub proof fn home_redirects_after_ten_clicks(clicks: nat)
    ensures
        after_clicks(0, clicks) == REDIRECT_AT <==> clicks == REDIRECT_AT,
        page_of(TUTORIAL_PATH@) == Page::Tutorial,
{
    clicks_are_counted(0, clicks);
    reveal_strlit("/");
    reveal_strlit("/raw-tutorial");
    assert(HOME_PATH@.len() == 1 && TUTORIAL_PATH@.len() == 13);
}

} // verus!
