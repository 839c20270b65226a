use leptos_router::ParamsMap;
use widget_state::counter::Counter;
use widget_state::routes::{
    display_name, redirect_target, resolve, user_id, user_label, Page, UsersView, HOME_PATH,
    NOT_FOUND_LABEL, REDIRECT_AT, TUTORIAL_PATH, USERS_PATH, USER_PARAM, USER_PREFIX,
};

fn with_id(id: &str) -> ParamsMap {
    let mut params = ParamsMap::new();
    params.insert("id".to_string(), id.to_string());
    params
}

#[test]
fn route_constants() {
    assert_eq!(HOME_PATH, "/");
    assert_eq!(TUTORIAL_PATH, "/raw-tutorial");
    assert_eq!(USERS_PATH, "/users");
    assert_eq!(USER_PREFIX, "/users/");
    assert_eq!(USER_PARAM, "id");
    assert_eq!(NOT_FOUND_LABEL, "User not found.");
    assert_eq!(REDIRECT_AT, 10);
}

#[test]
fn exact_paths_lead_to_their_pages() {
    assert_eq!(resolve("/").page, Page::Home);
    assert_eq!(resolve("/raw-tutorial").page, Page::Tutorial);
    assert_eq!(resolve("/users").page, Page::Users(UsersView::Index));
    assert_eq!(resolve("/").params, ParamsMap::new());
    assert_eq!(resolve("/raw-tutorial").params, ParamsMap::new());
    assert_eq!(resolve("/users").params, ParamsMap::new());
}

#[test]
fn user_path_yields_the_identifier_as_parameter() {
    let found = resolve("/users/bob");
    assert_eq!(found.page, Page::Users(UsersView::Single));
    assert_eq!(found.params.get("id"), Some(&"bob".to_string()));
    assert_eq!(found.params, with_id("bob"));
    assert_eq!(user_id(&found.params), "bob");
    assert_eq!(user_label(&found.params), "Bob");
}

#[test]
fn recognized_identifiers_show_their_fixed_names() {
    assert_eq!(user_label(&resolve("/users/titusmoore").params), "Titus");
    assert_eq!(user_label(&resolve("/users/bob").params), "Bob");
    assert_eq!(user_label(&resolve("/users/steve").params), "Steve");
    assert_eq!(display_name("titusmoore"), "Titus");
    assert_eq!(display_name("bob"), "Bob");
    assert_eq!(display_name("steve"), "Steve");
}

#[test]
fn unrecognized_identifier_shows_the_not_found_label() {
    for id in ["alice", "Bob", "bob ", "titus", "steves", "", "42", "b\u{f6}b"] {
        let path = format!("/users/{id}");
        let found = resolve(&path);
        assert_eq!(found.page, Page::Users(UsersView::Single), "path {path:?}");
        assert_eq!(user_id(&found.params), id);
        assert_eq!(user_label(&found.params), "User not found.");
        assert_eq!(display_name(id), "User not found.");
    }
}

#[test]
fn other_paths_match_no_route() {
    for path in [
        "", "/nowhere", "/raw", "/raw-tutorial/", "/raw-tutorial/x", "/Users", "/users/a/b",
        "/users/bob/", "users", "users/bob", "//", "/userss", "/home",
    ] {
        let found = resolve(path);
        assert_eq!(found.page, Page::NoMatch, "path {path:?}");
        assert_eq!(found.params, ParamsMap::new(), "path {path:?}");
    }
}

#[test]
fn missing_identifier_is_empty() {
    let params = ParamsMap::new();
    assert_eq!(user_id(&params), "");
    assert_eq!(user_label(&params), "User not found.");
    assert_eq!(display_name(""), "User not found.");
}

#[test]
fn identifier_is_looked_up_by_name() {
    let mut params = ParamsMap::new();
    params.insert("name".to_string(), "bob".to_string());
    assert_eq!(user_id(&params), "");
    params.insert("id".to_string(), "steve".to_string());
    assert_eq!(user_id(&params), "steve");
    assert_eq!(user_label(&params), "Steve");
    params.insert("id".to_string(), "bob".to_string());
    assert_eq!(user_id(&params), "bob");
    assert_eq!(user_label(&params), "Bob");
}

#[test]
fn home_redirects_to_the_tutorial_at_ten() {
    let mut count = Counter::new();
    for clicks in 0..25u32 {
        let target = redirect_target(&count);
        if clicks == 10 {
            assert_eq!(target, Some("/raw-tutorial"));
        } else {
            assert_eq!(target, None);
        }
        count.increment();
    }
    let target = redirect_target(&Counter::starting_at(10)).unwrap();
    assert_eq!(resolve(target).page, Page::Tutorial);
}
