use beryllium::handlers::{call, reply_status, route, Outcome, Route};
use beryllium::utils::{
    bearer_token, check_auth_token, check_authorization, get_store_path, set_auth_token,
    set_store_path, Config,
};

fn configured() -> Config {
    let mut config = Config::new();
    set_auth_token(&mut config, String::from("0xdeadbeef"));
    set_store_path(&mut config, "/var/bots");
    config
}

#[test]
fn config_starts_with_current_directory_and_empty_token() {
    let config = Config::new();
    assert_eq!(get_store_path(&config), ".");
    assert!(check_auth_token(&config, ""));
    assert!(!check_auth_token(&config, "x"));
}

#[test]
fn config_setters_change_one_value_each() {
    let config = configured();
    assert_eq!(get_store_path(&config), "/var/bots");
    assert!(check_auth_token(&config, "0xdeadbeef"));
    assert!(!check_auth_token(&config, "0xdeadbee"));
    assert!(!check_auth_token(&config, "0xdeadbeef "));
}

#[test]
fn bearer_token_is_what_follows_the_scheme() {
    assert_eq!(bearer_token("Bearer abc"), Some("abc"));
    assert_eq!(bearer_token("Bearer "), None);
    assert_eq!(bearer_token("Bearer  "), Some(" "));
    assert_eq!(bearer_token("Bearer"), None);
    assert_eq!(bearer_token("bearer abc"), None);
    assert_eq!(bearer_token("Basic abcdef"), None);
    assert_eq!(bearer_token(""), None);
    assert_eq!(bearer_token("Bearer \u{e9}t\u{e9}"), Some("\u{e9}t\u{e9}"));
}

#[test]
fn nobody_passes_while_no_token_is_configured() {
    let config = Config::new();
    assert!(!check_authorization(&config, Some("Bearer ")));
    assert!(!check_authorization(&config, Some("Bearer x")));
    assert!(!check_authorization(&config, Some("")));
    assert!(!check_authorization(&config, None));
}

#[test]
fn authorization_needs_the_configured_token() {
    let config = configured();
    assert!(check_authorization(&config, Some("Bearer 0xdeadbeef")));
    assert!(!check_authorization(&config, Some("Bearer wrong")));
    assert!(!check_authorization(&config, Some("0xdeadbeef")));
    assert!(!check_authorization(&config, None));
}

#[test]
fn creation_request_passes_and_is_answered_with_201() {
    let config = configured();
    let to = call(&config, true, Some("Bearer 0xdeadbeef"), "/bots").unwrap();
    assert_eq!(to, Route::CreateBot);
    assert_eq!(reply_status(&to, Outcome::Handled), 201);
}

#[test]
fn wrong_bearer_is_refused_with_401() {
    let config = configured();
    assert_eq!(call(&config, true, Some("Bearer wrong"), "/bots"), Err(401));
    assert_eq!(call(&config, true, None, "/bots"), Err(401));
}

#[test]
fn get_is_refused_with_405() {
    let config = configured();
    assert_eq!(call(&config, false, Some("Bearer 0xdeadbeef"), "/bots"), Err(405));
}

#[test]
fn method_is_tested_before_the_token() {
    let config = configured();
    assert_eq!(call(&config, false, Some("Bearer wrong"), "/bots"), Err(405));
    assert_eq!(call(&config, false, None, "/nowhere"), Err(405));
}

#[test]
fn unknown_path_is_answered_with_404() {
    let config = configured();
    let to = call(&config, true, Some("Bearer 0xdeadbeef"), "/unknown").unwrap();
    assert_eq!(to, Route::Unknown);
    assert_eq!(reply_status(&to, Outcome::Handled), 404);
}

#[test]
fn unreadable_body_is_answered_with_400_on_every_route() {
    assert_eq!(reply_status(&Route::CreateBot, Outcome::Unparsed), 400);
    assert_eq!(reply_status(&Route::BotMessages(String::from("x")), Outcome::Unparsed), 400);
    assert_eq!(reply_status(&Route::Unknown, Outcome::Unparsed), 400);
}

#[test]
fn failed_handler_is_answered_with_500_on_every_route() {
    assert_eq!(reply_status(&Route::CreateBot, Outcome::Failed), 500);
    assert_eq!(reply_status(&Route::BotMessages(String::from("x")), Outcome::Failed), 500);
    assert_eq!(reply_status(&Route::Unknown, Outcome::Failed), 500);
}

#[test]
fn event_is_answered_with_200() {
    assert_eq!(reply_status(&Route::BotMessages(String::from("x")), Outcome::Handled), 200);
}

#[test]
fn route_of_bots() {
    assert_eq!(route("/bots"), Route::CreateBot);
    assert_eq!(route("bots"), Route::CreateBot);
    assert_eq!(route("//bots///"), Route::CreateBot);
}

#[test]
fn route_of_messages() {
    assert_eq!(
        route("/bots/550e8400-e29b-41d4-a716-446655440000/messages"),
        Route::BotMessages(String::from("550e8400-e29b-41d4-a716-446655440000"))
    );
    assert_eq!(route("/bots/a/messages/"), Route::BotMessages(String::from("a")));
    assert_eq!(route("bots//messages"), Route::BotMessages(String::new()));
    assert_eq!(route("/bots/\u{fc}/messages"), Route::BotMessages(String::from("\u{fc}")));
}

#[test]
fn route_of_anything_else() {
    assert_eq!(route(""), Route::Unknown);
    assert_eq!(route("/"), Route::Unknown);
    assert_eq!(route("////"), Route::Unknown);
    assert_eq!(route("/bot"), Route::Unknown);
    assert_eq!(route("/botsx"), Route::Unknown);
    assert_eq!(route("/bots/a"), Route::Unknown);
    assert_eq!(route("/bots/a/b/messages"), Route::Unknown);
    assert_eq!(route("/bots/a/messages/b"), Route::Unknown);
    assert_eq!(route("/bots/a/message"), Route::Unknown);
    assert_eq!(route("/Bots/a/messages"), Route::Unknown);
    assert_eq!(route("/x/bots"), Route::Unknown);
    assert_eq!(route("/bots/messages"), Route::Unknown);
}
