//! The prompt-driven menus, their captions and parsing, the records their
//! branches submit, and what the screens show.

use ycchat_tui::account_action::AccountAction;
use ycchat_tui::app_state::AppState;
use ycchat_tui::app_state::UserState;
use ycchat_tui::credential::Credential;
use ycchat_tui::model::User;
use ycchat_tui::model::user_resource_name;
use ycchat_tui::render::after_sign_in_labels;
use ycchat_tui::render::app_title;
use ycchat_tui::render::greeting_name;
use ycchat_tui::render::masked;
use ycchat_tui::render::welcome_labels;
use ycchat_tui::server_action::build_server_record;
use ycchat_tui::server_action::ServerAction;
use ycchat_tui::sign_action::ActionResult;
use ycchat_tui::sign_action::SignAction;
use ycchat_tui::user_action::build_user_record;
use ycchat_tui::user_action::UserAction;

#[test]
fn sign_action_menu_order_and_captions() {
    let all = SignAction::all_actions();
    assert_eq!(all, vec![SignAction::SignUp, SignAction::SignIn, SignAction::Exit]);
    let labels: Vec<String> = all.iter().map(|a| a.label()).collect();
    assert_eq!(labels, vec!["SignUp", "SignIn", "Exit"]);
}

#[test]
fn sign_action_concludes_per_selection() {
    let r = ActionResult::conclude(
        SignAction::SignIn,
        None,
        Some(Credential::new("u1".to_string(), "tok".to_string())),
    );
    match r {
        ActionResult::SignIn(c) => assert_eq!(c.access_token, "tok"),
        _ => panic!("expected a sign-in conclusion"),
    }
    assert!(matches!(ActionResult::conclude(SignAction::Exit, None, None), ActionResult::Exit));
}

#[test]
fn user_action_menu_order_and_captions() {
    let all = UserAction::all_actions();
    assert_eq!(
        all,
        vec![
            UserAction::Get,
            UserAction::Create,
            UserAction::Update,
            UserAction::Delete,
            UserAction::Exit,
        ]
    );
    let labels: Vec<String> = all.iter().map(|a| a.label()).collect();
    assert_eq!(labels, vec!["get", "create", "update", "delete", "exit"]);
}

#[test]
fn user_action_parses_case_insensitively() {
    assert_eq!(UserAction::from_str("get"), Ok(UserAction::Get));
    assert_eq!(UserAction::from_str("GeT"), Ok(UserAction::Get));
    assert_eq!(UserAction::from_str("CREATE"), Ok(UserAction::Create));
    assert_eq!(UserAction::from_str("Update"), Ok(UserAction::Update));
    assert_eq!(UserAction::from_str("dElEtE"), Ok(UserAction::Delete));
    assert_eq!(UserAction::from_str("exit"), Ok(UserAction::Exit));
}

#[test]
fn user_action_rejects_unknown_words() {
    assert_eq!(UserAction::from_str(""), Err(()));
    assert_eq!(UserAction::from_str("gets"), Err(()));
    assert_eq!(UserAction::from_str(" get"), Err(()));
    assert_eq!(UserAction::from_str("remove"), Err(()));
}

#[test]
fn user_record_builder_fills_every_field() {
    let u = build_user_record(
        "u1",
        "Alice".to_string(),
        "hi".to_string(),
        "KR".to_string(),
        "ko-KR".to_string(),
        "Asia/Seoul".to_string(),
    );
    assert_eq!(u.name, "user/u1");
    assert_eq!(u.display_name, "Alice");
    assert_eq!(u.description, "hi");
    assert!(u.avatar.is_none());
    assert_eq!(u.region_code.as_deref(), Some("KR"));
    assert_eq!(u.language_code.as_deref(), Some("ko-KR"));
    assert_eq!(u.time_zone.as_deref(), Some("Asia/Seoul"));
    assert!(u.create_time.is_none());
    assert!(u.update_time.is_none());
}

#[test]
fn user_resource_name_prefixes_collection() {
    assert_eq!(user_resource_name("01ABC"), "user/01ABC");
    assert_eq!(user_resource_name(""), "user/");
}

#[test]
fn server_action_menu_order_and_captions() {
    let all = ServerAction::all_actions();
    assert_eq!(all, vec![ServerAction::List, ServerAction::Create, ServerAction::Exit]);
    let labels: Vec<String> = all.iter().map(|a| a.label()).collect();
    assert_eq!(labels, vec!["List", "Create", "Exit"]);
}

#[test]
fn server_record_starts_empty_but_for_the_prompted_fields() {
    let s = build_server_record("My server".to_string(), "about it".to_string());
    assert_eq!(s.name, "");
    assert_eq!(s.display_name, "My server");
    assert_eq!(s.description, "about it");
    assert!(s.icon.is_none());
    assert!(s.categories.is_empty());
    assert!(s.channels.is_empty());
    assert!(s.create_time.is_none());
    assert!(s.update_time.is_none());
}

#[test]
fn account_action_menu_order_and_exit() {
    let all = AccountAction::all_actions();
    assert_eq!(
        all,
        vec![AccountAction::UpdatePassword, AccountAction::DeleteAccount, AccountAction::Exit]
    );
    let labels: Vec<String> = all.iter().map(|a| a.label()).collect();
    assert_eq!(labels, vec!["UpdatePassword", "DeleteAccount", "Exit"]);
    assert!(AccountAction::Exit.ends_loop());
    assert!(!AccountAction::UpdatePassword.ends_loop());
    assert!(!AccountAction::DeleteAccount.ends_loop());
}

#[test]
fn server_action_exit_ends_its_loop() {
    assert!(ServerAction::Exit.ends_loop());
    assert!(!ServerAction::List.ends_loop());
    assert!(!ServerAction::Create.ends_loop());
}

#[test]
fn password_mask_shows_one_bullet_per_character() {
    assert_eq!(masked("secret"), "\u{2022}".repeat(6));
    assert_eq!(masked(""), "");
    assert_eq!(masked("caf\u{e9}"), "\u{2022}".repeat(4));
}

fn a_user(display_name: &str) -> User {
    build_user_record(
        "u1",
        display_name.to_string(),
        String::new(),
        "1".to_string(),
        "ko-KR".to_string(),
        "Asia/Seoul".to_string(),
    )
}

#[test]
fn greeting_prefers_resolved_display_name() {
    let cred = Credential::new("u1".to_string(), "tok".to_string());
    let mut state = AppState::new();
    assert_eq!(greeting_name(&state), "unknown");
    state.user = Some(UserState::new("alice".to_string(), None, cred.clone()));
    assert_eq!(greeting_name(&state), "alice");
    state.user = Some(UserState::new("alice".to_string(), Some(a_user("Alice A.")), cred));
    assert_eq!(greeting_name(&state), "Alice A.");
}

#[test]
fn menu_labels_and_title() {
    assert_eq!(app_title(), "YcChat");
    assert_eq!(welcome_labels(), vec!["Sign In", "Sign Up", "Exit"]);
    assert_eq!(after_sign_in_labels(), vec!["Chat", "Profile", "Sign out"]);
}
