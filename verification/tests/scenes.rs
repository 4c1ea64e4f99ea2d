//! The screen state machine: the transition table's rows, the scenario
//! walks through them, and the profile submission keyed on the cache.

use ycchat_tui::app_state::UserState;
use ycchat_tui::controller::loop_continues;
use ycchat_tui::controller::App;
use ycchat_tui::controller::Command;
use ycchat_tui::controller::ProfileCall;
use ycchat_tui::controller::ProfileOutcome;
use ycchat_tui::controller::Screen;
use ycchat_tui::controller::SignInOutcome;
use ycchat_tui::credential::Credential;
use ycchat_tui::event::InputEvent;
use ycchat_tui::model::User;
use ycchat_tui::scene::Scene;
use ycchat_tui::session::Session;

fn cred(user_id: &str, token: &str) -> Credential {
    Credential::new(user_id.to_string(), token.to_string())
}

fn type_str(app: &mut App, session: &Session, text: &str) {
    for c in text.chars() {
        let cmd = app.handle_event(InputEvent::Char(c), session);
        assert!(matches!(cmd, Command::Idle));
    }
}

fn scene_of(app: &App) -> Scene {
    app.screen.current_scene()
}

#[test]
fn starts_on_welcome_signed_out() {
    let app = App::new();
    assert_eq!(scene_of(&app), Scene::Main);
    assert!(app.state.user.is_none());
}

#[test]
fn welcome_enter_on_first_entry_opens_sign_in() {
    // Welcome -> select index 0 -> Enter => SignIn
    let session = Session::new();
    let mut app = App::new();
    let cmd = app.handle_event(InputEvent::Enter, &session);
    assert!(matches!(cmd, Command::Idle));
    assert_eq!(scene_of(&app), Scene::SignIn);
}

#[test]
fn welcome_enter_on_second_entry_opens_sign_up() {
    let session = Session::new();
    let mut app = App::new();
    app.handle_event(InputEvent::Down, &session);
    app.handle_event(InputEvent::Enter, &session);
    assert_eq!(scene_of(&app), Scene::SignUp);
}

#[test]
fn welcome_enter_on_third_entry_quits() {
    let session = Session::new();
    let mut app = App::new();
    app.handle_event(InputEvent::Down, &session);
    app.handle_event(InputEvent::Down, &session);
    app.handle_event(InputEvent::Enter, &session);
    assert_eq!(scene_of(&app), Scene::Quit);
}

#[test]
fn welcome_escape_quits_and_quit_is_terminal() {
    // Welcome -> Escape => Quit; the loop's exit condition holds from then on
    let session = Session::new();
    let mut app = App::new();
    app.handle_event(InputEvent::Esc, &session);
    assert_eq!(scene_of(&app), Scene::Quit);
    assert!(!loop_continues(Scene::Quit));
    assert!(loop_continues(Scene::Main));
    assert!(loop_continues(Scene::SignIn));
    for e in [InputEvent::Enter, InputEvent::Esc, InputEvent::Up, InputEvent::Char('q')] {
        let cmd = app.handle_event(e, &session);
        assert!(matches!(cmd, Command::Idle));
        assert_eq!(scene_of(&app), Scene::Quit);
    }
}

#[test]
fn welcome_selection_stays_in_bounds() {
    let session = Session::new();
    let mut app = App::new();
    app.handle_event(InputEvent::Up, &session);
    match &app.screen {
        Screen::Welcome(w) => assert_eq!(w.selected_index, 0),
        _ => panic!("expected the welcome menu"),
    }
    for _ in 0..5 {
        app.handle_event(InputEvent::Down, &session);
    }
    match &app.screen {
        Screen::Welcome(w) => assert_eq!(w.selected_index, 2),
        _ => panic!("expected the welcome menu"),
    }
}

#[test]
fn sign_in_escape_discards_to_welcome() {
    let session = Session::new();
    let mut app = App::new();
    app.handle_event(InputEvent::Enter, &session);
    type_str(&mut app, &session, "someone");
    app.handle_event(InputEvent::Esc, &session);
    assert_eq!(scene_of(&app), Scene::Main);
    // re-entry finds a fresh form
    app.handle_event(InputEvent::Enter, &session);
    match &app.screen {
        Screen::SignIn(s) => assert_eq!(s.input_username, ""),
        _ => panic!("expected the sign-in form"),
    }
}

#[test]
fn sign_in_tab_cycles_focus_and_typing_follows_it() {
    let session = Session::new();
    let mut app = App::new();
    app.handle_event(InputEvent::Enter, &session);
    type_str(&mut app, &session, "user");
    app.handle_event(InputEvent::Tab, &session);
    assert_eq!(scene_of(&app), Scene::SignIn);
    type_str(&mut app, &session, "pw");
    app.handle_event(InputEvent::Backspace, &session);
    match &app.screen {
        Screen::SignIn(s) => {
            assert_eq!(s.input_username, "user");
            assert_eq!(s.input_password, "p");
        },
        _ => panic!("expected the sign-in form"),
    }
}

#[test]
fn sign_in_enter_submits_trimmed_fields() {
    let session = Session::new();
    let mut app = App::new();
    app.handle_event(InputEvent::Enter, &session);
    type_str(&mut app, &session, "  alice ");
    app.handle_event(InputEvent::Tab, &session);
    type_str(&mut app, &session, " secret  ");
    let cmd = app.handle_event(InputEvent::Enter, &session);
    match cmd {
        Command::SignIn(call) => {
            assert_eq!(call.username, "alice");
            assert_eq!(call.password, "secret");
        },
        _ => panic!("expected a sign-in call"),
    }
    // the scene holds until the outcome is applied
    assert_eq!(scene_of(&app), Scene::SignIn);
}

#[test]
fn sign_in_failure_keeps_scene_error_and_empty_session() {
    // SignIn with empty fields -> Enter => call fails => scene stays,
    // error set, session still empty
    let session = Session::new();
    let mut app = App::new();
    app.handle_event(InputEvent::Enter, &session);
    let cmd = app.handle_event(InputEvent::Enter, &session);
    match cmd {
        Command::SignIn(call) => {
            assert_eq!(call.username, "");
            assert_eq!(call.password, "");
        },
        _ => panic!("expected a sign-in call"),
    }
    app.apply_sign_in_outcome(
        SignInOutcome::Failure { message: "invalid credentials".to_string() },
        &session,
    );
    assert_eq!(scene_of(&app), Scene::SignIn);
    match &app.screen {
        Screen::SignIn(s) => {
            assert_eq!(s.error_message.as_deref(), Some("invalid credentials"))
        },
        _ => panic!("expected the sign-in form"),
    }
    assert!(app.state.user.is_none());
    assert_eq!(session.get().access_token, "");
}

#[test]
fn sign_in_success_establishes_session_and_cache() {
    // SignIn with valid credentials -> Enter => AfterSignIn, session holds
    // exactly one credential, the cache is populated
    let session = Session::new();
    let mut app = App::new();
    app.handle_event(InputEvent::Enter, &session);
    type_str(&mut app, &session, "alice");
    app.handle_event(InputEvent::Tab, &session);
    type_str(&mut app, &session, "secret");
    app.handle_event(InputEvent::Enter, &session);
    app.apply_sign_in_outcome(
        SignInOutcome::Success { response: cred("u1", "tok-1"), user: None },
        &session,
    );
    assert_eq!(scene_of(&app), Scene::AfterSignIn);
    let got = session.get();
    assert_eq!(got.user_id, "u1");
    assert_eq!(got.access_token, "tok-1");
    let us = app.state.user.as_ref().expect("cache populated");
    assert_eq!(us.username, "alice");
    assert!(us.user.is_none());
    assert_eq!(us.sign_in_response.access_token, "tok-1");
}

fn signed_in_app(session: &Session, resolved: Option<User>) -> App {
    let mut app = App::new();
    app.handle_event(InputEvent::Enter, session);
    type_str(&mut app, session, "alice");
    app.handle_event(InputEvent::Tab, session);
    type_str(&mut app, session, "secret");
    app.handle_event(InputEvent::Enter, session);
    app.apply_sign_in_outcome(
        SignInOutcome::Success { response: cred("u1", "tok-1"), user: resolved },
        session,
    );
    app
}

#[test]
fn after_sign_in_chat_entry_is_a_no_op() {
    let session = Session::new();
    let mut app = signed_in_app(&session, None);
    let cmd = app.handle_event(InputEvent::Enter, &session);
    assert!(matches!(cmd, Command::Idle));
    assert_eq!(scene_of(&app), Scene::AfterSignIn);
    assert!(app.state.user.is_some());
}

#[test]
fn after_sign_in_profile_entry_opens_profile() {
    let session = Session::new();
    let mut app = signed_in_app(&session, None);
    app.handle_event(InputEvent::Down, &session);
    app.handle_event(InputEvent::Enter, &session);
    assert_eq!(scene_of(&app), Scene::Profile);
}

#[test]
fn sign_out_clears_session_and_cache() {
    // AfterSignIn -> select "Sign out" => session and cache cleared, Welcome
    let session = Session::new();
    let mut app = signed_in_app(&session, None);
    app.handle_event(InputEvent::Down, &session);
    app.handle_event(InputEvent::Down, &session);
    app.handle_event(InputEvent::Enter, &session);
    assert_eq!(scene_of(&app), Scene::Main);
    assert!(app.state.user.is_none());
    assert_eq!(session.get().user_id, "");
    assert_eq!(session.get().access_token, "");
}

fn open_profile(app: &mut App, session: &Session) {
    app.handle_event(InputEvent::Down, session);
    app.handle_event(InputEvent::Enter, session);
    assert_eq!(app.screen.current_scene(), Scene::Profile);
}

#[test]
fn profile_submission_creates_when_no_resolved_record() {
    let session = Session::new();
    let mut app = signed_in_app(&session, None);
    open_profile(&mut app, &session);
    type_str(&mut app, &session, "Alice A.");
    app.handle_event(InputEvent::Tab, &session);
    type_str(&mut app, &session, "hello");
    let cmd = app.handle_event(InputEvent::Enter, &session);
    match cmd {
        Command::Profile(ProfileCall::CreateUser(u)) => {
            assert_eq!(u.name, "user/u1");
            assert_eq!(u.display_name, "Alice A.");
            assert_eq!(u.description, "hello");
            assert!(u.avatar.is_none());
            assert_eq!(u.region_code.as_deref(), Some("1"));
            assert_eq!(u.language_code.as_deref(), Some("ko-KR"));
            assert_eq!(u.time_zone.as_deref(), Some("Asia/Seoul"));
            assert!(u.create_time.is_none());
            assert!(u.update_time.is_none());
        },
        _ => panic!("expected a creation"),
    }
}

#[test]
fn profile_submission_updates_when_record_resolved_and_keeps_identity() {
    // create, then fetch, then update reuse one logical identity
    let session = Session::new();
    let mut app = signed_in_app(&session, None);
    open_profile(&mut app, &session);
    type_str(&mut app, &session, "Alice");
    let cmd = app.handle_event(InputEvent::Enter, &session);
    let created = match cmd {
        Command::Profile(ProfileCall::CreateUser(u)) => u,
        _ => panic!("expected a creation"),
    };
    let name_before = created.name.clone();
    // the stored record comes back and lands in the cache
    app.apply_profile_outcome(ProfileOutcome::Success(created));
    assert_eq!(scene_of(&app), Scene::AfterSignIn);
    assert!(app.state.user.as_ref().unwrap().user.is_some());
    // a second submission now updates, under the same identity
    open_profile(&mut app, &session);
    type_str(&mut app, &session, "Alice again");
    let cmd = app.handle_event(InputEvent::Enter, &session);
    match cmd {
        Command::Profile(ProfileCall::UpdateUser(u)) => {
            assert_eq!(u.name, name_before);
            assert_eq!(u.display_name, "Alice again");
            assert_eq!(u.region_code.as_deref(), Some("1"));
        },
        _ => panic!("expected an update"),
    }
}

#[test]
fn profile_submission_without_session_state_routes_to_sign_in() {
    let session = Session::new();
    let mut app = signed_in_app(&session, None);
    open_profile(&mut app, &session);
    // the cache empties underneath (as a sign-out elsewhere would)
    app.state.user = None;
    let cmd = app.handle_event(InputEvent::Enter, &session);
    assert!(matches!(cmd, Command::Idle));
    assert_eq!(scene_of(&app), Scene::SignIn);
}

#[test]
fn profile_failure_routes_to_sign_in() {
    let session = Session::new();
    let mut app = signed_in_app(&session, None);
    open_profile(&mut app, &session);
    app.handle_event(InputEvent::Enter, &session);
    app.apply_profile_outcome(ProfileOutcome::Failure);
    assert_eq!(scene_of(&app), Scene::SignIn);
    // the cache survives; only the scene routes away
    assert!(app.state.user.is_some());
}

#[test]
fn profile_escape_discards_edits() {
    let session = Session::new();
    let mut app = signed_in_app(&session, None);
    open_profile(&mut app, &session);
    type_str(&mut app, &session, "draft");
    app.handle_event(InputEvent::Esc, &session);
    assert_eq!(scene_of(&app), Scene::Main);
}

#[test]
fn sign_up_enter_returns_to_welcome_regardless_of_outcome() {
    // registration does not authenticate
    let session = Session::new();
    let mut app = App::new();
    app.handle_event(InputEvent::Down, &session);
    app.handle_event(InputEvent::Enter, &session);
    assert_eq!(scene_of(&app), Scene::SignUp);
    type_str(&mut app, &session, "bob");
    app.handle_event(InputEvent::Tab, &session);
    type_str(&mut app, &session, " bob@example.com ");
    app.handle_event(InputEvent::Tab, &session);
    type_str(&mut app, &session, "pw");
    let cmd = app.handle_event(InputEvent::Enter, &session);
    match cmd {
        Command::SignUp(call) => {
            assert_eq!(call.username, "bob");
            assert_eq!(call.email, "bob@example.com");
            assert_eq!(call.password, "pw");
        },
        _ => panic!("expected a registration call"),
    }
    app.apply_sign_up_outcome();
    assert_eq!(scene_of(&app), Scene::Main);
    assert!(app.state.user.is_none());
    assert_eq!(session.get().access_token, "");
}

#[test]
fn sign_up_focus_cycles_over_four_fields() {
    let session = Session::new();
    let mut app = App::new();
    app.handle_event(InputEvent::Down, &session);
    app.handle_event(InputEvent::Enter, &session);
    type_str(&mut app, &session, "u");
    app.handle_event(InputEvent::Tab, &session);
    type_str(&mut app, &session, "e");
    app.handle_event(InputEvent::Tab, &session);
    type_str(&mut app, &session, "p");
    app.handle_event(InputEvent::Tab, &session);
    type_str(&mut app, &session, "r");
    app.handle_event(InputEvent::Tab, &session);
    type_str(&mut app, &session, "u2");
    match &app.screen {
        Screen::SignUp(s) => {
            assert_eq!(s.input_username, "uu2");
            assert_eq!(s.input_email, "e");
            assert_eq!(s.input_password, "p");
            assert_eq!(s.input_password_repeat, "r");
        },
        _ => panic!("expected the sign-up form"),
    }
}

#[test]
fn irrelevant_events_leave_every_scene_unchanged() {
    let session = Session::new();
    let mut app = App::new();
    for e in [InputEvent::Other, InputEvent::Backspace, InputEvent::Tab, InputEvent::Char('x')] {
        let before = scene_of(&app);
        // typing on a menu has nowhere to go; the scene must hold
        app.handle_event(e, &session);
        assert_eq!(scene_of(&app), before);
    }
    app.handle_event(InputEvent::Enter, &session);
    assert_eq!(scene_of(&app), Scene::SignIn);
    for e in [InputEvent::Other, InputEvent::Up, InputEvent::Down] {
        app.handle_event(e, &session);
        assert_eq!(scene_of(&app), Scene::SignIn);
    }
}

#[test]
fn user_state_new_carries_its_parts() {
    let us = UserState::new("alice".to_string(), None, cred("u1", "tok-1"));
    assert_eq!(us.username, "alice");
    assert!(us.user.is_none());
    assert_eq!(us.sign_in_response.user_id, "u1");
}
