//! The scene controller: one tagged union over the screens, an exhaustive
//! transition function keyed on the current screen and the event, and the
//! functions that apply a remote call's outcome.
//!
//! The host binary runs the loop around this: render the active screen,
//! poll for input with a short bounded wait, hand the event to
//! [`App::handle_event`], perform the [`Command`] it returns — one or more
//! network round-trips, awaited to completion — and apply the outcome
//! before rendering again. Transitions are therefore applied strictly in
//! the order their events were dispatched.

use vstd::prelude::*;

use crate::app_state::AppState;
use crate::app_state::UserState;
use crate::credential::Credential;
use crate::event::InputEvent;
use crate::model::user_resource_name;
use crate::model::user_resource_name_spec;
use crate::model::User;
use crate::scene::Scene;
use crate::screen::after_sign_in_next_scene;
use crate::screen::moved_selection;
use crate::screen::profile_locally_edited;
use crate::screen::profile_next_scene;
use crate::screen::sign_in_locally_edited;
use crate::screen::sign_in_next_scene;
use crate::screen::sign_up_locally_edited;
use crate::screen::sign_up_next_scene;
use crate::screen::welcome_next_scene;
use crate::screen::AfterSignInScreen;
use crate::screen::ProfileScreen;
use crate::screen::SignInCall;
use crate::screen::SignInScreen;
use crate::screen::SignUpCall;
use crate::screen::SignUpScreen;
use crate::screen::WelcomeScreen;
use crate::session::Session;
use crate::text::trim_spaces;
use crate::text::trim_spec;

verus! {

/// The active screen with its local state: exactly one at any time.
pub enum Screen {
    Welcome(WelcomeScreen),
    SignIn(SignInScreen),
    SignUp(SignUpScreen),
    AfterSignIn(AfterSignInScreen),
    Profile(ProfileScreen),
    Quit,
}

impl Screen {
    /// The scene this screen shows.
    pub open spec fn scene_of(self) -> Scene {
        match self {
            Screen::Welcome(_) => Scene::Main,
            Screen::SignIn(_) => Scene::SignIn,
            Screen::SignUp(_) => Scene::SignUp,
            Screen::AfterSignIn(_) => Scene::AfterSignIn,
            Screen::Profile(_) => Scene::Profile,
            Screen::Quit => Scene::Quit,
        }
    }

    pub open spec fn wf(self) -> bool {
        match self {
            Screen::Welcome(w) => w.wf(),
            Screen::AfterSignIn(a) => a.wf(),
            _ => true,
        }
    }

    pub fn current_scene(&self) -> (s: Scene)
        ensures
            s == self.scene_of(),
    {
        match self {
            Screen::Welcome(_) => Scene::Main,
            Screen::SignIn(_) => Scene::SignIn,
            Screen::SignUp(_) => Scene::SignUp,
            Screen::AfterSignIn(_) => Scene::AfterSignIn,
            Screen::Profile(_) => Scene::Profile,
            Screen::Quit => Scene::Quit,
        }
    }
}

/// A remote call the controller must perform before the next render, or
/// nothing.
pub enum Command {
    Idle,
    SignIn(SignInCall),
    SignUp(SignUpCall),
    Profile(ProfileCall),
}

/// A profile submission: an update of the resolved record when the cache
/// holds one, a creation otherwise.
pub enum ProfileCall {
    CreateUser(User),
    UpdateUser(User),
}

/// What the sign-in flow hands back: on success the credential the backend
/// returned together with the follow-up fetch of the caller's user record
/// (which may itself have failed and is then absent); on failure the
/// message to show inline.
pub enum SignInOutcome {
    Success { response: Credential, user: Option<User> },
    Failure { message: String },
}

/// What the profile submission hands back: the stored record, or failure
/// (whose message the client does not surface — it routes back to sign-in).
pub enum ProfileOutcome {
    Success(User),
    Failure,
}

/// The profile submission built from the cache and the trimmed form fields:
/// an update of the resolved record — its other fields, identity included,
/// carried unchanged — when one is present; otherwise a creation of a fresh
/// record whose identity is derived from the signed-in user's id, with the
/// client's default region, language and time zone.
pub open spec fn profile_call_matches(
    c: ProfileCall,
    us: UserState,
    dn: Seq<char>,
    desc: Seq<char>,
) -> bool {
    match us.user {
        Some(existing) => {
            &&& c matches ProfileCall::UpdateUser(u)
            &&& u.name == existing.name
            &&& u.display_name@ == dn
            &&& u.description@ == desc
            &&& u.avatar == existing.avatar
            &&& u.region_code == existing.region_code
            &&& u.language_code == existing.language_code
            &&& u.time_zone == existing.time_zone
            &&& u.create_time == existing.create_time
            &&& u.update_time == existing.update_time
        },
        None => {
            &&& c matches ProfileCall::CreateUser(u)
            &&& u.name@ == user_resource_name_spec(us.sign_in_response.user_id@)
            &&& u.display_name@ == dn
            &&& u.description@ == desc
            &&& u.avatar is None
            &&& u.region_code matches Some(r) && r@ == "1"@
            &&& u.language_code matches Some(l) && l@ == "ko-KR"@
            &&& u.time_zone matches Some(t) && t@ == "Asia/Seoul"@
            &&& u.create_time is None
            &&& u.update_time is None
        },
    }
}

/// Build the profile submission for the current cache (see
/// [`profile_call_matches`]).
pub fn build_profile_call(us: &UserState, display_name: String, description: String) -> (c:
    ProfileCall)
    ensures
        profile_call_matches(c, *us, display_name@, description@),
{
    match &us.user {
        Some(existing) => {
            let mut u = existing.clone();
            u.display_name = display_name;
            u.description = description;
            ProfileCall::UpdateUser(u)
        },
        None => {
            let name = user_resource_name(us.sign_in_response.user_id.as_str());
            ProfileCall::CreateUser(
                User {
                    name,
                    display_name,
                    description,
                    avatar: None,
                    region_code: Some("1".to_owned()),
                    language_code: Some("ko-KR".to_owned()),
                    time_zone: Some("Asia/Seoul".to_owned()),
                    create_time: None,
                    update_time: None,
                },
            )
        },
    }
}

/// A profile submission updates exactly when the cache holds a resolved
/// record and creates exactly otherwise; either way the record's logical
/// identity is the one the session established — an update keeps the
/// resolved record's name, a creation derives its name from the signed-in
/// user's id — so a create, a fetch and an update in sequence address one
/// identity.
pub proof fn lemma_profile_submission_keyed_on_cache(
    c: ProfileCall,
    us: UserState,
    dn: Seq<char>,
    desc: Seq<char>,
)
    requires
        profile_call_matches(c, us, dn, desc),
    ensures
        us.user is Some <==> c is UpdateUser,
        us.user is None <==> c is CreateUser,
        match c {
            ProfileCall::UpdateUser(u) => u.name == us.user->0.name,
            ProfileCall::CreateUser(u) => u.name@ == user_resource_name_spec(
                us.sign_in_response.user_id@,
            ),
        },
{
}

/// The scene right after an event is dispatched, before any outcome is
/// applied: rows that need no remote call land at once; rows that issue one
/// hold their scene until the outcome arrives. A profile submission with no
/// signed-in user fails locally and routes to sign-in without a call.
pub open spec fn dispatched_scene(screen: Screen, has_user: bool, event: InputEvent) -> Scene {
    match screen {
        Screen::Welcome(w) => welcome_next_scene(w.selected_index as int, event),
        Screen::SignIn(_) => sign_in_next_scene(event),
        Screen::SignUp(_) => sign_up_next_scene(event),
        Screen::AfterSignIn(a) => after_sign_in_next_scene(a.selected_index as int, event),
        Screen::Profile(_) => if event is Enter && !has_user {
            Scene::SignIn
        } else {
            profile_next_scene(event)
        },
        Screen::Quit => Scene::Quit,
    }
}

/// Whether dispatching `event` on `screen` issues a remote call.
pub open spec fn submission_issued(screen: Screen, has_user: bool, event: InputEvent) -> bool {
    match screen {
        Screen::SignIn(_) => event is Enter,
        Screen::SignUp(_) => event is Enter,
        Screen::Profile(_) => event is Enter && has_user,
        _ => false,
    }
}

/// The row dispatching which signs the user out.
pub open spec fn sign_out_row(screen: Screen, event: InputEvent) -> bool {
    screen matches Screen::AfterSignIn(a) && a.selected_index == 2 && event is Enter
}

/// The command dispatching `event` on `pre` emits: the sign-in or
/// registration built from the trimmed form fields, the profile submission
/// keyed on the cache, or nothing.
pub open spec fn command_for(pre: App, event: InputEvent, cmd: Command) -> bool {
    match pre.screen {
        Screen::SignIn(s) => if event is Enter {
            &&& cmd matches Command::SignIn(call)
            &&& call.username@ == trim_spec(s.input_username@)
            &&& call.password@ == trim_spec(s.input_password@)
        } else {
            cmd is Idle
        },
        Screen::SignUp(s) => if event is Enter {
            &&& cmd matches Command::SignUp(call)
            &&& call.email@ == trim_spec(s.input_email@)
            &&& call.username@ == trim_spec(s.input_username@)
            &&& call.password@ == trim_spec(s.input_password@)
        } else {
            cmd is Idle
        },
        Screen::Profile(p) => if event is Enter {
            match pre.state.user {
                Some(us) => cmd matches Command::Profile(c) && profile_call_matches(
                    c,
                    us,
                    trim_spec(p.input_display_name@),
                    trim_spec(p.input_description@),
                ),
                None => cmd is Idle,
            }
        } else {
            cmd is Idle
        },
        _ => cmd is Idle,
    }
}

/// How the active screen follows one dispatched event: a screen is created
/// fresh on entry and discarded on exit, and a screen that stays keeps
/// exactly its locally edited state.
pub open spec fn screen_follows(
    pre: Screen,
    post: Screen,
    has_user: bool,
    event: InputEvent,
) -> bool {
    match pre {
        Screen::Welcome(w) => match welcome_next_scene(w.selected_index as int, event) {
            Scene::SignIn => post matches Screen::SignIn(s) && s.is_fresh(),
            Scene::SignUp => post matches Screen::SignUp(s) && s.is_fresh(),
            Scene::Quit => post is Quit,
            _ => post matches Screen::Welcome(w2) && w2.selected_index as int == moved_selection(
                w.selected_index as int,
                3,
                event,
            ),
        },
        Screen::SignIn(s) => if event is Esc {
            post matches Screen::Welcome(w) && w.is_fresh()
        } else {
            post matches Screen::SignIn(s2) && sign_in_locally_edited(s, s2, event)
        },
        Screen::SignUp(s) => if event is Esc {
            post matches Screen::Welcome(w) && w.is_fresh()
        } else {
            post matches Screen::SignUp(s2) && sign_up_locally_edited(s, s2, event)
        },
        Screen::AfterSignIn(a) => match after_sign_in_next_scene(a.selected_index as int, event) {
            Scene::Profile => post matches Screen::Profile(p) && p.is_fresh(),
            Scene::Main => post matches Screen::Welcome(w) && w.is_fresh(),
            _ => post matches Screen::AfterSignIn(a2) && a2.selected_index as int
                == moved_selection(a.selected_index as int, 3, event),
        },
        Screen::Profile(p) => if event is Esc {
            post matches Screen::Welcome(w) && w.is_fresh()
        } else if event is Enter && !has_user {
            post matches Screen::SignIn(s) && s.is_fresh()
        } else {
            post matches Screen::Profile(p2) && profile_locally_edited(p, p2, event)
        },
        Screen::Quit => post is Quit,
    }
}

/// The client: the active screen and the signed-in user's cached profile.
/// The shared session lives outside, handed to the operations that read or
/// mutate it, so that the credential-injecting transport can share it.
pub struct App {
    pub screen: Screen,
    pub state: AppState,
}

impl App {
    pub open spec fn wf(self) -> bool {
        self.screen.wf()
    }

    /// At startup: the welcome menu, no signed-in user.
    pub fn new() -> (app: App)
        ensures
            app.wf(),
            app.screen matches Screen::Welcome(w) && w.is_fresh(),
            app.state.user is None,
    {
        App { screen: Screen::Welcome(WelcomeScreen::new()), state: AppState::new() }
    }

    /// Dispatch one event to the active screen: the scene, the screen's
    /// local state and the cache follow the transition table, and the
    /// command says which remote call, if any, must be performed and its
    /// outcome applied before the next render. Picking sign-out clears the
    /// session and the cache.
    pub fn handle_event(&mut self, event: InputEvent, session: &Session) -> (cmd: Command)
        requires
            old(self).wf(),
        ensures
            final(self).wf(),
            screen_follows(
                old(self).screen,
                final(self).screen,
                old(self).state.user is Some,
                event,
            ),
            final(self).screen.scene_of() == dispatched_scene(
                old(self).screen,
                old(self).state.user is Some,
                event,
            ),
            command_for(*old(self), event, cmd),
            final(self).state.user == if sign_out_row(old(self).screen, event) {
                None::<UserState>
            } else {
                old(self).state.user
            },
    {
        match &mut self.screen {
            Screen::Welcome(w) => {
                let next = w.handle(event);
                match next {
                    Scene::SignIn => {
                        self.screen = Screen::SignIn(SignInScreen::new());
                    },
                    Scene::SignUp => {
                        self.screen = Screen::SignUp(SignUpScreen::new());
                    },
                    Scene::Quit => {
                        self.screen = Screen::Quit;
                    },
                    _ => {},
                }
                Command::Idle
            },
            Screen::SignIn(s) => {
                let (next, call) = s.handle(event);
                if let Scene::Main = next {
                    self.screen = Screen::Welcome(WelcomeScreen::new());
                    Command::Idle
                } else {
                    match call {
                        Some(c) => Command::SignIn(c),
                        None => Command::Idle,
                    }
                }
            },
            Screen::SignUp(s) => {
                let (next, call) = s.handle(event);
                if let Scene::Main = next {
                    self.screen = Screen::Welcome(WelcomeScreen::new());
                    Command::Idle
                } else {
                    match call {
                        Some(c) => Command::SignUp(c),
                        None => Command::Idle,
                    }
                }
            },
            Screen::AfterSignIn(a) => {
                let (next, sign_out) = a.handle(event);
                if sign_out {
                    session.clear();
                    self.state.user = None;
                }
                match next {
                    Scene::Profile => {
                        self.screen = Screen::Profile(ProfileScreen::new());
                    },
                    Scene::Main => {
                        self.screen = Screen::Welcome(WelcomeScreen::new());
                    },
                    _ => {},
                }
                Command::Idle
            },
            Screen::Profile(p) => {
                let (next, submit) = p.handle(event);
                if let Scene::Main = next {
                    self.screen = Screen::Welcome(WelcomeScreen::new());
                    Command::Idle
                } else if submit {
                    let display_name = trim_spaces(p.input_display_name.as_str());
                    let description = trim_spaces(p.input_description.as_str());
                    match &self.state.user {
                        Some(us) => Command::Profile(
                            build_profile_call(us, display_name, description),
                        ),
                        None => {
                            self.screen = Screen::SignIn(SignInScreen::new());
                            Command::Idle
                        },
                    }
                } else {
                    Command::Idle
                }
            },
            Screen::Quit => Command::Idle,
        }
    }

    /// Apply the outcome of the submitted sign-in. Success establishes the
    /// session — the credential is stored, the cache is created from the
    /// submitted username, the fetched record and the credential — and
    /// moves to the after-sign-in menu. Failure stays on the form, with the
    /// message inline and the session untouched.
    pub fn apply_sign_in_outcome(&mut self, outcome: SignInOutcome, session: &Session)
        requires
            old(self).wf(),
            old(self).screen is SignIn,
        ensures
            final(self).wf(),
            match (outcome, old(self).screen) {
                (SignInOutcome::Success { response, user }, Screen::SignIn(s1)) => {
                    &&& final(self).screen matches Screen::AfterSignIn(a) && a.is_fresh()
                    &&& final(self).state.user matches Some(us)
                    &&& us.username@ == trim_spec(s1.input_username@)
                    &&& us.user == user
                    &&& us.sign_in_response == response
                },
                (SignInOutcome::Failure { message }, Screen::SignIn(s1)) => {
                    &&& final(self).screen matches Screen::SignIn(s2)
                    &&& s2.input_username == s1.input_username
                    &&& s2.input_password == s1.input_password
                    &&& s2.current_focus == s1.current_focus
                    &&& s2.error_message matches Some(m) && m == message
                    &&& final(self).state == old(self).state
                },
                _ => true,
            },
    {
        match outcome {
            SignInOutcome::Success { response, user } => {
                let username = match &self.screen {
                    Screen::SignIn(s) => trim_spaces(s.input_username.as_str()),
                    _ => {
                        proof {
                            assert(false);
                        }
                        String::new()
                    },
                };
                session.set(response.clone());
                self.state.user = Some(UserState::new(username, user, response));
                self.screen = Screen::AfterSignIn(AfterSignInScreen::new());
            },
            SignInOutcome::Failure { message } => {
                match &mut self.screen {
                    Screen::SignIn(s) => {
                        s.error_message = Some(message);
                    },
                    _ => {
                        proof {
                            assert(false);
                        }
                    },
                }
            },
        }
    }

    /// Applied when the registration call completes, whatever came of it:
    /// registration does not authenticate, so the client returns to the
    /// welcome menu regardless of the outcome.
    pub fn apply_sign_up_outcome(&mut self)
        requires
            old(self).screen is SignUp,
        ensures
            final(self).wf(),
            final(self).screen matches Screen::Welcome(w) && w.is_fresh(),
            final(self).state == old(self).state,
    {
        self.screen = Screen::Welcome(WelcomeScreen::new());
    }

    /// Apply the outcome of the profile submission. Success stores the
    /// resolved record in the cache and moves to the after-sign-in menu;
    /// failure routes to the sign-in form.
    pub fn apply_profile_outcome(&mut self, outcome: ProfileOutcome)
        requires
            old(self).screen is Profile,
        ensures
            final(self).wf(),
            match outcome {
                ProfileOutcome::Success(u) => {
                    &&& final(self).screen matches Screen::AfterSignIn(a) && a.is_fresh()
                    &&& match old(self).state.user {
                        Some(us) => final(self).state.user matches Some(us2) && us2.username
                            == us.username && us2.sign_in_response == us.sign_in_response
                            && us2.user == Some(u),
                        None => final(self).state.user is None,
                    }
                },
                ProfileOutcome::Failure => {
                    &&& final(self).screen matches Screen::SignIn(s) && s.is_fresh()
                    &&& final(self).state == old(self).state
                },
            },
    {
        match outcome {
            ProfileOutcome::Success(u) => {
                match &mut self.state.user {
                    Some(us) => {
                        us.user = Some(u);
                    },
                    None => {},
                }
                self.screen = Screen::AfterSignIn(AfterSignInScreen::new());
            },
            ProfileOutcome::Failure => {
                self.screen = Screen::SignIn(SignInScreen::new());
            },
        }
    }
}

/// Whether the event loop runs another iteration: every scene but `Quit`
/// renders again; reaching `Quit` is terminal and unconditional, and
/// control returns to the host.
pub fn loop_continues(scene: Scene) -> (r: bool)
    ensures
        r == !(scene is Quit),
{
    match scene {
        Scene::Quit => false,
        _ => true,
    }
}

/// One row of the transition table: the scene that follows `scene` on
/// `event`, given the selection `sel` highlighted on a menu scene and
/// whether the submission a row awaits succeeded (`ok`). The table is a
/// total function of its inputs, so it is total and deterministic.
pub open spec fn table_next_scene(scene: Scene, event: InputEvent, sel: int, ok: bool) -> Scene {
    match scene {
        Scene::Main => match event {
            InputEvent::Enter => if sel == 0 {
                Scene::SignIn
            } else if sel == 1 {
                Scene::SignUp
            } else {
                Scene::Quit
            },
            InputEvent::Esc => Scene::Quit,
            _ => Scene::Main,
        },
        Scene::SignIn => match event {
            InputEvent::Esc => Scene::Main,
            InputEvent::Enter => if ok {
                Scene::AfterSignIn
            } else {
                Scene::SignIn
            },
            _ => Scene::SignIn,
        },
        Scene::SignUp => match event {
            InputEvent::Esc => Scene::Main,
            InputEvent::Enter => Scene::Main,
            _ => Scene::SignUp,
        },
        Scene::AfterSignIn => match event {
            InputEvent::Enter => if sel == 1 {
                Scene::Profile
            } else if sel == 2 {
                Scene::Main
            } else {
                Scene::AfterSignIn
            },
            _ => Scene::AfterSignIn,
        },
        Scene::Profile => match event {
            InputEvent::Esc => Scene::Main,
            InputEvent::Enter => if ok {
                Scene::AfterSignIn
            } else {
                Scene::SignIn
            },
            _ => Scene::Profile,
        },
        Scene::Quit => Scene::Quit,
    }
}

/// The selection a menu screen highlights; irrelevant elsewhere.
pub open spec fn selection_of(screen: Screen) -> int {
    match screen {
        Screen::Welcome(w) => w.selected_index as int,
        Screen::AfterSignIn(a) => a.selected_index as int,
        _ => 0,
    }
}

/// Events outside the table leave every scene unchanged — a Tab only moves
/// the focus, movement keys only move the selection, typing only edits a
/// field — and `Quit` is terminal under every event.
pub proof fn lemma_untouched_rows(scene: Scene, event: InputEvent, sel: int, ok: bool)
    ensures
        (event is Up || event is Down || event is Tab || event is Char || event is Backspace
            || event is Other) ==> table_next_scene(scene, event, sel, ok) == scene,
        table_next_scene(Scene::Quit, event, sel, ok) == Scene::Quit,
{
}

/// The machine follows the table. A row that issues no remote call lands at
/// once on the table's scene (reading the table with `ok == false` covers
/// the locally failing profile submission; no other such row consults
/// `ok`). A row that issues one holds its scene, and the table rows below
/// say where each outcome then lands — which is exactly what the outcome
/// functions ensure.
pub proof fn lemma_dispatch_follows_table(screen: Screen, has_user: bool, event: InputEvent)
    ensures
        !submission_issued(screen, has_user, event) ==> dispatched_scene(screen, has_user, event)
            == table_next_scene(screen.scene_of(), event, selection_of(screen), false),
        submission_issued(screen, has_user, event) ==> dispatched_scene(screen, has_user, event)
            == screen.scene_of(),
        forall|s: int|
            table_next_scene(Scene::SignIn, InputEvent::Enter, s, true) == Scene::AfterSignIn
                && table_next_scene(Scene::SignIn, InputEvent::Enter, s, false) == Scene::SignIn,
        forall|s: int, b: bool|
            table_next_scene(Scene::SignUp, InputEvent::Enter, s, b) == Scene::Main,
        forall|s: int|
            table_next_scene(Scene::Profile, InputEvent::Enter, s, true) == Scene::AfterSignIn
                && table_next_scene(Scene::Profile, InputEvent::Enter, s, false) == Scene::SignIn,
{
}

} // verus!
