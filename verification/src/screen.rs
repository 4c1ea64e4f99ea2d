//! The interactive screens. Each carries its own local input, focus and
//! error state, created on entry and discarded on exit, and a transition
//! function for the events it reacts to. Transitions that need a remote
//! call do not perform it here: they hand a fully-formed call description
//! to the controller and hold their scene until the outcome is applied.

use vstd::prelude::*;

use crate::event::InputEvent;
use crate::scene::Scene;
use crate::text::pop_char;
use crate::text::push_char;
use crate::text::trim_spaces;
use crate::text::trim_spec;

verus! {

/// A text field after an event reaches the screen holding it: a typed
/// character is appended when the field has the focus, a backspace removes
/// the last character, and nothing else touches it.
pub open spec fn edited_field(field: Seq<char>, focused: bool, event: InputEvent) -> Seq<char> {
    if focused {
        match event {
            InputEvent::Char(c) => field.push(c),
            InputEvent::Backspace => if field.len() > 0 {
                field.drop_last()
            } else {
                field
            },
            _ => field,
        }
    } else {
        field
    }
}

/// A menu selection after an event: Up and Down move it within the menu's
/// `count` entries; nothing else changes it.
pub open spec fn moved_selection(sel: int, count: int, event: InputEvent) -> int {
    match event {
        InputEvent::Up => if sel > 0 {
            sel - 1
        } else {
            sel
        },
        InputEvent::Down => if sel < count - 1 {
            sel + 1
        } else {
            sel
        },
        _ => sel,
    }
}

/// The welcome menu: sign in, sign up, or exit.
pub struct WelcomeScreen {
    pub selected_index: usize,
}

/// Scene that follows `event` on the welcome menu with entry `sel`
/// highlighted: Enter picks the highlighted entry, Escape quits, everything
/// else stays on the menu.
pub open spec fn welcome_next_scene(sel: int, event: InputEvent) -> Scene {
    match event {
        InputEvent::Enter => if sel == 0 {
            Scene::SignIn
        } else if sel == 1 {
            Scene::SignUp
        } else {
            Scene::Quit
        },
        InputEvent::Esc => Scene::Quit,
        _ => Scene::Main,
    }
}

impl WelcomeScreen {
    /// The selection stays within the menu's three entries.
    pub open spec fn wf(self) -> bool {
        self.selected_index < 3
    }

    pub open spec fn is_fresh(self) -> bool {
        self.selected_index == 0
    }

    pub fn new() -> (s: Self)
        ensures
            s.is_fresh(),
            s.wf(),
    {
        WelcomeScreen { selected_index: 0 }
    }

    /// The welcome-menu transition.
    pub fn handle(&mut self, event: InputEvent) -> (next: Scene)
        requires
            old(self).wf(),
        ensures
            final(self).wf(),
            final(self).selected_index as int == moved_selection(
                old(self).selected_index as int,
                3,
                event,
            ),
            next == welcome_next_scene(old(self).selected_index as int, event),
    {
        match event {
            InputEvent::Up => {
                if self.selected_index > 0 {
                    self.selected_index = self.selected_index - 1;
                }
                Scene::Main
            },
            InputEvent::Down => {
                if self.selected_index < 2 {
                    self.selected_index = self.selected_index + 1;
                }
                Scene::Main
            },
            InputEvent::Enter => {
                if self.selected_index == 0 {
                    Scene::SignIn
                } else if self.selected_index == 1 {
                    Scene::SignUp
                } else {
                    Scene::Quit
                }
            },
            InputEvent::Esc => Scene::Quit,
            _ => Scene::Main,
        }
    }
}

/// Which sign-in field holds the focus.
#[derive(Clone, Copy, Debug, PartialEq, Eq, Structural)]
pub enum SignInFocus {
    Username,
    Password,
}

/// Focus after a Tab on the sign-in screen: the two fields cycle.
pub open spec fn toggled_sign_in_focus(f: SignInFocus) -> SignInFocus {
    match f {
        SignInFocus::Username => SignInFocus::Password,
        SignInFocus::Password => SignInFocus::Username,
    }
}

/// The sign-in form: username and password, an inline error from the last
/// failed attempt, and the focused field.
pub struct SignInScreen {
    pub input_username: String,
    pub input_password: String,
    pub error_message: Option<String>,
    pub current_focus: SignInFocus,
}

/// A sign-in request, ready to be performed: both fields trimmed of
/// surrounding whitespace.
pub struct SignInCall {
    pub username: String,
    pub password: String,
}

/// Scene right after `event` on the sign-in screen: Escape discards the
/// form for the welcome menu; every other event — Enter included, until its
/// outcome is applied — stays here.
pub open spec fn sign_in_next_scene(event: InputEvent) -> Scene {
    match event {
        InputEvent::Esc => Scene::Main,
        _ => Scene::SignIn,
    }
}

/// How one event edits the sign-in form locally: the focused field takes
/// typed characters and backspaces, Tab cycles the focus, and the inline
/// error only changes when an outcome is applied.
pub open spec fn sign_in_locally_edited(
    pre: SignInScreen,
    post: SignInScreen,
    event: InputEvent,
) -> bool {
    &&& post.input_username@ == edited_field(
        pre.input_username@,
        pre.current_focus is Username,
        event,
    )
    &&& post.input_password@ == edited_field(
        pre.input_password@,
        pre.current_focus is Password,
        event,
    )
    &&& post.current_focus == (if event is Tab {
        toggled_sign_in_focus(pre.current_focus)
    } else {
        pre.current_focus
    })
    &&& post.error_message == pre.error_message
}

impl SignInScreen {
    pub open spec fn is_fresh(self) -> bool {
        &&& self.input_username@.len() == 0
        &&& self.input_password@.len() == 0
        &&& self.error_message is None
        &&& self.current_focus is Username
    }

    pub fn new() -> (s: Self)
        ensures
            s.is_fresh(),
    {
        SignInScreen {
            input_username: String::new(),
            input_password: String::new(),
            error_message: None,
            current_focus: SignInFocus::Username,
        }
    }

    /// The sign-in transition: local edits, or on Enter the submission built
    /// from the trimmed fields.
    pub fn handle(&mut self, event: InputEvent) -> (r: (Scene, Option<SignInCall>))
        ensures
            r.0 == sign_in_next_scene(event),
            sign_in_locally_edited(*old(self), *final(self), event),
            match r.1 {
                Some(call) => event is Enter && call.username@ == trim_spec(
                    old(self).input_username@,
                ) && call.password@ == trim_spec(old(self).input_password@),
                None => !(event is Enter),
            },
    {
        match event {
            InputEvent::Esc => (Scene::Main, None),
            InputEvent::Tab => {
                self.current_focus = match self.current_focus {
                    SignInFocus::Username => SignInFocus::Password,
                    SignInFocus::Password => SignInFocus::Username,
                };
                (Scene::SignIn, None)
            },
            InputEvent::Enter => {
                let call = SignInCall {
                    username: trim_spaces(self.input_username.as_str()),
                    password: trim_spaces(self.input_password.as_str()),
                };
                (Scene::SignIn, Some(call))
            },
            InputEvent::Char(c) => {
                match self.current_focus {
                    SignInFocus::Username => push_char(&mut self.input_username, c),
                    SignInFocus::Password => push_char(&mut self.input_password, c),
                }
                (Scene::SignIn, None)
            },
            InputEvent::Backspace => {
                let _ = match self.current_focus {
                    SignInFocus::Username => pop_char(&mut self.input_username),
                    SignInFocus::Password => pop_char(&mut self.input_password),
                };
                (Scene::SignIn, None)
            },
            _ => (Scene::SignIn, None),
        }
    }
}

/// Which sign-up field holds the focus.
#[derive(Clone, Copy, Debug, PartialEq, Eq, Structural)]
pub enum SignUpFocus {
    Username,
    Email,
    Password,
    PasswordRepeat,
}

/// Focus after a Tab on the sign-up screen: the four fields cycle in order.
pub open spec fn cycled_sign_up_focus(f: SignUpFocus) -> SignUpFocus {
    match f {
        SignUpFocus::Username => SignUpFocus::Email,
        SignUpFocus::Email => SignUpFocus::Password,
        SignUpFocus::Password => SignUpFocus::PasswordRepeat,
        SignUpFocus::PasswordRepeat => SignUpFocus::Username,
    }
}

/// The sign-up form: username, email, password and its repetition, and the
/// focused field.
pub struct SignUpScreen {
    pub input_username: String,
    pub input_email: String,
    pub input_password: String,
    pub input_password_repeat: String,
    pub current_focus: SignUpFocus,
}

/// A registration request, ready to be performed: the fields the backend
/// receives, trimmed. The repeated password is local-only and not sent.
pub struct SignUpCall {
    pub email: String,
    pub username: String,
    pub password: String,
}

/// Scene right after `event` on the sign-up screen: Escape discards the
/// form for the welcome menu; every other event — Enter included, until its
/// outcome is applied — stays here.
pub open spec fn sign_up_next_scene(event: InputEvent) -> Scene {
    match event {
        InputEvent::Esc => Scene::Main,
        _ => Scene::SignUp,
    }
}

/// How one event edits the sign-up form locally.
pub open spec fn sign_up_locally_edited(
    pre: SignUpScreen,
    post: SignUpScreen,
    event: InputEvent,
) -> bool {
    &&& post.input_username@ == edited_field(
        pre.input_username@,
        pre.current_focus is Username,
        event,
    )
    &&& post.input_email@ == edited_field(pre.input_email@, pre.current_focus is Email, event)
    &&& post.input_password@ == edited_field(
        pre.input_password@,
        pre.current_focus is Password,
        event,
    )
    &&& post.input_password_repeat@ == edited_field(
        pre.input_password_repeat@,
        pre.current_focus is PasswordRepeat,
        event,
    )
    &&& post.current_focus == (if event is Tab {
        cycled_sign_up_focus(pre.current_focus)
    } else {
        pre.current_focus
    })
}

impl SignUpScreen {
    pub open spec fn is_fresh(self) -> bool {
        &&& self.input_username@.len() == 0
        &&& self.input_email@.len() == 0
        &&& self.input_password@.len() == 0
        &&& self.input_password_repeat@.len() == 0
        &&& self.current_focus is Username
    }

    pub fn new() -> (s: Self)
        ensures
            s.is_fresh(),
    {
        SignUpScreen {
            input_username: String::new(),
            input_email: String::new(),
            input_password: String::new(),
            input_password_repeat: String::new(),
            current_focus: SignUpFocus::Username,
        }
    }

    /// The sign-up transition: local edits, or on Enter the registration
    /// built from the trimmed fields. Registration does not authenticate,
    /// and its outcome is not inspected.
    pub fn handle(&mut self, event: InputEvent) -> (r: (Scene, Option<SignUpCall>))
        ensures
            r.0 == sign_up_next_scene(event),
            sign_up_locally_edited(*old(self), *final(self), event),
            match r.1 {
                Some(call) => event is Enter && call.email@ == trim_spec(old(self).input_email@)
                    && call.username@ == trim_spec(old(self).input_username@) && call.password@
                    == trim_spec(old(self).input_password@),
                None => !(event is Enter),
            },
    {
        match event {
            InputEvent::Esc => (Scene::Main, None),
            InputEvent::Tab => {
                self.current_focus = match self.current_focus {
                    SignUpFocus::Username => SignUpFocus::Email,
                    SignUpFocus::Email => SignUpFocus::Password,
                    SignUpFocus::Password => SignUpFocus::PasswordRepeat,
                    SignUpFocus::PasswordRepeat => SignUpFocus::Username,
                };
                (Scene::SignUp, None)
            },
            InputEvent::Enter => {
                let call = SignUpCall {
                    email: trim_spaces(self.input_email.as_str()),
                    username: trim_spaces(self.input_username.as_str()),
                    password: trim_spaces(self.input_password.as_str()),
                };
                (Scene::SignUp, Some(call))
            },
            InputEvent::Char(c) => {
                match self.current_focus {
                    SignUpFocus::Username => push_char(&mut self.input_username, c),
                    SignUpFocus::Email => push_char(&mut self.input_email, c),
                    SignUpFocus::Password => push_char(&mut self.input_password, c),
                    SignUpFocus::PasswordRepeat => push_char(&mut self.input_password_repeat, c),
                }
                (Scene::SignUp, None)
            },
            InputEvent::Backspace => {
                let _ = match self.current_focus {
                    SignUpFocus::Username => pop_char(&mut self.input_username),
                    SignUpFocus::Email => pop_char(&mut self.input_email),
                    SignUpFocus::Password => pop_char(&mut self.input_password),
                    SignUpFocus::PasswordRepeat => pop_char(&mut self.input_password_repeat),
                };
                (Scene::SignUp, None)
            },
            _ => (Scene::SignUp, None),
        }
    }
}

/// The menu shown after a successful sign-in: chat, profile, or sign out.
pub struct AfterSignInScreen {
    pub selected_index: usize,
}

/// Scene that follows `event` on the after-sign-in menu: Enter on the
/// profile entry opens the profile; Enter on sign-out returns to the
/// welcome menu; Enter on chat is not implemented and stays; everything
/// else stays.
pub open spec fn after_sign_in_next_scene(sel: int, event: InputEvent) -> Scene {
    match event {
        InputEvent::Enter => if sel == 1 {
            Scene::Profile
        } else if sel == 2 {
            Scene::Main
        } else {
            Scene::AfterSignIn
        },
        _ => Scene::AfterSignIn,
    }
}

impl AfterSignInScreen {
    /// The selection stays within the menu's three entries.
    pub open spec fn wf(self) -> bool {
        self.selected_index < 3
    }

    pub open spec fn is_fresh(self) -> bool {
        self.selected_index == 0
    }

    pub fn new() -> (s: Self)
        ensures
            s.is_fresh(),
            s.wf(),
    {
        AfterSignInScreen { selected_index: 0 }
    }

    /// The after-sign-in transition; the second result is true exactly when
    /// the user picked sign-out, which the controller turns into clearing
    /// the session and the profile cache.
    pub fn handle(&mut self, event: InputEvent) -> (r: (Scene, bool))
        requires
            old(self).wf(),
        ensures
            final(self).wf(),
            final(self).selected_index as int == moved_selection(
                old(self).selected_index as int,
                3,
                event,
            ),
            r.0 == after_sign_in_next_scene(old(self).selected_index as int, event),
            r.1 == (event is Enter && old(self).selected_index == 2),
    {
        match event {
            InputEvent::Up => {
                if self.selected_index > 0 {
                    self.selected_index = self.selected_index - 1;
                }
                (Scene::AfterSignIn, false)
            },
            InputEvent::Down => {
                if self.selected_index < 2 {
                    self.selected_index = self.selected_index + 1;
                }
                (Scene::AfterSignIn, false)
            },
            InputEvent::Enter => {
                if self.selected_index == 1 {
                    (Scene::Profile, false)
                } else if self.selected_index == 2 {
                    (Scene::Main, true)
                } else {
                    (Scene::AfterSignIn, false)
                }
            },
            _ => (Scene::AfterSignIn, false),
        }
    }
}

/// Which profile field holds the focus.
#[derive(Clone, Copy, Debug, PartialEq, Eq, Structural)]
pub enum ProfileFocus {
    DisplayName,
    Description,
}

/// Focus after a Tab on the profile screen: the two fields cycle.
pub open spec fn toggled_profile_focus(f: ProfileFocus) -> ProfileFocus {
    match f {
        ProfileFocus::DisplayName => ProfileFocus::Description,
        ProfileFocus::Description => ProfileFocus::DisplayName,
    }
}

/// The profile form: display name and description, and the focused field.
pub struct ProfileScreen {
    pub input_display_name: String,
    pub input_description: String,
    pub current_focus: ProfileFocus,
}

/// Scene right after `event` on the profile screen: Escape discards the
/// edits for the welcome menu; every other event — Enter included, until
/// its outcome is applied — stays here.
pub open spec fn profile_next_scene(event: InputEvent) -> Scene {
    match event {
        InputEvent::Esc => Scene::Main,
        _ => Scene::Profile,
    }
}

/// How one event edits the profile form locally.
pub open spec fn profile_locally_edited(
    pre: ProfileScreen,
    post: ProfileScreen,
    event: InputEvent,
) -> bool {
    &&& post.input_display_name@ == edited_field(
        pre.input_display_name@,
        pre.current_focus is DisplayName,
        event,
    )
    &&& post.input_description@ == edited_field(
        pre.input_description@,
        pre.current_focus is Description,
        event,
    )
    &&& post.current_focus == (if event is Tab {
        toggled_profile_focus(pre.current_focus)
    } else {
        pre.current_focus
    })
}

impl ProfileScreen {
    pub open spec fn is_fresh(self) -> bool {
        &&& self.input_display_name@.len() == 0
        &&& self.input_description@.len() == 0
        &&& self.current_focus is DisplayName
    }

    pub fn new() -> (s: Self)
        ensures
            s.is_fresh(),
    {
        ProfileScreen {
            input_display_name: String::new(),
            input_description: String::new(),
            current_focus: ProfileFocus::DisplayName,
        }
    }

    /// The profile transition: local edits, or on Enter a request to submit.
    /// The submission itself is built by the controller, which also holds
    /// the profile cache the submission is keyed on.
    pub fn handle(&mut self, event: InputEvent) -> (r: (Scene, bool))
        ensures
            r.0 == profile_next_scene(event),
            profile_locally_edited(*old(self), *final(self), event),
            r.1 == (event is Enter),
    {
        match event {
            InputEvent::Esc => (Scene::Main, false),
            InputEvent::Tab => {
                self.current_focus = match self.current_focus {
                    ProfileFocus::DisplayName => ProfileFocus::Description,
                    ProfileFocus::Description => ProfileFocus::DisplayName,
                };
                (Scene::Profile, false)
            },
            InputEvent::Enter => (Scene::Profile, true),
            InputEvent::Char(c) => {
                match self.current_focus {
                    ProfileFocus::DisplayName => push_char(&mut self.input_display_name, c),
                    ProfileFocus::Description => push_char(&mut self.input_description, c),
                }
                (Scene::Profile, false)
            },
            InputEvent::Backspace => {
                let _ = match self.current_focus {
                    ProfileFocus::DisplayName => pop_char(&mut self.input_display_name),
                    ProfileFocus::Description => pop_char(&mut self.input_description),
                };
                (Scene::Profile, false)
            },
            _ => (Scene::Profile, false),
        }
    }
}

} // verus!
