//! What the screens show, as plain values: the menu captions, the title and
//! the greeting. The host binary draws them; everything it draws of the
//! client's state comes from here and from the screens' own fields.

use vstd::prelude::*;
use vstd::string::StrSliceExecFns;
use vstd::string::StringExecFns;

use crate::app_state::AppState;
use crate::text::push_char;

verus! {

/// The title bar text.
pub fn app_title() -> (m: String)
    ensures
        m@ == "YcChat"@,
{
    String::from_str("YcChat")
}

/// The welcome menu's entries, in order.
pub fn welcome_labels() -> (v: Vec<String>)
    ensures
        v@.len() == 3,
        v@[0]@ == "Sign In"@,
        v@[1]@ == "Sign Up"@,
        v@[2]@ == "Exit"@,
{
    let mut v: Vec<String> = Vec::new();
    v.push(String::from_str("Sign In"));
    v.push(String::from_str("Sign Up"));
    v.push(String::from_str("Exit"));
    v
}

/// The after-sign-in menu's entries, in order.
pub fn after_sign_in_labels() -> (v: Vec<String>)
    ensures
        v@.len() == 3,
        v@[0]@ == "Chat"@,
        v@[1]@ == "Profile"@,
        v@[2]@ == "Sign out"@,
{
    let mut v: Vec<String> = Vec::new();
    v.push(String::from_str("Chat"));
    v.push(String::from_str("Profile"));
    v.push(String::from_str("Sign out"));
    v
}

/// Whom the after-sign-in screen greets: the resolved record's display
/// name when one is cached, else the username that signed in, else a
/// placeholder.
pub open spec fn greeting_name_view(state: AppState) -> Seq<char> {
    match state.user {
        Some(us) => match us.user {
            Some(u) => u.display_name@,
            None => us.username@,
        },
        None => "unknown"@,
    }
}

/// A password field shows one bullet per character typed, never the text.
pub fn masked(s: &str) -> (r: String)
    ensures
        r@ == Seq::new(s@.len(), |i: int| '\u{2022}'),
{
    let n = s.unicode_len();
    let mut r = String::new();
    let mut i: usize = 0;
    while i < n
        invariant
            n == s@.len(),
            0 <= i <= n,
            r@.len() == i,
            forall|j: int| 0 <= j < i ==> r@[j] == '\u{2022}',
        decreases n - i,
    {
        push_char(&mut r, '\u{2022}');
        i = i + 1;
    }
    proof {
        assert(r@ =~= Seq::new(s@.len(), |i: int| '\u{2022}'));
    }
    r
}

pub fn greeting_name(state: &AppState) -> (r: String)
    ensures
        r@ == greeting_name_view(*state),
{
    match &state.user {
        Some(us) => match &us.user {
            Some(u) => u.display_name.clone(),
            None => us.username.clone(),
        },
        None => String::from_str("unknown"),
    }
}

} // verus!
