//! The authentication menu of the prompt-driven flow: which of sign-up,
//! sign-in or exit the user picked, and what the flow concludes with. The
//! prompts themselves and the remote calls are the host's; the menu's
//! entries, their order and their captions are fixed here.

use vstd::prelude::*;
use vstd::string::StringExecFns;

use crate::credential::Credential;
use crate::model::SignUpResponse;

verus! {

/// One entry of the authentication menu.
#[derive(Clone, Copy, Debug, PartialEq, Eq, Structural)]
pub enum SignAction {
    SignUp,
    SignIn,
    Exit,
}

impl SignAction {
    /// The caption the menu shows for this entry.
    pub fn label(&self) -> (m: String)
        ensures
            self is SignUp ==> m@ == "SignUp"@,
            self is SignIn ==> m@ == "SignIn"@,
            self is Exit ==> m@ == "Exit"@,
    {
        match self {
            SignAction::SignUp => String::from_str("SignUp"),
            SignAction::SignIn => String::from_str("SignIn"),
            SignAction::Exit => String::from_str("Exit"),
        }
    }

    /// Every entry, in the order the menu offers them.
    pub fn all_actions() -> (v: Vec<SignAction>)
        ensures
            v@ == seq![SignAction::SignUp, SignAction::SignIn, SignAction::Exit],
    {
        let mut v: Vec<SignAction> = Vec::new();
        v.push(SignAction::SignUp);
        v.push(SignAction::SignIn);
        v.push(SignAction::Exit);
        proof {
            assert(v@ =~= seq![SignAction::SignUp, SignAction::SignIn, SignAction::Exit]);
        }
        v
    }
}

/// What the authentication flow concludes with: the response of the call
/// the picked entry led to, or exit.
pub enum ActionResult {
    SignUp(SignUpResponse),
    SignIn(Credential),
    Exit,
}

impl ActionResult {
    /// The conclusion reached for a picked entry, given the response of the
    /// call that entry led to; the picked entry alone decides which call
    /// was made and which variant carries its response.
    pub fn conclude(
        action: SignAction,
        sign_up: Option<SignUpResponse>,
        sign_in: Option<Credential>,
    ) -> (r: ActionResult)
        requires
            action is SignUp ==> sign_up is Some,
            action is SignIn ==> sign_in is Some,
        ensures
            action is SignUp ==> (r matches ActionResult::SignUp(res) && Some(res) == sign_up),
            action is SignIn ==> (r matches ActionResult::SignIn(res) && Some(res) == sign_in),
            action is Exit ==> r is Exit,
    {
        match action {
            SignAction::SignUp => ActionResult::SignUp(sign_up.unwrap()),
            SignAction::SignIn => ActionResult::SignIn(sign_in.unwrap()),
            SignAction::Exit => ActionResult::Exit,
        }
    }
}

} // verus!
