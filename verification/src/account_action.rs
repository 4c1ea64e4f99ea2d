//! The account menu of the prompt-driven flow: change the password, delete
//! the account, or exit. The prompts and the remote calls are the host's;
//! fixed here are the menu's entries, their captions, and which call each
//! entry leads to.

use vstd::prelude::*;
use vstd::string::StringExecFns;

verus! {

/// One entry of the account menu.
#[derive(Clone, Copy, Debug, PartialEq, Eq, Structural)]
pub enum AccountAction {
    UpdatePassword,
    DeleteAccount,
    Exit,
}

impl AccountAction {
    /// The caption the menu shows for this entry.
    pub fn label(&self) -> (m: String)
        ensures
            self is UpdatePassword ==> m@ == "UpdatePassword"@,
            self is DeleteAccount ==> m@ == "DeleteAccount"@,
            self is Exit ==> m@ == "Exit"@,
    {
        match self {
            AccountAction::UpdatePassword => String::from_str("UpdatePassword"),
            AccountAction::DeleteAccount => String::from_str("DeleteAccount"),
            AccountAction::Exit => String::from_str("Exit"),
        }
    }

    /// Every entry, in the order the menu offers them.
    pub fn all_actions() -> (v: Vec<AccountAction>)
        ensures
            v@ == seq![
                AccountAction::UpdatePassword,
                AccountAction::DeleteAccount,
                AccountAction::Exit,
            ],
    {
        let mut v: Vec<AccountAction> = Vec::new();
        v.push(AccountAction::UpdatePassword);
        v.push(AccountAction::DeleteAccount);
        v.push(AccountAction::Exit);
        proof {
            assert(v@ =~= seq![
                AccountAction::UpdatePassword,
                AccountAction::DeleteAccount,
                AccountAction::Exit,
            ]);
        }
        v
    }

    /// Whether picking this entry ends the menu loop; the other entries
    /// prompt for their inputs and perform their call, then the menu is
    /// offered again.
    pub fn ends_loop(&self) -> (r: bool)
        ensures
            r == (*self is Exit),
    {
        match self {
            AccountAction::Exit => true,
            _ => false,
        }
    }
}

} // verus!
