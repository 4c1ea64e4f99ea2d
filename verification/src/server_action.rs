//! The server menu of the prompt-driven flow: list the chat servers, create
//! one, or exit. The prompts, the listing and the remote calls are the
//! host's; fixed here are the menu's entries, their captions, and the
//! record the creation branch submits.

use vstd::prelude::*;
use vstd::string::StringExecFns;

use crate::model::Server;

verus! {

/// One entry of the server menu.
#[derive(Clone, Copy, Debug, PartialEq, Eq, Structural)]
pub enum ServerAction {
    List,
    Create,
    Exit,
}

impl ServerAction {
    /// The caption the menu shows for this entry.
    pub fn label(&self) -> (m: String)
        ensures
            self is List ==> m@ == "List"@,
            self is Create ==> m@ == "Create"@,
            self is Exit ==> m@ == "Exit"@,
    {
        match self {
            ServerAction::List => String::from_str("List"),
            ServerAction::Create => String::from_str("Create"),
            ServerAction::Exit => String::from_str("Exit"),
        }
    }

    /// Every entry, in the order the menu offers them.
    pub fn all_actions() -> (v: Vec<ServerAction>)
        ensures
            v@ == seq![ServerAction::List, ServerAction::Create, ServerAction::Exit],
    {
        let mut v: Vec<ServerAction> = Vec::new();
        v.push(ServerAction::List);
        v.push(ServerAction::Create);
        v.push(ServerAction::Exit);
        proof {
            assert(v@ =~= seq![ServerAction::List, ServerAction::Create, ServerAction::Exit]);
        }
        v
    }

    /// Whether picking this entry ends the menu loop; the other entries
    /// perform their branch, then the menu is offered again.
    pub fn ends_loop(&self) -> (r: bool)
        ensures
            r == (*self is Exit),
    {
        match self {
            ServerAction::Exit => true,
            _ => false,
        }
    }
}

/// The record the server-creation branch submits: the two prompted fields,
/// and everything else empty — the backend assigns the name and timestamps.
pub fn build_server_record(display_name: String, description: String) -> (s: Server)
    ensures
        s.name@.len() == 0,
        s.display_name == display_name,
        s.description == description,
        s.icon is None,
        s.categories@.len() == 0,
        s.channels@.len() == 0,
        s.create_time is None,
        s.update_time is None,
{
    Server {
        name: String::new(),
        display_name,
        description,
        icon: None,
        categories: Vec::new(),
        channels: Vec::new(),
        create_time: None,
        update_time: None,
    }
}

} // verus!
