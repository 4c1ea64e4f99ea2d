//! The user-record menu of the prompt-driven flow: get, create, update or
//! delete the signed-in user's record, or exit. The prompts and the remote
//! calls are the host's; fixed here are the menu's entries, their captions,
//! the case-insensitive parsing of an entry's name, and the record each
//! branch submits. The signed-in user's id is parsed as a ULID by the host
//! before the menu is offered — an id that does not parse ends the flow
//! there — so the id these branches receive is already in that form.

use vstd::prelude::*;
use vstd::string::StringExecFns;

use crate::model::user_resource_name_spec;
use crate::model::user_resource_name;
use crate::model::User;
use crate::text::lower_of;
use crate::text::lowercase;

verus! {

/// One entry of the user-record menu.
#[derive(Clone, Copy, Debug, PartialEq, Eq, Structural)]
pub enum UserAction {
    Get,
    Create,
    Update,
    Delete,
    Exit,
}

impl UserAction {
    /// The caption the menu shows for this entry.
    pub fn label(&self) -> (m: String)
        ensures
            self is Get ==> m@ == "get"@,
            self is Create ==> m@ == "create"@,
            self is Update ==> m@ == "update"@,
            self is Delete ==> m@ == "delete"@,
            self is Exit ==> m@ == "exit"@,
    {
        match self {
            UserAction::Get => String::from_str("get"),
            UserAction::Create => String::from_str("create"),
            UserAction::Update => String::from_str("update"),
            UserAction::Delete => String::from_str("delete"),
            UserAction::Exit => String::from_str("exit"),
        }
    }

    /// Every entry, in the order the menu offers them.
    pub fn all_actions() -> (v: Vec<UserAction>)
        ensures
            v@ == seq![
                UserAction::Get,
                UserAction::Create,
                UserAction::Update,
                UserAction::Delete,
                UserAction::Exit,
            ],
    {
        let mut v: Vec<UserAction> = Vec::new();
        v.push(UserAction::Get);
        v.push(UserAction::Create);
        v.push(UserAction::Update);
        v.push(UserAction::Delete);
        v.push(UserAction::Exit);
        proof {
            assert(v@ =~= seq![
                UserAction::Get,
                UserAction::Create,
                UserAction::Update,
                UserAction::Delete,
                UserAction::Exit,
            ]);
        }
        v
    }

    /// Parse an entry's name, case-insensitively: the input is lowercased
    /// and must then match one of the captions exactly.
    pub fn from_str(s: &str) -> (r: Result<UserAction, ()>)
        ensures
            match r {
                Ok(a) => {
                    &&& a is Get <==> lower_of(s@) == "get"@
                    &&& a is Create <==> lower_of(s@) == "create"@
                    &&& a is Update <==> lower_of(s@) == "update"@
                    &&& a is Delete <==> lower_of(s@) == "delete"@
                    &&& a is Exit <==> lower_of(s@) == "exit"@
                },
                Err(_) => {
                    &&& lower_of(s@) != "get"@
                    &&& lower_of(s@) != "create"@
                    &&& lower_of(s@) != "update"@
                    &&& lower_of(s@) != "delete"@
                    &&& lower_of(s@) != "exit"@
                },
            },
    {
        proof {
            reveal_strlit("get");
            reveal_strlit("create");
            reveal_strlit("update");
            reveal_strlit("delete");
            reveal_strlit("exit");
            assert("get"@.len() == 3);
            assert("exit"@.len() == 4);
            assert("create"@.len() == 6);
            assert("update"@.len() == 6);
            assert("delete"@.len() == 6);
            assert("create"@[0] == 'c');
            assert("update"@[0] == 'u');
            assert("delete"@[0] == 'd');
        }
        let lower = lowercase(s);
        if lower.eq(&String::from_str("get")) {
            Ok(UserAction::Get)
        } else if lower.eq(&String::from_str("create")) {
            Ok(UserAction::Create)
        } else if lower.eq(&String::from_str("update")) {
            Ok(UserAction::Update)
        } else if lower.eq(&String::from_str("delete")) {
            Ok(UserAction::Delete)
        } else if lower.eq(&String::from_str("exit")) {
            Ok(UserAction::Exit)
        } else {
            Err(())
        }
    }
}

/// The user record the create and update branches submit: its identity
/// derived from the signed-in user's id, the prompted profile fields, no
/// avatar and no timestamps.
pub fn build_user_record(
    user_id: &str,
    display_name: String,
    description: String,
    region_code: String,
    language_code: String,
    time_zone: String,
) -> (u: User)
    ensures
        u.name@ == user_resource_name_spec(user_id@),
        u.display_name == display_name,
        u.description == description,
        u.avatar is None,
        u.region_code == Some(region_code),
        u.language_code == Some(language_code),
        u.time_zone == Some(time_zone),
        u.create_time is None,
        u.update_time is None,
{
    User {
        name: user_resource_name(user_id),
        display_name,
        description,
        avatar: None,
        region_code: Some(region_code),
        language_code: Some(language_code),
        time_zone: Some(time_zone),
        create_time: None,
        update_time: None,
    }
}

} // verus!
