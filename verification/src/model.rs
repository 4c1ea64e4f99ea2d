//! Client-side models of the resource payloads the backend exchanges. The
//! wire schema is an external contract; these records carry, as plain
//! values, exactly what the client logic reads and writes, and everything
//! else passes through unaltered.

use vstd::prelude::*;
use vstd::string::StringExecFns;

verus! {

/// The resource name under which a user record is created or updated: the
/// `user/` collection prefix followed by the user's id.
pub open spec fn user_resource_name_spec(user_id: Seq<char>) -> Seq<char> {
    seq!['u', 's', 'e', 'r', '/'] + user_id
}

pub fn user_resource_name(user_id: &str) -> (r: String)
    ensures
        r@ == user_resource_name_spec(user_id@),
{
    let mut s = String::from_str("user/");
    proof {
        reveal_strlit("user/");
        assert(s@ =~= seq!['u', 's', 'e', 'r', '/']);
    }
    s.append(user_id);
    proof {
        assert(s@ =~= user_resource_name_spec(user_id@));
    }
    s
}

/// A point in time as the wire schema carries it; the client never computes
/// with it, only passes it through.
#[derive(Clone, Copy, Debug, PartialEq, Eq)]
pub struct Timestamp {
    pub seconds: i64,
    pub nanos: i32,
}

/// A user record: the profile the backend stores for an account.
#[derive(Debug)]
pub struct User {
    pub name: String,
    pub display_name: String,
    pub description: String,
    pub avatar: Option<String>,
    pub region_code: Option<String>,
    pub language_code: Option<String>,
    pub time_zone: Option<String>,
    pub create_time: Option<Timestamp>,
    pub update_time: Option<Timestamp>,
}

impl Clone for User {
    fn clone(&self) -> (r: Self)
        ensures
            r == *self,
    {
        let r = User {
            name: self.name.clone(),
            display_name: self.display_name.clone(),
            description: self.description.clone(),
            avatar: self.avatar.clone(),
            region_code: self.region_code.clone(),
            language_code: self.language_code.clone(),
            time_zone: self.time_zone.clone(),
            create_time: self.create_time,
            update_time: self.update_time,
        };
        proof {
            lemma_option_string_clone(self.avatar, r.avatar);
            lemma_option_string_clone(self.region_code, r.region_code);
            lemma_option_string_clone(self.language_code, r.language_code);
            lemma_option_string_clone(self.time_zone, r.time_zone);
        }
        r
    }
}

/// A clone of an optional string is the same optional string: `String`'s
/// clone returns an equal string, and `None` clones to `None`.
proof fn lemma_option_string_clone(a: Option<String>, b: Option<String>)
    requires
        a is Some <==> b is Some,
        a is Some ==> cloned::<String>(a->0, b->0),
    ensures
        a == b,
{
}

/// What a successful registration returns. The client stores and inspects
/// nothing of it: registration does not authenticate.
#[derive(Clone, Copy, Debug, PartialEq, Eq, Structural)]
pub struct SignUpResponse {}

/// A chat server record, as built by the server-creation flow; every field
/// beyond the two the user enters starts empty.
#[derive(Debug)]
pub struct Server {
    pub name: String,
    pub display_name: String,
    pub description: String,
    pub icon: Option<String>,
    pub categories: Vec<String>,
    pub channels: Vec<String>,
    pub create_time: Option<Timestamp>,
    pub update_time: Option<Timestamp>,
}

} // verus!
