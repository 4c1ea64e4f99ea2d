//! The credential handed back by a successful sign-in, and the authorization
//! value the request pipeline attaches to every outgoing call.

use vstd::prelude::*;
use vstd::string::StrSliceExecFns;
use vstd::string::StringExecFns;

verus! {

/// A bearer credential: the subject identity and access token established at
/// sign-in. The session holds at most one of these; every resource client
/// attaches it to its outgoing calls.
pub struct Credential {
    pub user_id: String,
    pub access_token: String,
}

/// Mathematical content of a [`Credential`]: both fields as character
/// sequences.
#[verifier::ext_equal]
pub struct CredentialView {
    pub user_id: Seq<char>,
    pub access_token: Seq<char>,
}

impl View for Credential {
    type V = CredentialView;

    open spec fn view(&self) -> CredentialView {
        CredentialView { user_id: self.user_id@, access_token: self.access_token@ }
    }
}

impl Clone for Credential {
    fn clone(&self) -> (r: Self)
        ensures
            r == *self,
    {
        Credential { user_id: self.user_id.clone(), access_token: self.access_token.clone() }
    }
}

/// The view of the unauthenticated sentinel: no identity, no token.
pub open spec fn unauthenticated_view() -> CredentialView {
    CredentialView { user_id: Seq::<char>::empty(), access_token: Seq::<char>::empty() }
}

impl Credential {
    /// True of the unauthenticated sentinel: no identity, no token.
    pub open spec fn is_unauthenticated(self) -> bool {
        self.user_id@.len() == 0 && self.access_token@.len() == 0
    }

    pub fn new(user_id: String, access_token: String) -> (c: Self)
        ensures
            c.user_id == user_id,
            c.access_token == access_token,
    {
        Credential { user_id, access_token }
    }

    /// The sentinel a reader observes while no credential is held. The
    /// pipeline still formats an authorization value from it (an empty
    /// token); the backend alone rejects unauthenticated calls.
    pub fn unauthenticated() -> (c: Self)
        ensures
            c.is_unauthenticated(),
            c@ == unauthenticated_view(),
    {
        let c = Credential { user_id: String::new(), access_token: String::new() };
        proof {
            assert(c@ =~= unauthenticated_view());
        }
        c
    }
}

/// The characters the metadata parse accepts in an authorization value:
/// horizontal tab, or anything at or above the space except delete. This is
/// the header-value rule — every byte from 32 up but 127 is permitted, and
/// tab — lifted to characters: each encoded byte of a character beyond
/// delete lies above 127 and so passes.
pub open spec fn is_header_char(c: char) -> bool {
    c as int == 9 || (32 <= c as int && c as int != 127)
}

/// True when every character of `s` passes the metadata parse.
pub open spec fn is_header_value(s: Seq<char>) -> bool {
    forall|i: int| 0 <= i < s.len() ==> is_header_char(#[trigger] s[i])
}

/// The scheme prefix of an authorization value: `Bearer` and a space.
pub open spec fn bearer_prefix() -> Seq<char> {
    seq!['B', 'e', 'a', 'r', 'e', 'r', ' ']
}

/// The authorization value formatted from a token: the bearer scheme prefix
/// followed by the token, unaltered.
pub open spec fn bearer_value(token: Seq<char>) -> Seq<char> {
    bearer_prefix() + token
}

pub fn char_is_header_safe(c: char) -> (r: bool)
    ensures
        r == is_header_char(c),
{
    let u = c as u32;
    u == 9 || (32 <= u && u != 127)
}

/// Whether `s` can be carried whole in a metadata value.
pub fn str_is_header_safe(s: &str) -> (r: bool)
    ensures
        r == is_header_value(s@),
{
    let n = s.unicode_len();
    let mut i: usize = 0;
    while i < n
        invariant
            n == s@.len(),
            0 <= i <= n,
            forall|j: int| 0 <= j < i ==> is_header_char(#[trigger] s@[j]),
        decreases n - i,
    {
        if !char_is_header_safe(s.get_char(i)) {
            proof {
                assert(!is_header_char(s@[i as int]));
            }
            return false;
        }
        i = i + 1;
    }
    true
}

/// The authorization value the pipeline attaches to an outgoing call,
/// formatted from a token: `Bearer`, a space, then the token unaltered.
pub fn format_bearer(token: &str) -> (r: String)
    ensures
        r@ == bearer_value(token@),
{
    let mut s = String::from_str("Bearer ");
    proof {
        reveal_strlit("Bearer ");
        assert(s@ =~= bearer_prefix());
    }
    s.append(token);
    proof {
        assert(s@ =~= bearer_value(token@));
    }
    s
}

} // verus!
