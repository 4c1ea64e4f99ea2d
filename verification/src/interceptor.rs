//! The credential-injecting layer of the request pipeline: from the current
//! credential it formats the authorization value that is attached to every
//! outgoing call before the call is delegated, unchanged, to the underlying
//! channel. The delegation itself — and the channel — live with the host
//! binary; what is verified here is everything the layer computes.

use vstd::prelude::*;
use vstd::string::StringExecFns;

use crate::credential::bearer_value;
use crate::credential::format_bearer;
use crate::credential::is_header_value;
use crate::credential::str_is_header_safe;
use crate::credential::Credential;
use crate::session::Session;

verus! {

/// Why a credential could not be injected into a request.
#[derive(Clone, Copy, Debug, PartialEq, Eq)]
pub enum CredentialError {
    /// The access token holds a character the metadata parse rejects: a
    /// control character below the space, or delete.
    TokenNotHeaderSafe,
}

impl CredentialError {
    /// The text this error surfaces as.
    pub fn message(&self) -> (m: String)
        ensures
            m@ == "jwt token error"@,
    {
        "jwt token error".to_owned()
    }
}

/// A per-client interceptor holding the credential that was copied out when
/// the client was constructed; later credential swaps do not affect it.
pub struct AuthInterceptor {
    pub sign_in_res: Credential,
}

impl AuthInterceptor {
    pub fn new(sign_in_res: Credential) -> (s: Self)
        ensures
            s.sign_in_res == sign_in_res,
    {
        Self { sign_in_res }
    }

    /// The authorization value this interceptor attaches to a request: the
    /// bearer-formatted token, or an error exactly when the token would not
    /// parse as a metadata value.
    pub fn authorization_value(&self) -> (r: Result<String, CredentialError>)
        ensures
            match r {
                Ok(v) => is_header_value(self.sign_in_res.access_token@) && v@ == bearer_value(
                    self.sign_in_res.access_token@,
                ),
                Err(e) => !is_header_value(self.sign_in_res.access_token@) && e
                    == CredentialError::TokenNotHeaderSafe,
            },
    {
        if str_is_header_safe(self.sign_in_res.access_token.as_str()) {
            Ok(format_bearer(self.sign_in_res.access_token.as_str()))
        } else {
            Err(CredentialError::TokenNotHeaderSafe)
        }
    }
}

/// The authorization value for the next outgoing call: the current
/// credential is copied out of the session — briefly, under a read lock —
/// and formatted. While unauthenticated this still yields a value, with an
/// empty token; the backend alone rejects such calls.
pub fn outgoing_authorization(session: &Session) -> (r: String)
    ensures
        exists|token: Seq<char>| r@ == bearer_value(token),
{
    let cred = session.get();
    let r = format_bearer(cred.access_token.as_str());
    proof {
        assert(r@ == bearer_value(cred.access_token@));
    }
    r
}

/// Inject the session's credential into a request's header list: exactly
/// one `authorization` entry is appended, formatted from the credential one
/// brief session read observed, and the entries already present pass
/// through unchanged and in order. Nothing is validated and nothing is
/// short-circuited here, also while unauthenticated: rejecting such calls
/// is the backend's alone.
pub fn inject_authorization(headers: &mut Vec<(String, String)>, session: &Session)
    ensures
        final(headers)@.len() == old(headers)@.len() + 1,
        forall|i: int| 0 <= i < old(headers)@.len() ==> final(headers)@[i] == old(headers)@[i],
        final(headers)@.last().0@ == "authorization"@,
        exists|token: Seq<char>| final(headers)@.last().1@ == bearer_value(token),
{
    let value = outgoing_authorization(session);
    headers.push((String::from_str("authorization"), value));
}

} // verus!
