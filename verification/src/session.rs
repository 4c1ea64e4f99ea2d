//! Session state: the shared holder of the current credential.
//!
//! [`SessionState`] is the sequential model — at most one [`Credential`], or
//! none — with exact contracts on every operation. [`Session`] wraps it in a
//! verified reader-writer lock so that it can be read and replaced from
//! multiple call sites at once: each operation acquires the lock, copies the
//! whole value, and releases before returning, so a reader is never
//! serialized behind another caller's network round-trip and never observes
//! a partially replaced credential.

use vstd::prelude::*;
use vstd::rwlock::RwLock;
use vstd::rwlock::RwLockPredicate;

use crate::credential::Credential;
use crate::credential::CredentialView;

verus! {

/// At most one credential, or none while unauthenticated. Created empty at
/// startup; replaced wholesale on sign-in; cleared on sign-out.
pub struct SessionState {
    pub cred: Option<Credential>,
}

/// What a reader of a given session state observes: the whole credential the
/// state holds, or the unauthenticated sentinel (empty identity and token).
pub open spec fn observed_view(s: SessionState) -> CredentialView {
    match s.cred {
        Some(c) => c@,
        None => crate::credential::unauthenticated_view(),
    }
}

impl SessionState {
    pub fn new() -> (s: Self)
        ensures
            s.cred is None,
    {
        SessionState { cred: None }
    }

    /// Copy the current credential out, or the sentinel when none is held.
    pub fn get(&self) -> (c: Credential)
        ensures
            c@ == observed_view(*self),
            self.cred is Some ==> c == self.cred->0,
    {
        match &self.cred {
            Some(c) => c.clone(),
            None => Credential::unauthenticated(),
        }
    }

    /// Replace the held value wholesale.
    pub fn set(&mut self, c: Credential)
        ensures
            final(self).cred == Some(c),
    {
        self.cred = Some(c);
    }

    /// Remove the held value; readers observe the sentinel until the next
    /// `set`.
    pub fn clear(&mut self)
        ensures
            final(self).cred is None,
    {
        self.cred = None;
    }
}

/// One mutation of the session: wholesale replacement, or removal.
pub enum SessionOp {
    Replace(Credential),
    Clear,
}

/// The value held after one mutation of `cur`.
pub open spec fn session_step(cur: Option<Credential>, op: SessionOp) -> Option<Credential> {
    match op {
        SessionOp::Replace(c) => Some(c),
        SessionOp::Clear => None,
    }
}

/// The value held after a sequence of mutations, applied in order.
pub open spec fn session_after(
    initial: Option<Credential>,
    ops: Seq<SessionOp>,
) -> Option<Credential>
    decreases ops.len(),
{
    if ops.len() == 0 {
        initial
    } else {
        session_step(session_after(initial, ops.drop_last()), ops.last())
    }
}

/// A read issued strictly after a `clear` and before the next `set` observes
/// the unauthenticated sentinel, never a stale token: after any mutation
/// sequence with a `clear` at position `i` and no later `set`, no credential
/// is held, so the observation is the sentinel.
pub proof fn lemma_cleared_until_next_set(
    initial: Option<Credential>,
    ops: Seq<SessionOp>,
    i: int,
)
    requires
        0 <= i < ops.len(),
        ops[i] is Clear,
        forall|j: int| i < j < ops.len() ==> !(ops[j] is Replace),
    ensures
        session_after(initial, ops) is None,
        observed_view(SessionState { cred: session_after(initial, ops) })
            == observed_view(SessionState { cred: None }),
{
    if i < ops.len() - 1 {
        assert(!(ops[ops.len() - 1] is Replace));
    }
}

/// No torn reads: an observation is a function of one session state and
/// yields that state's credential in full. A concurrent `get` overlapping a
/// `set` runs under one read-lock acquisition, so it sees exactly one of the
/// two states involved — and of either it observes the whole credential,
/// never a mixture of the old and the new one.
pub proof fn lemma_no_torn_read(old_cred: Credential, new_cred: Credential, s: SessionState)
    requires
        s.cred == Some(old_cred) || s.cred == Some(new_cred),
    ensures
        observed_view(s) == old_cred@ || observed_view(s) == new_cred@,
{
}

/// The invariant configured on the session's lock: any state may be held.
pub struct SessionPred;

impl RwLockPredicate<SessionState> for SessionPred {
    open spec fn inv(self, v: SessionState) -> bool {
        true
    }
}

/// The shared session holder: a verified reader-writer lock around
/// [`SessionState`]. Mutation is atomic with respect to concurrent readers;
/// a reader copies the whole value out and releases the lock at once.
pub struct Session {
    lock: RwLock<SessionState, SessionPred>,
}

impl Session {
    /// An empty session: no credential until the first sign-in.
    pub fn new() -> Session {
        Session {
            lock: RwLock::<SessionState, SessionPred>::new(SessionState::new(), Ghost(SessionPred)),
        }
    }

    /// Copy the current credential out under a brief read lock — or the
    /// unauthenticated sentinel while none is held. The lock is released
    /// before this returns, never held across a remote call.
    pub fn get(&self) -> (c: Credential) {
        let handle = self.lock.acquire_read();
        let c = handle.borrow().get();
        handle.release_read();
        c
    }

    /// Atomically replace the held credential wholesale; issued only on
    /// sign-in success.
    pub fn set(&self, c: Credential) {
        let (_prev, handle) = self.lock.acquire_write();
        handle.release_write(SessionState { cred: Some(c) });
    }

    /// Atomically remove the held credential; issued only on sign-out.
    pub fn clear(&self) {
        let (_prev, handle) = self.lock.acquire_write();
        handle.release_write(SessionState { cred: None });
    }
}

} // verus!
