use vstd::prelude::*;
use std::collections::HashMap;
use crate::errors::{ConnectError, SessionError};

verus! {

broadcast use vstd::std_specs::hash::group_hash_axioms;

/// The session registry: a mapping from opaque 64-bit handles to live
/// sessions. A handle is present exactly while a connect has succeeded
/// for it and no close has completed. The registry owns no I/O of its
/// own; the session payload is whatever the caller stores per handle.
pub struct Registry<T> {
    sessions: HashMap<i64, T>,
}

impl<T> View for Registry<T> {
    type V = Map<i64, T>;

    closed spec fn view(&self) -> Map<i64, T> {
        self.sessions@
    }
}

impl<T> Registry<T> {
    /// A fresh registry with no live sessions.
    pub fn new() -> (r: Registry<T>)
        ensures
            r@ == Map::<i64, T>::empty(),
    {
        Registry { sessions: HashMap::new() }
    }

    /// How many sessions are live.
    pub fn len(&self) -> (n: usize)
        ensures
            n == self@.len(),
    {
        self.sessions.len()
    }

    /// Inserts a session under a handle. A handle that is already live
    /// is rejected, never overwritten: at most one session ever exists
    /// per handle, and a racing second registration cannot displace it.
    pub fn register_client(&mut self, handle: i64, session: T) -> (r: Result<(), ConnectError>)
        ensures
            old(self)@.contains_key(handle) ==> r == Err::<(), ConnectError>(
                ConnectError::HandleInUse,
            ) && *final(self) == *old(self),
            !old(self)@.contains_key(handle) ==> r is Ok && final(self)@ == old(self)@.insert(
                handle,
                session,
            ),
    {
        if self.sessions.contains_key(&handle) {
            Err(ConnectError::HandleInUse)
        } else {
            self.sessions.insert(handle, session);
            Ok(())
        }
    }

    /// Removes the session registered under a handle, if any. Removing
    /// an unknown handle is a no-op.
    pub fn unregister_client(&mut self, handle: i64)
        ensures
            final(self)@ == old(self)@.remove(handle),
    {
        self.sessions.remove(&handle);
    }

    /// Looks the handle up and hands out the session registered under
    /// it. An unknown handle reports `UnknownSession` and touches
    /// nothing: a lookup racing with a close degrades gracefully.
    pub fn with_client(&self, handle: i64) -> (r: Result<&T, SessionError>)
        ensures
            match r {
                Ok(session) => self@.contains_key(handle) && *session == self@[handle],
                Err(e) => !self@.contains_key(handle) && e == SessionError::UnknownSession,
            },
    {
        match self.sessions.get(&handle) {
            Some(session) => Ok(session),
            None => Err(SessionError::UnknownSession),
        }
    }
}

/// Unknown handles are inert: removing a handle that is not live
/// leaves the registry exactly as it was, so a close aimed at a
/// never-connected or already-closed handle is a no-op.
pub proof fn lemma_unknown_handle_is_noop<T>(m: Map<i64, T>, handle: i64)
    requires
        !m.contains_key(handle),
    ensures
        m.remove(handle) == m,
{
    assert(m.remove(handle) =~= m);
}

/// Registration is exclusive: registering a fresh handle makes exactly
/// that one session live under it, and every other handle keeps
/// whatever it had, so no two live sessions ever share a handle.
pub proof fn lemma_register_exclusive<T>(m: Map<i64, T>, handle: i64, session: T)
    requires
        !m.contains_key(handle),
    ensures
        m.insert(handle, session).contains_key(handle),
        m.insert(handle, session)[handle] == session,
        forall|other: i64|
            other != handle ==> (#[trigger] m.insert(handle, session).contains_key(other)
                <==> m.contains_key(other)),
        forall|other: i64|
            other != handle && m.contains_key(other) ==> #[trigger] m.insert(
                handle,
                session,
            )[other] == m[other],
{
}

/// A closed handle is unknown at once: after the handle is removed, no
/// session is registered under it, so any later operation on it must
/// observe the unknown-session condition, whichever thread issues it.
pub proof fn lemma_close_makes_unknown<T>(m: Map<i64, T>, handle: i64)
    ensures
        !m.remove(handle).contains_key(handle),
{
}

} // verus!
