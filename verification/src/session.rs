use vstd::prelude::*;
use crate::errors::{ConnectError, WriteError};
use crate::registry::Registry;

verus! {

/// Completes a connect attempt: a rejected handshake is reported as a
/// handshake failure and nothing is registered; a session that came
/// back is registered under the handle unless the handle is already
/// live, in which case the new session is dropped and the collision
/// reported. Exactly a successful, fresh registration returns `Ok`.
pub fn finish_connect<T>(
    registry: &mut Registry<T>,
    handle: i64,
    handshake: Result<T, rdp::model::error::Error>,
) -> (r: Result<(), ConnectError>)
    ensures
        handshake is Err ==> r == Err::<(), ConnectError>(ConnectError::Handshake)
            && final(registry)@ == old(registry)@,
        handshake is Ok && old(registry)@.contains_key(handle) ==> r == Err::<(), ConnectError>(
            ConnectError::HandleInUse,
        ) && final(registry)@ == old(registry)@,
        handshake is Ok && !old(registry)@.contains_key(handle) ==> r is Ok && final(registry)@
            == old(registry)@.insert(handle, handshake.unwrap()),
{
    match handshake {
        Ok(session) => registry.register_client(handle, session),
        Err(_) => Err(ConnectError::Handshake),
    }
}

/// Maps the transport's answer to one outbound input event into the
/// write path's result: a frame the transport accepted succeeds, a
/// frame it rejected is surfaced to that caller as a transport
/// failure — never swallowed.
pub fn write_outcome(sent: Result<(), rdp::model::error::Error>) -> (r: Result<(), WriteError>)
    ensures
        sent is Ok <==> r is Ok,
        sent is Err ==> r == Err::<(), WriteError>(WriteError::Transport),
{
    match sent {
        Ok(()) => Ok(()),
        Err(_) => Err(WriteError::Transport),
    }
}

} // verus!
