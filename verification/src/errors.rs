use vstd::prelude::*;

verus! {

/// The protocol library's error type. It crosses this crate's
/// functions opaquely and is mapped to the crate's own error values in
/// verified code.
#[verifier::external_type_specification]
#[verifier::external_body]
pub struct ExRdpError(rdp::model::error::Error);

/// Why a connect attempt failed. No session is registered on any of these.
#[derive(Clone, Copy, PartialEq, Eq, Structural, Debug)]
pub enum ConnectError {
    /// The transport connection to the server could not be opened.
    Transport,
    /// The protocol handshake or authentication was rejected.
    Handshake,
    /// The requested handle already names a live session; a second
    /// session is never created for it (registration is rejected, not
    /// treated as an overwrite).
    HandleInUse,
}

/// A registry operation named a handle with no live session: it was
/// never connected, already closed, or closed by a concurrent caller.
/// The operation degrades to a no-op.
#[derive(Clone, Copy, PartialEq, Eq, Structural, Debug)]
pub enum SessionError {
    UnknownSession,
}

/// Why sending an input event failed. Reported to the caller of that
/// write, never swallowed.
#[derive(Clone, Copy, PartialEq, Eq, Structural, Debug)]
pub enum WriteError {
    /// The transport rejected the outbound frame.
    Transport,
}

/// Why an incoming bitmap event could not be decoded. Non-fatal: the
/// read pump logs it and continues.
#[derive(Clone, Copy, PartialEq, Eq, Structural, Debug)]
pub enum DecodeError {
    /// The bitmap's colour depth is neither 16 nor 32 bits per pixel.
    Unsupported,
    /// The bitmap's declared dimensions and payload do not fit
    /// together — the payload is too short, the dimensions exceed what
    /// the decoder's arithmetic handles, or a run-length stream
    /// contradicts them in a way the decoder would not survive.
    Malformed,
    /// The run-length-encoded payload could not be decompressed.
    Corrupt,
}

} // verus!
