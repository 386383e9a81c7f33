use vstd::prelude::*;
use crate::bitmap::{decode_failure, decoded_pixels, Bitmap, BitmapEvent, decode_bitmap};
use crate::errors::DecodeError;
use crate::events::{KeyboardEvent, PointerEvent};

verus! {

/// One event decoded from the session's incoming stream.
pub enum ProtocolEvent {
    /// A region of the remote display to paint.
    Bitmap(BitmapEvent),
    /// An inbound pointer event. Host-originated input flows the other
    /// way, so this is informational only.
    Pointer(PointerEvent),
    /// An inbound keyboard event; informational only, as above.
    Key(KeyboardEvent),
}

/// What the read pump does with one decoded event.
pub enum EventStep {
    /// Hand this bitmap — destination rectangle and decoded pixel
    /// bytes — to the caller's sink, for the duration of that one
    /// call.
    Deliver(Bitmap),
    /// Surface this inbound pointer event as a diagnostic observation;
    /// nothing reaches the sink.
    ObservePointer(PointerEvent),
    /// Surface this inbound keyboard event as a diagnostic
    /// observation; nothing reaches the sink.
    ObserveKey(KeyboardEvent),
    /// The event's payload did not decode. Non-fatal: the pump logs it
    /// and goes on.
    Reject(DecodeError),
}

/// Turns one decoded protocol event into the pump's action on it: a
/// bitmap is decoded (decompressed where needed) and delivered, or
/// rejected exactly when its payload does not decode; inbound pointer
/// and keyboard events are only observed.
pub fn process_event(event: ProtocolEvent) -> (step: EventStep)
    ensures
        match event {
            ProtocolEvent::Bitmap(b) => match step {
                EventStep::Deliver(bm) => {
                    &&& decoded_pixels(b) == Some(bm.data@)
                    &&& bm.dest_left == b.dest_left
                    &&& bm.dest_top == b.dest_top
                    &&& bm.dest_right == b.dest_right
                    &&& bm.dest_bottom == b.dest_bottom
                },
                EventStep::Reject(e) => decoded_pixels(b) is None && e == decode_failure(b),
                _ => false,
            },
            ProtocolEvent::Pointer(p) => step == EventStep::ObservePointer(p),
            ProtocolEvent::Key(k) => step == EventStep::ObserveKey(k),
        },
{
    match event {
        ProtocolEvent::Bitmap(b) => match decode_bitmap(b) {
            Ok(bm) => EventStep::Deliver(bm),
            Err(e) => EventStep::Reject(e),
        },
        ProtocolEvent::Pointer(p) => EventStep::ObservePointer(p),
        ProtocolEvent::Key(k) => EventStep::ObserveKey(k),
    }
}

/// How one read step on a session ended.
#[derive(Clone, Copy, PartialEq, Eq, Structural, Debug)]
pub enum ReadStatus {
    /// The step decoded its batch of events.
    Progress,
    /// The peer closed the session in an orderly way.
    Disconnected,
    /// The step failed some other way; non-fatal by policy.
    Failed,
}

/// Whether the read pump runs another iteration.
#[derive(Clone, Copy, PartialEq, Eq, Structural, Debug)]
pub enum PumpStatus {
    /// Wait for readiness again and run the next read step.
    Continue,
    /// The pump ends; the sink receives no further calls.
    Terminate,
}

/// Whether a protocol-library error value signals the peer's orderly
/// disconnect — a function of the error value alone, read off its
/// variant and kind.
pub uninterp spec fn disconnect_error(e: rdp::model::error::Error) -> bool;

/// Relies on the protocol library's error type: reads which variant
/// the error is and, for a protocol error, whether its kind is the
/// orderly-disconnect kind; nothing else. The variant and the kind are
/// plain data of the value, so the answer depends on it alone.
#[verifier::external_body]
fn error_is_disconnect(e: &rdp::model::error::Error) -> (r: bool)
    ensures
        r == disconnect_error(*e),
{
    match e {
        rdp::model::error::Error::RdpError(rdp_error) => rdp_error.kind()
            == rdp::model::error::RdpErrorKind::Disconnect,
        _ => false,
    }
}

/// Classifies the outcome of one read step. A step that returned its
/// batch made progress — exactly then. A failing step is an orderly
/// disconnect exactly when its error signals one, and some other,
/// non-fatal fault otherwise.
pub fn read_step_status(outcome: &Result<(), rdp::model::error::Error>) -> (s: ReadStatus)
    ensures
        outcome is Ok <==> s == ReadStatus::Progress,
        outcome is Err ==> s == ReadStatus::Disconnected || s == ReadStatus::Failed,
        (*outcome) matches Err(e) ==> (s == ReadStatus::Disconnected <==> disconnect_error(e)),
{
    match outcome {
        Ok(()) => ReadStatus::Progress,
        Err(e) => if error_is_disconnect(e) {
            ReadStatus::Disconnected
        } else {
            ReadStatus::Failed
        },
    }
}

/// The read pump's loop policy: the pump terminates exactly when the
/// readiness wait failed or the peer disconnected in an orderly way.
/// A step that made progress continues, and so does one that failed to
/// decode — decode faults are non-fatal, the pump retries at the next
/// readiness wait without backoff.
pub fn pump_decision(wait_ready: bool, status: ReadStatus) -> (d: PumpStatus)
    ensures
        d == PumpStatus::Terminate <==> !wait_ready || status == ReadStatus::Disconnected,
        d == PumpStatus::Continue <==> wait_ready && (status == ReadStatus::Progress || status
            == ReadStatus::Failed),
{
    if !wait_ready {
        PumpStatus::Terminate
    } else {
        match status {
            ReadStatus::Disconnected => PumpStatus::Terminate,
            _ => PumpStatus::Continue,
        }
    }
}

} // verus!
