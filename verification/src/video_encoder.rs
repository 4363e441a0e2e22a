//! The video encoder device.
//!
//! Encoding is not implemented: the encoder accepts no command and
//! raises no event, reporting an unsupported-operation error for every
//! command, so there is no encoder state to keep.

use vstd::prelude::*;

verus! {

/// Errors the video subsystem reports.
#[derive(Debug, Clone, Copy, PartialEq, Eq, Structural)]
pub enum VideoError {
    /// The requested operation is not supported.
    InvalidOperation,
}

/// A response the encoder would raise on an event; the encoder never
/// produces one.
#[derive(Debug, Clone, Copy, PartialEq, Eq, Structural)]
pub struct VideoEvtResponse;

/// The (stateless) encoder device.
pub struct Encoder;

impl Encoder {
    /// Creates an encoder.
    pub fn new() -> Encoder {
        Encoder {}
    }

    /// Processes one command: every command is refused as unsupported.
    pub fn process_cmd(&mut self) -> (r: Result<(), VideoError>)
        ensures
            r == Err::<(), VideoError>(VideoError::InvalidOperation),
    {
        Err(VideoError::InvalidOperation)
    }

    /// Handles an event descriptor becoming ready: the encoder has
    /// none, so no responses are raised.
    pub fn process_event_fd(&mut self, _stream_id: u32) -> (r: Option<Vec<VideoEvtResponse>>)
        ensures
            (r is None),
    {
        None
    }

    /// The resource whose end-of-stream the device should notify;
    /// the encoder tracks none.
    pub fn take_resource_id_to_notify_eos(&mut self, _stream_id: u32) -> (r: Option<u32>)
        ensures
            (r is None),
    {
        None
    }
}

} // verus!
