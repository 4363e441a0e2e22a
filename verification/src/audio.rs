//! Model of the host audio backend boundary.
//!
//! The engine reaches the host audio service through a stream source
//! chosen at construction: a discard-only null sink, or a connection to a
//! real audio server.  The wire protocol of the real server is outside
//! this crate; what the engine depends on — which backend was chosen,
//! whether capture is enabled, which capture effects to request, and
//! which file descriptors must survive a sandboxing transition — is held
//! here as plain data.

use vstd::prelude::*;

verus! {

/// An audio-processing effect requested when a capture stream is opened.
#[derive(Clone, Copy, Debug, PartialEq, Eq, Structural)]
pub enum StreamEffect {
    EchoCancellation,
    NoiseSuppression,
}

/// Which host audio service backs the stream source.
#[derive(Clone, Copy, Debug, PartialEq, Eq, Structural)]
pub enum SourceKind {
    /// Discard playback, capture silence.
    Null,
    /// A connection to the host audio server.
    Server,
}

/// A source of host audio streams.
pub struct StreamSource {
    /// The service backing this source.
    pub kind: SourceKind,
    /// Whether the source may open capture streams.
    pub capture_enabled: bool,
    /// Descriptors the connection needs preserved across a sandboxing
    /// transition; empty for the null backend.
    pub keep_fds: Vec<i32>,
}

impl StreamSource {
    /// Creates the discard-only null source, which needs no descriptors
    /// preserved.
    pub fn new_null() -> (r: StreamSource)
        ensures
            r.kind == SourceKind::Null,
            !r.capture_enabled,
            r.keep_fds@ == Seq::<i32>::empty(),
    {
        StreamSource { kind: SourceKind::Null, capture_enabled: false, keep_fds: Vec::new() }
    }

    /// Creates a source backed by the host audio server; `keep_fds` are
    /// the descriptors of its connection.
    pub fn new_server(capture_enabled: bool, keep_fds: Vec<i32>) -> (r: StreamSource)
        ensures
            r.kind == SourceKind::Server,
            r.capture_enabled == capture_enabled,
            r.keep_fds@ == keep_fds@,
    {
        StreamSource { kind: SourceKind::Server, capture_enabled, keep_fds }
    }
}

} // verus!
