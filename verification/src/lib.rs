//! A frame-accurate media playback engine core: per-stream decode contexts
//! with a single-slot cache, coarse and frame-exact seeking, lazy output
//! scaling for video, windowed loudness analysis for audio, and the binary
//! layout used to hand decoded buffers to a caller.

use vstd::prelude::*;

pub mod audio;
pub mod codec;
pub mod intensity;
pub mod model;
pub mod registry;
pub mod scale;
pub mod session;
pub mod video;

verus! {

/// The error taxonomy of the engine.
///
/// `EndOfStream` is deliberately absent: reaching the end of a stream is a
/// normal outcome of `advance`, reported as `Ok(false)`, not an error.
#[derive(Clone, Copy, Debug, PartialEq, Eq, Structural)]
pub enum MediaError {
    /// The registry holds no session under the given identifier.
    UnknownSession,
    /// The operation needs a stream kind that is absent or was never opened.
    NoSuchStream,
    /// The underlying data could not be decoded into a unit.
    DecodeFailure,
    /// A frame-exact seek ran past the end of the stream before reaching
    /// its target.
    SeekFailure,
    /// An invalid output geometry or an invalid stream index.
    ConfigurationError,
}

} // verus!
