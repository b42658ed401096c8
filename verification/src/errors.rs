use vstd::prelude::*;

verus! {

/// Caller-visible failure signals of the bridge.
///
/// Every failure mode of the underlying codecs, the stream callback and the
/// marshalling step maps to exactly one of these; end-of-stream is not among
/// them, since it is a normal result and is surfaced as an absent value
/// instead.
#[derive(Debug)]
pub enum CodecError {
    /// An operation was invoked with a zero or destroyed handle.
    ClosedHandle,
    /// The native encoder rejected its configuration; carries the status
    /// code of the failed initialization.
    InitializationFailure(i32),
    /// The decoder reported a failure other than end-of-stream; carries the
    /// underlying diagnostic text.
    NativeDecodeError(String),
    /// The native encode step reported a negative byte count.
    NativeEncodeError(i32),
    /// The caller's stream callback failed or was unavailable.
    StreamIOError(String),
    /// An allocation or copy across the boundary failed for reasons
    /// unrelated to codec logic.
    ArrayMarshallingError(String),
    /// Encoder input whose length is not a multiple of the channel count.
    ArgumentError,
}

} // verus!
