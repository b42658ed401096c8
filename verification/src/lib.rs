//! Native-bridge core for a pair of audio codec sessions: streaming
//! MPEG-audio decoding and MP3 encoding.
//!
//! The crate owns the boundary protocol around the codecs: opaque handle
//! lifecycle, the pull adapter that hands compressed bytes to the decoder on
//! demand, the per-session state machines, and the translation of every
//! failure into a distinct caller-visible signal.  The codec algorithms
//! themselves are outside collaborators reached through narrow, documented
//! calls.

pub mod errors;
pub mod handles;
pub mod stream;
pub mod decoder;
pub mod encoder;
