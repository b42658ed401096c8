use vstd::prelude::*;
use crate::errors::CodecError;
use crate::handles::Registry;
use crate::stream::{ByteSource, PULL_REQUEST_LEN};

verus! {

#[verifier::external_type_specification]
#[verifier::external_body]
#[verifier::reject_recursive_types(R)]
pub struct ExDecoder<R>(minimp3::Decoder<R>);

#[verifier::external_type_specification]
#[verifier::external_body]
#[verifier::reject_recursive_types(T)]
pub struct ExCursor<T>(std::io::Cursor<T>);

/// The native decoder together with the in-memory byte window it pulls
/// compressed data from.
type NativeDecoder = minimp3::Decoder<std::io::Cursor<Vec<u8>>>;

/// What one native decode attempt reported, reduced to plain values.
pub enum DecodeEvent {
    /// One frame was assembled: its interleaved samples and the format
    /// triple valid for it.
    Frame { samples: Vec<i16>, channels: i32, sample_rate: i32, bit_rate: i32 },
    /// The decoder needs bytes beyond those supplied so far.
    EndOfStream,
    /// The decoder failed on the data it was given.
    Failed { description: String },
}

/// Relies on minimp3::Decoder::new: a fresh decoder over an initially empty
/// byte source.
#[verifier::external_body]
fn new_native_decoder() -> NativeDecoder {
    minimp3::Decoder::new(std::io::Cursor::new(Vec::new()))
}

/// Relies on minimp3::Decoder::reader_mut: appends the chunk to the byte
/// window the decoder pulls from, after all bytes supplied before.
#[verifier::external_body]
fn feed_native_decoder(dec: &mut NativeDecoder, chunk: &[u8]) {
    dec.reader_mut().get_mut().extend_from_slice(chunk);
}

/// Relies on minimp3::Decoder::next_frame: drives the decoder one step over
/// the bytes supplied so far.  Its end-of-reader error means more bytes are
/// needed before another frame can be assembled; any other error is a
/// decode failure.
#[verifier::external_body]
fn next_native_frame(dec: &mut NativeDecoder) -> DecodeEvent {
    match dec.next_frame() {
        Ok(frame) => DecodeEvent::Frame {
            samples: frame.data,
            channels: frame.channels as i32,
            sample_rate: frame.sample_rate,
            bit_rate: frame.bitrate,
        },
        Err(minimp3::Error::Eof) => DecodeEvent::EndOfStream,
        Err(e) => DecodeEvent::Failed { description: format!("{}", e) },
    }
}

/// The format triple cached by a decoding session: set once, by the first
/// successfully decoded frame, and fixed for the session's lifetime.
#[derive(Clone, Copy, Debug, PartialEq, Eq, Structural)]
pub struct FrameHeader {
    pub channels: i32,
    pub sample_rate: i32,
    pub bit_rate: i32,
}

/// The format a session caches after absorbing one more decoded frame: the
/// first frame's triple becomes permanent, later frames change nothing.
pub open spec fn header_after_frame(
    header: Option<FrameHeader>,
    channels: i32,
    sample_rate: i32,
    bit_rate: i32,
) -> Option<FrameHeader> {
    match header {
        Some(existing) => Some(existing),
        None => Some(FrameHeader { channels, sample_rate, bit_rate }),
    }
}

/// A decoding session: the native decoder plus the cached format triple.
pub struct DecodeSession {
    dec: NativeDecoder,
    header: Option<FrameHeader>,
}

impl DecodeSession {
    /// The cached format triple, absent until a frame has been decoded.
    pub closed spec fn header(self) -> Option<FrameHeader> {
        self.header
    }

    /// True iff at least one frame has been decoded successfully.
    pub fn headers_known(&self) -> (b: bool)
        ensures
            b == (self.header() is Some),
    {
        self.header.is_some()
    }

    /// Turns what the native decoder reported into this step's result:
    /// a frame yields its samples and fixes the format triple if this was
    /// the first; end-of-stream yields the explicit "no more data" result
    /// and leaves the cached format as it was; a decode failure surfaces
    /// with its diagnostic text and likewise changes nothing.
    pub fn settle_event(&mut self, ev: DecodeEvent) -> (r: Result<Option<Vec<i16>>, CodecError>)
        ensures
            match ev {
                DecodeEvent::Frame { samples, channels, sample_rate, bit_rate } => {
                    &&& r == Ok::<Option<Vec<i16>>, CodecError>(Some(samples))
                    &&& final(self).header() == header_after_frame(
                        old(self).header(),
                        channels,
                        sample_rate,
                        bit_rate,
                    )
                },
                DecodeEvent::EndOfStream => {
                    &&& r == Ok::<Option<Vec<i16>>, CodecError>(None)
                    &&& final(self).header() == old(self).header()
                },
                DecodeEvent::Failed { description } => {
                    &&& r == Err::<Option<Vec<i16>>, CodecError>(
                        CodecError::NativeDecodeError(description),
                    )
                    &&& final(self).header() == old(self).header()
                },
            },
    {
        match ev {
            DecodeEvent::Frame { samples, channels, sample_rate, bit_rate } => {
                if self.header.is_none() {
                    self.header = Some(FrameHeader { channels, sample_rate, bit_rate });
                }
                Ok(Some(samples))
            },
            DecodeEvent::EndOfStream => Ok(None),
            DecodeEvent::Failed { description } => Err(
                CodecError::NativeDecodeError(description),
            ),
        }
    }
}

/// What `header_parsed` reports for a registry and handle.
pub open spec fn spec_header_parsed(
    reg: Registry<DecodeSession>,
    handle: u64,
) -> Result<bool, CodecError> {
    if !reg.live(handle) {
        Err(CodecError::ClosedHandle)
    } else {
        Ok(reg.sessions()[handle].header() is Some)
    }
}

/// What `get_channel_count` reports for a registry and handle.
pub open spec fn spec_channel_count(
    reg: Registry<DecodeSession>,
    handle: u64,
) -> Result<i32, CodecError> {
    if !reg.live(handle) {
        Err(CodecError::ClosedHandle)
    } else {
        match reg.sessions()[handle].header() {
            Some(hdr) => Ok(hdr.channels),
            None => Ok(-1i32),
        }
    }
}

/// What `get_bit_rate` reports for a registry and handle.
pub open spec fn spec_bit_rate(
    reg: Registry<DecodeSession>,
    handle: u64,
) -> Result<i32, CodecError> {
    if !reg.live(handle) {
        Err(CodecError::ClosedHandle)
    } else {
        match reg.sessions()[handle].header() {
            Some(hdr) => Ok(hdr.bit_rate),
            None => Ok(-1i32),
        }
    }
}

/// What `get_sample_rate` reports for a registry and handle.
pub open spec fn spec_sample_rate(
    reg: Registry<DecodeSession>,
    handle: u64,
) -> Result<i32, CodecError> {
    if !reg.live(handle) {
        Err(CodecError::ClosedHandle)
    } else {
        match reg.sessions()[handle].header() {
            Some(hdr) => Ok(hdr.sample_rate),
            None => Ok(-1i32),
        }
    }
}

/// Registers a fresh decoding session and returns its non-zero handle.
/// The session has seen no data: its format triple is absent.
pub fn create_decoder(reg: &mut Registry<DecodeSession>) -> (handle: u64)
    requires
        old(reg).wf(),
        old(reg).can_allocate(),
    ensures
        final(reg).wf(),
        handle != 0,
        !old(reg).live(handle),
        final(reg).live(handle),
        final(reg).sessions()[handle].header() is None,
        final(reg).next_handle() == old(reg).next_handle() + 1,
        forall|k: u64|
            k != handle ==> ((#[trigger] final(reg).live(k) <==> old(reg).live(k))
                && (old(reg).live(k) ==> final(reg).sessions()[k] == old(reg).sessions()[k])),
{
    let session = DecodeSession { dec: new_native_decoder(), header: None };
    reg.allocate(session)
}

/// Drives the decoder until it either assembles one frame, needs data the
/// stream cannot supply now, or fails.
///
/// The step pulls compressed bytes from `source` on demand, in requests of
/// up to `PULL_REQUEST_LEN` bytes each.  A pull that yields no bytes ends
/// the step with the explicit "no more data" result — a normal termination,
/// not an error, and the cached format is left as it was.  A failing pull
/// surfaces as the stream-failure signal.  A decoded frame's samples are
/// returned, and its format triple becomes the session's if none was cached
/// yet.  A zero or destroyed handle yields the closed-handle signal and no
/// native work happens.
pub fn decode_next_frame<S: ByteSource>(
    reg: &mut Registry<DecodeSession>,
    handle: u64,
    source: &mut S,
) -> (r: Result<Option<Vec<i16>>, CodecError>)
    requires
        old(reg).wf(),
    ensures
        final(reg).wf(),
        final(reg).next_handle() == old(reg).next_handle(),
        (r == Err::<Option<Vec<i16>>, CodecError>(CodecError::ClosedHandle)) <==> !old(reg).live(
            handle,
        ),
        !old(reg).live(handle) ==> final(reg).sessions() == old(reg).sessions(),
        old(reg).live(handle) ==> {
            &&& final(reg).live(handle)
            &&& forall|k: u64|
                k != handle ==> ((#[trigger] final(reg).live(k) <==> old(reg).live(k))
                    && (old(reg).live(k) ==> final(reg).sessions()[k] == old(reg).sessions()[k]))
            &&& (r matches Ok(frame) && frame is Some ==> final(reg).sessions()[handle].header()
                is Some)
            &&& (!(r matches Ok(frame) && frame is Some) ==> final(reg).sessions()[handle].header()
                == old(reg).sessions()[handle].header())
            &&& (old(reg).sessions()[handle].header() is Some
                ==> final(reg).sessions()[handle].header()
                    == old(reg).sessions()[handle].header())
            &&& (r matches Err(e) ==> (e is NativeDecodeError || e is StreamIOError))
        },
{
    let mut session = match reg.take(handle) {
        Some(session) => session,
        None => {
            proof {
                assert(old(reg).sessions().remove(handle) =~= old(reg).sessions());
            }
            return Err(CodecError::ClosedHandle);
        },
    };
    loop
        invariant
            reg.wf(),
            old(reg).live(handle),
            1 <= handle < reg.next_handle(),
            reg.sessions() == old(reg).sessions().remove(handle),
            reg.next_handle() == old(reg).next_handle(),
            session.header() == old(reg).sessions()[handle].header(),
        decreases source.budget(),
    {
        let ev = next_native_frame(&mut session.dec);
        match ev {
            DecodeEvent::EndOfStream => {
                match source.pull(PULL_REQUEST_LEN) {
                    Ok(chunk) => {
                        if chunk.len() == 0 {
                            let r = session.settle_event(DecodeEvent::EndOfStream);
                            reg.restore(handle, session);
                            return r;
                        } else {
                            feed_native_decoder(&mut session.dec, chunk.as_slice());
                        }
                    },
                    Err(description) => {
                        reg.restore(handle, session);
                        return Err(CodecError::StreamIOError(description));
                    },
                }
            },
            other => {
                let r = session.settle_event(other);
                reg.restore(handle, session);
                return r;
            },
        }
    }
}

/// Reports whether the session behind the handle has decoded at least one
/// frame, or the closed-handle signal for a zero or destroyed handle.
pub fn header_parsed(reg: &Registry<DecodeSession>, handle: u64) -> (r: Result<bool, CodecError>)
    ensures
        r == spec_header_parsed(*reg, handle),
{
    match reg.get(handle) {
        Some(session) => Ok(session.headers_known()),
        None => Err(CodecError::ClosedHandle),
    }
}

/// The cached channel count, `-1` until the first frame has been decoded,
/// or the closed-handle signal for a zero or destroyed handle.
pub fn get_channel_count(reg: &Registry<DecodeSession>, handle: u64) -> (r: Result<
    i32,
    CodecError,
>)
    ensures
        r == spec_channel_count(*reg, handle),
{
    match reg.get(handle) {
        Some(session) => match session.header {
            Some(hdr) => Ok(hdr.channels),
            None => Ok(-1i32),
        },
        None => Err(CodecError::ClosedHandle),
    }
}

/// The cached bit rate, `-1` until the first frame has been decoded, or
/// the closed-handle signal for a zero or destroyed handle.
pub fn get_bit_rate(reg: &Registry<DecodeSession>, handle: u64) -> (r: Result<i32, CodecError>)
    ensures
        r == spec_bit_rate(*reg, handle),
{
    match reg.get(handle) {
        Some(session) => match session.header {
            Some(hdr) => Ok(hdr.bit_rate),
            None => Ok(-1i32),
        },
        None => Err(CodecError::ClosedHandle),
    }
}

/// The cached sample rate, `-1` until the first frame has been decoded, or
/// the closed-handle signal for a zero or destroyed handle.
pub fn get_sample_rate(reg: &Registry<DecodeSession>, handle: u64) -> (r: Result<i32, CodecError>)
    ensures
        r == spec_sample_rate(*reg, handle),
{
    match reg.get(handle) {
        Some(session) => match session.header {
            Some(hdr) => Ok(hdr.sample_rate),
            None => Ok(-1i32),
        },
        None => Err(CodecError::ClosedHandle),
    }
}

/// Drops the session behind a handle and reports whether one was live.
/// The handle is dead afterwards; the caller's stored slot is expected to
/// be overwritten with zero.  Destroying a zero or already-destroyed handle
/// is a no-op.
pub fn destroy_decoder(reg: &mut Registry<DecodeSession>, handle: u64) -> (was_live: bool)
    requires
        old(reg).wf(),
    ensures
        final(reg).wf(),
        was_live == old(reg).live(handle),
        !final(reg).live(handle),
        final(reg).sessions() == old(reg).sessions().remove(handle),
        final(reg).next_handle() == old(reg).next_handle(),
{
    reg.release(handle)
}

/// After a session is destroyed, every decoder operation on its handle
/// reports the closed handle — never a stale value and never a crash.
pub proof fn destroyed_decoder_reports_closed(reg: Registry<DecodeSession>, handle: u64)
    requires
        !reg.live(handle),
    ensures
        spec_header_parsed(reg, handle) == Err::<bool, CodecError>(CodecError::ClosedHandle),
        spec_channel_count(reg, handle) == Err::<i32, CodecError>(CodecError::ClosedHandle),
        spec_bit_rate(reg, handle) == Err::<i32, CodecError>(CodecError::ClosedHandle),
        spec_sample_rate(reg, handle) == Err::<i32, CodecError>(CodecError::ClosedHandle),
{
}

/// Before the first successfully decoded frame, the metadata accessors
/// report the `-1` sentinel — never a stale or garbage value.
pub proof fn unparsed_header_reports_sentinel(reg: Registry<DecodeSession>, handle: u64)
    requires
        reg.live(handle),
        reg.sessions()[handle].header() is None,
    ensures
        spec_header_parsed(reg, handle) == Ok::<bool, CodecError>(false),
        spec_channel_count(reg, handle) == Ok::<i32, CodecError>(-1i32),
        spec_bit_rate(reg, handle) == Ok::<i32, CodecError>(-1i32),
        spec_sample_rate(reg, handle) == Ok::<i32, CodecError>(-1i32),
{
}

/// The format a session reports is its first frame's format: absorbing a
/// frame into a fresh session records that frame's triple, and absorbing
/// one into a session that already knows its format changes nothing.
pub proof fn first_frame_fixes_format(
    header: Option<FrameHeader>,
    channels: i32,
    sample_rate: i32,
    bit_rate: i32,
)
    ensures
        header is None ==> header_after_frame(header, channels, sample_rate, bit_rate) == Some(
            FrameHeader { channels, sample_rate, bit_rate },
        ),
        header is Some ==> header_after_frame(header, channels, sample_rate, bit_rate) == header,
{
}

} // verus!
