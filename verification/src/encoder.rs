use vstd::prelude::*;
use crate::errors::CodecError;
use crate::handles::Registry;

verus! {

/// Size in bytes of the scratch area a flush writes into: the known worst
/// case for flush output when no further input follows.
pub const FLUSH_BUFFER_LEN: usize = 7200;

/// The stereo/mono processing mode the native encoder is configured with.
#[derive(Clone, Copy, Debug, PartialEq, Eq, Structural)]
pub enum EncoderMode {
    JointStereo,
    Mono,
}

/// The one bit of mode policy: a one-channel input selects joint stereo,
/// any other channel count selects mono.
pub fn mode_for_channels(channels: i32) -> (m: EncoderMode)
    ensures
        m == (if channels == 1 {
            EncoderMode::JointStereo
        } else {
            EncoderMode::Mono
        }),
{
    if channels == 1 {
        EncoderMode::JointStereo
    } else {
        EncoderMode::Mono
    }
}

/// An encoding session: the parameters fixed at creation.  The native
/// encoder state they configure lives on the caller's side of the boundary,
/// keyed by the same handle.
#[derive(Clone, Copy, Debug, PartialEq, Eq, Structural)]
pub struct EncodeSession {
    pub channels: i32,
    pub sample_rate: i32,
    pub bit_rate: i32,
    pub quality: i32,
}

impl EncodeSession {
    /// Only mono and stereo sessions exist: the native encoder accepts no
    /// other channel count, and creation refuses them.
    pub open spec fn wf(self) -> bool {
        1 <= self.channels <= 2
    }
}

/// Every live encoding session was built by `create_encoder`, so its
/// parameters are well-formed.
pub open spec fn encoders_wf(reg: Registry<EncodeSession>) -> bool {
    &&& reg.wf()
    &&& forall|h: u64| reg.live(h) ==> (#[trigger] reg.sessions()[h]).wf()
}

/// The worst-case MP3 output size for `num_samples` input samples: a fixed
/// over-allocation of a quarter above the input plus one maximal frame,
/// rounded up.
pub open spec fn spec_estimate(num_samples: int) -> int {
    num_samples + (num_samples + 3) / 4 + 7200
}

/// Computes the scratch-buffer size for encoding `num_samples` samples.
pub fn estimate_mp3_buffer_size(num_samples: i32) -> (r: usize)
    requires
        0 <= num_samples,
    ensures
        r == spec_estimate(num_samples as int),
{
    (num_samples as usize) + ((num_samples as usize) + 3) / 4 + 7200
}

/// Registers an encoding session, provided the native encoder accepted the
/// configuration.
///
/// `init_status` is the status the native initialization reported for these
/// parameters; a negative value means the configuration was rejected, and
/// no handle is created.  A channel count other than one or two is likewise
/// refused — the native encoder accepts none such, so this introduces no
/// new failure.
pub fn create_encoder(
    reg: &mut Registry<EncodeSession>,
    channels: i32,
    sample_rate: i32,
    bit_rate: i32,
    quality: i32,
    init_status: i32,
) -> (r: Result<u64, CodecError>)
    requires
        encoders_wf(*old(reg)),
        old(reg).can_allocate(),
    ensures
        encoders_wf(*final(reg)),
        r is Err <==> (init_status < 0 || channels < 1 || channels > 2),
        r is Err ==> r == Err::<u64, CodecError>(CodecError::InitializationFailure(init_status))
            && *final(reg) == *old(reg),
        r matches Ok(handle) ==> {
            &&& handle != 0
            &&& !old(reg).live(handle)
            &&& final(reg).sessions() == old(reg).sessions().insert(
                handle,
                EncodeSession { channels, sample_rate, bit_rate, quality },
            )
            &&& final(reg).next_handle() == old(reg).next_handle() + 1
        },
{
    if init_status < 0 || channels < 1 || channels > 2 {
        return Err(CodecError::InitializationFailure(init_status));
    }
    let session = EncodeSession { channels, sample_rate, bit_rate, quality };
    let handle = reg.allocate(session);
    proof {
        assert forall|h: u64| reg.live(h) implies (#[trigger] reg.sessions()[h]).wf() by {
            if h != handle {
                assert(old(reg).live(h));
            }
        }
    }
    Ok(handle)
}

/// What one encode call needs before the native step runs: the session's
/// channel count, the per-channel sample count, and the scratch size.
#[derive(Clone, Copy, Debug, PartialEq, Eq, Structural)]
pub struct WritePlan {
    pub channels: i32,
    pub samples_per_channel: usize,
    pub scratch_len: u64,
}

/// What `prepare_write` decides for a given registry, handle and input
/// length.
pub open spec fn spec_prepare_write(
    reg: Registry<EncodeSession>,
    handle: u64,
    num_samples: usize,
) -> Result<WritePlan, CodecError> {
    if !reg.live(handle) {
        Err(CodecError::ClosedHandle)
    } else {
        let session = reg.sessions()[handle];
        if num_samples as int % session.channels as int != 0 {
            Err(CodecError::ArgumentError)
        } else {
            Ok(
                WritePlan {
                    channels: session.channels,
                    samples_per_channel: (num_samples as int / session.channels as int) as usize,
                    scratch_len: (spec_estimate(num_samples as int) * session.channels
                        as int) as u64,
                },
            )
        }
    }
}

/// Validates one encode call and sizes its scratch buffer.
///
/// A destroyed or zero handle yields the closed-handle signal.  An input
/// length that is not a multiple of the session's channel count yields the
/// argument error — decided here, before any native work.  Otherwise the
/// plan carries the worst-case scratch size for this input.
pub fn prepare_write(
    reg: &Registry<EncodeSession>,
    handle: u64,
    num_samples: usize,
) -> (r: Result<WritePlan, CodecError>)
    requires
        encoders_wf(*reg),
        num_samples <= i32::MAX as usize,
    ensures
        r == spec_prepare_write(*reg, handle, num_samples),
{
    let session = match reg.get(handle) {
        Some(session) => *session,
        None => {
            return Err(CodecError::ClosedHandle);
        },
    };
    proof {
        assert(reg.sessions()[handle].wf());
    }
    if num_samples % (session.channels as usize) != 0 {
        return Err(CodecError::ArgumentError);
    }
    let estimate = estimate_mp3_buffer_size(num_samples as i32);
    proof {
        assert((estimate as int) * (session.channels as int) <= (estimate as int) * 2)
            by (nonlinear_arith)
            requires
                0 <= estimate as int,
                session.channels as int <= 2,
        ;
    }
    Ok(
        WritePlan {
            channels: session.channels,
            samples_per_channel: num_samples / (session.channels as usize),
            scratch_len: (estimate as u64) * (session.channels as u64),
        },
    )
}

/// Copies the encoded output out of the scratch buffer.
///
/// A negative reported count is the native encoder's failure signal; any
/// other count takes exactly that many leading bytes of the scratch into a
/// freshly sized output — never the oversized scratch itself.
pub fn finish_encode(scratch: Vec<u8>, reported: i32) -> (r: Result<Vec<u8>, CodecError>)
    requires
        0 <= reported ==> reported as int <= scratch@.len(),
    ensures
        r is Err <==> reported < 0,
        reported < 0 ==> r == Err::<Vec<u8>, CodecError>(CodecError::NativeEncodeError(reported)),
        r matches Ok(out) ==> 0 <= reported && out@ == scratch@.take(reported as int),
{
    if reported < 0 {
        return Err(CodecError::NativeEncodeError(reported));
    }
    let mut out = scratch;
    out.truncate(reported as usize);
    Ok(out)
}

/// What a flush on this handle is allowed to do.
pub open spec fn spec_prepare_flush(
    reg: Registry<EncodeSession>,
    handle: u64,
) -> Result<usize, CodecError> {
    if !reg.live(handle) {
        Err(CodecError::ClosedHandle)
    } else {
        Ok(FLUSH_BUFFER_LEN)
    }
}

/// Resolves the handle for a flush and yields the fixed scratch size the
/// native flush writes into.
pub fn prepare_flush(reg: &Registry<EncodeSession>, handle: u64) -> (r: Result<usize, CodecError>)
    ensures
        r == spec_prepare_flush(*reg, handle),
{
    match reg.get(handle) {
        Some(_) => Ok(FLUSH_BUFFER_LEN),
        None => Err(CodecError::ClosedHandle),
    }
}

/// Copies the flushed bytes out of the fixed scratch area.
///
/// The output is exactly the reported leading span of the scratch, and so
/// never longer than the scratch's 7200 bytes.
pub fn finish_flush(scratch: Vec<u8>, reported: i32) -> (r: Result<Vec<u8>, CodecError>)
    requires
        scratch@.len() == FLUSH_BUFFER_LEN,
        0 <= reported ==> reported as int <= scratch@.len(),
    ensures
        r is Err <==> reported < 0,
        reported < 0 ==> r == Err::<Vec<u8>, CodecError>(CodecError::NativeEncodeError(reported)),
        r matches Ok(out) ==> {
            &&& 0 <= reported
            &&& out@ == scratch@.take(reported as int)
            &&& out@.len() <= FLUSH_BUFFER_LEN
        },
{
    finish_encode(scratch, reported)
}

/// Drops the session behind a handle and reports whether one was live.
/// The handle is dead afterwards; the caller's stored slot is expected to
/// be overwritten with zero.  Destroying a zero or already-destroyed handle
/// is a no-op.
pub fn destroy_encoder(reg: &mut Registry<EncodeSession>, handle: u64) -> (was_live: bool)
    requires
        encoders_wf(*old(reg)),
    ensures
        encoders_wf(*final(reg)),
        was_live == old(reg).live(handle),
        !final(reg).live(handle),
        final(reg).sessions() == old(reg).sessions().remove(handle),
        final(reg).next_handle() == old(reg).next_handle(),
{
    let was_live = reg.release(handle);
    proof {
        assert forall|h: u64| reg.live(h) implies (#[trigger] reg.sessions()[h]).wf() by {
            assert(old(reg).live(h));
        }
    }
    was_live
}

/// After a session is destroyed, every encoder operation on its handle
/// reports the closed handle and decides nothing else.
pub proof fn destroyed_encoder_reports_closed(
    reg: Registry<EncodeSession>,
    handle: u64,
    num_samples: usize,
)
    requires
        !reg.live(handle),
    ensures
        spec_prepare_write(reg, handle, num_samples) == Err::<WritePlan, CodecError>(
            CodecError::ClosedHandle,
        ),
        spec_prepare_flush(reg, handle) == Err::<usize, CodecError>(CodecError::ClosedHandle),
{
}

} // verus!
