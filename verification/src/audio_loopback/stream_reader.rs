//! What the reading side of a stream decides: how large a read may be, how
//! much of it counts, which formats can be used, and when failures are no
//! longer passed over.

use crate::audio_loopback::audio_processor::SampleFormat;
use crate::audio_loopback::types::CaptureError;
use vstd::prelude::*;

verus! {

/// More failed reads in a row than this end the stream.
pub const MAX_CONSECUTIVE_READ_FAILURES: u32 = 10;

/// A read larger than this many bytes is not attempted.
pub const MAX_READ_BYTES: usize = 1_048_576;

/// A read buffer is never smaller than this many bytes.
pub const MIN_READ_BUFFER: usize = 4096;

/// So many attempts are made to initialise a device before giving up.
pub const MAX_INIT_ATTEMPTS: u32 = 3;

/// What follows a failure.
#[derive(Debug, Clone, Copy, PartialEq, Eq, Structural)]
pub enum FailureVerdict {
    /// Wait a little and try again.
    Retry,
    /// Give up: the stream, or the attempt to open it, has failed.
    Fatal,
}

impl FailureVerdict {
    /// The error that a failed read stands for: a transient one while it is
    /// passed over, a fatal one when it ends the stream.
    pub fn as_error(&self) -> (r: CaptureError)
        ensures
            r == match self {
                FailureVerdict::Retry => CaptureError::TransientReadError,
                FailureVerdict::Fatal => CaptureError::FatalStreamError,
            },
    {
        match self {
            FailureVerdict::Retry => CaptureError::TransientReadError,
            FailureVerdict::Fatal => CaptureError::FatalStreamError,
        }
    }
}

/// Counts the reads that failed in a row.
#[derive(Debug, Clone, Copy)]
pub struct ReadBudget {
    failures: u32,
}

impl View for ReadBudget {
    type V = nat;

    /// The number of reads that failed since the last one that succeeded
    /// (it stops counting at the largest value of its type).
    closed spec fn view(&self) -> nat {
        self.failures as nat
    }
}

/// The count after one more failure.
pub open spec fn spec_after_failure(failures: nat) -> nat {
    if failures < u32::MAX {
        failures + 1
    } else {
        failures
    }
}

/// What follows a failure that brought the count to `failures`.
pub open spec fn spec_failure_verdict(failures: nat) -> FailureVerdict {
    if failures > MAX_CONSECUTIVE_READ_FAILURES {
        FailureVerdict::Fatal
    } else {
        FailureVerdict::Retry
    }
}

/// The count after `k` failures in a row.
pub open spec fn spec_after_failures(failures: nat, k: nat) -> nat
    decreases k,
{
    if k == 0 {
        failures
    } else {
        spec_after_failure(spec_after_failures(failures, (k - 1) as nat))
    }
}

impl ReadBudget {
    /// No read has failed.
    pub fn new() -> (r: Self)
        ensures
            r@ == 0,
    {
        ReadBudget { failures: 0 }
    }

    /// The reads that failed in a row.
    pub fn failures(&self) -> (r: u32)
        ensures
            r == self@,
    {
        self.failures
    }

    /// A read succeeded: the run of failures is over.
    pub fn record_success(&mut self)
        ensures
            final(self)@ == 0,
    {
        self.failures = 0;
    }

    /// A read failed. The failure is passed over until more than
    /// [`MAX_CONSECUTIVE_READ_FAILURES`] have come in a row.
    pub fn record_failure(&mut self) -> (r: FailureVerdict)
        ensures
            final(self)@ == spec_after_failure(old(self)@),
            r == spec_failure_verdict(final(self)@),
    {
        if self.failures < u32::MAX {
            self.failures = self.failures + 1;
        }
        if self.failures > MAX_CONSECUTIVE_READ_FAILURES {
            FailureVerdict::Fatal
        } else {
            FailureVerdict::Retry
        }
    }
}

/// Counted from a read that succeeded, the `k`-th failure in a row is fatal
/// exactly when `k` is more than the budget; a single failure never is.
pub proof fn lemma_fatal_after_budget(k: nat)
    requires
        k <= u32::MAX,
    ensures
        spec_after_failures(0, k) == k,
        k > 0 ==> (spec_failure_verdict(spec_after_failures(0, k)) == FailureVerdict::Fatal <==> k
            > MAX_CONSECUTIVE_READ_FAILURES),
        spec_failure_verdict(spec_after_failure(0)) == FailureVerdict::Retry,
    decreases k,
{
    if k > 0 {
        lemma_fatal_after_budget((k - 1) as nat);
    }
}

/// What follows the `attempts_made`-th failed attempt to initialise a
/// device: another attempt, until [`MAX_INIT_ATTEMPTS`] were made.
pub fn after_failed_init(attempts_made: u32) -> (r: FailureVerdict)
    ensures
        r == if attempts_made >= MAX_INIT_ATTEMPTS {
            FailureVerdict::Fatal
        } else {
            FailureVerdict::Retry
        },
{
    if attempts_made >= MAX_INIT_ATTEMPTS {
        FailureVerdict::Fatal
    } else {
        FailureVerdict::Retry
    }
}

/// The size of the buffer for a read of `frames_available` frames, or `None`
/// where nothing is to be read: no frame, frames of no bytes, or more than
/// [`MAX_READ_BYTES`].
pub open spec fn spec_read_buffer_size(frames_available: u32, bytes_per_frame: usize) -> Option<
    usize,
> {
    let wanted = frames_available * bytes_per_frame;
    if frames_available == 0 || bytes_per_frame == 0 || wanted > MAX_READ_BYTES {
        None
    } else if wanted < MIN_READ_BUFFER {
        Some(MIN_READ_BUFFER)
    } else {
        Some(wanted as usize)
    }
}

/// The size of the buffer for a read of `frames_available` frames, or `None`
/// where the read is to be skipped.
pub fn read_buffer_size(frames_available: u32, bytes_per_frame: usize) -> (r: Option<usize>)
    ensures
        r == spec_read_buffer_size(frames_available, bytes_per_frame),
{
    if frames_available == 0 || bytes_per_frame == 0 {
        return None;
    }
    if bytes_per_frame > MAX_READ_BYTES {
        assert(frames_available * bytes_per_frame > MAX_READ_BYTES) by (nonlinear_arith)
            requires
                frames_available >= 1,
                bytes_per_frame > MAX_READ_BYTES,
        ;
        return None;
    }
    assert(frames_available * bytes_per_frame <= 0xffff_ffff * 1_048_576) by (nonlinear_arith)
        requires
            frames_available <= 0xffff_ffff,
            bytes_per_frame <= 1_048_576,
    ;
    let wanted: u64 = (frames_available as u64) * (bytes_per_frame as u64);
    if wanted > MAX_READ_BYTES as u64 {
        None
    } else if wanted < MIN_READ_BUFFER as u64 {
        Some(MIN_READ_BUFFER)
    } else {
        Some(wanted as usize)
    }
}

/// How many bytes of a buffer a read of `frames_read` frames has filled:
/// the bytes of the frames, and never more than the buffer holds.
pub open spec fn spec_delivered_bytes(frames_read: u32, bytes_per_frame: usize, buffer_len: usize) -> nat {
    if frames_read * bytes_per_frame > buffer_len {
        buffer_len as nat
    } else {
        (frames_read * bytes_per_frame) as nat
    }
}

/// How many bytes of a buffer a read of `frames_read` frames has filled.
pub fn delivered_bytes(frames_read: u32, bytes_per_frame: usize, buffer_len: usize) -> (r: usize)
    ensures
        r == spec_delivered_bytes(frames_read, bytes_per_frame, buffer_len),
        r <= buffer_len,
{
    assert(frames_read * bytes_per_frame <= 0xffff_ffff * 0xffff_ffff_ffff_ffff)
        by (nonlinear_arith)
        requires
            frames_read <= 0xffff_ffff,
            bytes_per_frame <= 0xffff_ffff_ffff_ffff,
    ;
    let wanted: u128 = (frames_read as u128) * (bytes_per_frame as u128);
    if wanted > buffer_len as u128 {
        buffer_len
    } else {
        wanted as usize
    }
}

/// The sample format of a stream, from the depth of its samples and whether
/// they are floating point. Integers of 16 and 32 bits and floating point of
/// 32 bits can be used; anything else is refused when the stream is opened.
pub open spec fn spec_stream_format(bits_per_sample: u16, is_float: bool) -> Result<
    SampleFormat,
    CaptureError,
> {
    if bits_per_sample == 16 && !is_float {
        Ok(SampleFormat::Int16)
    } else if bits_per_sample == 32 && is_float {
        Ok(SampleFormat::Float32)
    } else if bits_per_sample == 32 {
        Ok(SampleFormat::Int32)
    } else {
        Err(CaptureError::BackendError)
    }
}

/// The sample format of a stream, or the refusal of a format that cannot be
/// used.
pub fn stream_format(bits_per_sample: u16, is_float: bool) -> (r: Result<SampleFormat, CaptureError>)
    ensures
        r == spec_stream_format(bits_per_sample, is_float),
{
    if bits_per_sample == 16 && !is_float {
        Ok(SampleFormat::Int16)
    } else if bits_per_sample == 32 && is_float {
        Ok(SampleFormat::Float32)
    } else if bits_per_sample == 32 {
        Ok(SampleFormat::Int32)
    } else {
        Err(CaptureError::BackendError)
    }
}

} // verus!
