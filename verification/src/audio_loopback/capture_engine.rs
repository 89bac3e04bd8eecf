//! The capture engine: the session that admits one capture at a time, and
//! what the capture task decides on each chunk.
//!
//! The task itself waits on the device and on its stop signal; that part is
//! the caller's. Whenever something happened it asks here what follows: a
//! chunk is taken into the sliding buffer, a window becomes due for
//! transcription, a level update becomes due. Times are milliseconds since
//! the capture started.

use crate::audio_loopback::encoding::{encode_samples, spec_encode_samples};
use crate::audio_loopback::transcription_buffer::{
    spec_shifted, spec_trimmed, spec_window, TranscriptionBuffer,
};
use crate::audio_loopback::types::{CaptureError, TARGET_SAMPLE_RATE};
use vstd::prelude::*;
use vstd::string::StringExecFns;

verus! {

/// Samples in one transcription window: four seconds at the target rate.
pub const WINDOW_SAMPLES: usize = 64000;

/// Least number of buffered samples for a transcription: a second and a half.
pub const MIN_AUDIO_SAMPLES: usize = 24000;

/// Least time between two transcriptions, in milliseconds.
pub const TRANSCRIPTION_INTERVAL_MS: u64 = 800;

/// Time between two level updates must exceed this, in milliseconds.
pub const LEVEL_INTERVAL_MS: u64 = 100;

/// The silence threshold 0.00305, as the bits of its single-precision form.
pub const SILENCE_THRESHOLD_BITS: u32 = 0x3B47_E282;

/// The bits of positive infinity in single precision. Every level that is a
/// number and not negative has bits no larger than these.
pub const LEVEL_BITS_MAX: u32 = 0x7F80_0000;

/// Where a capture session stands.
#[derive(Debug, Clone, Copy, PartialEq, Eq, Structural)]
pub enum SessionState {
    Idle,
    Starting,
    Running,
    Stopping,
}

/// The state after a request to start, or the refusal. A start is admitted
/// from `Idle`, and from `Running` once the capture task has ended by
/// itself; every other state refuses it.
pub open spec fn spec_begin_start(state: SessionState, task_finished: bool) -> Result<
    SessionState,
    CaptureError,
> {
    match state {
        SessionState::Idle => Ok(SessionState::Starting),
        SessionState::Running => if task_finished {
            Ok(SessionState::Starting)
        } else {
            Err(CaptureError::AlreadyCapturing)
        },
        _ => Err(CaptureError::AlreadyCapturing),
    }
}

/// Whether a request to stop finds a task to signal and to wait for.
pub open spec fn spec_stop_needed(state: SessionState) -> bool {
    state == SessionState::Running
}

/// The state after a request to stop.
pub open spec fn spec_begin_stop(state: SessionState) -> SessionState {
    if state == SessionState::Running {
        SessionState::Stopping
    } else {
        state
    }
}

/// The state once the capture task has been waited for.
pub open spec fn spec_finish_stop(state: SessionState) -> SessionState {
    if state == SessionState::Stopping {
        SessionState::Idle
    } else {
        state
    }
}

/// The state once it is known whether the capture task has ended by itself:
/// a capture whose task is gone is idle.
pub open spec fn spec_refresh(state: SessionState, task_finished: bool) -> SessionState {
    if state == SessionState::Running && task_finished {
        SessionState::Idle
    } else {
        state
    }
}

/// The state after a whole stop: the request, then the wait where one is
/// needed.
pub open spec fn spec_stop(state: SessionState) -> SessionState {
    spec_finish_stop(spec_begin_stop(state))
}

/// The one capture session of the process.
pub struct CaptureSession {
    state: SessionState,
    tasks_started: u64,
}

/// What a [`CaptureSession`] holds.
pub struct SessionModel {
    pub state: SessionState,
    /// How many capture tasks were admitted so far (it stops counting at the
    /// largest value of its type).
    pub tasks_started: u64,
}

/// The session after a request to start: on admission it is starting and
/// one more task is counted; the refusal leaves it as it was.
pub open spec fn after_begin_start(m: SessionModel, task_finished: bool) -> Result<
    SessionModel,
    CaptureError,
> {
    match spec_begin_start(m.state, task_finished) {
        Ok(state) => Ok(
            SessionModel {
                state,
                tasks_started: if m.tasks_started < u64::MAX {
                    (m.tasks_started + 1) as u64
                } else {
                    u64::MAX
                },
            },
        ),
        Err(e) => Err(e),
    }
}

impl View for CaptureSession {
    type V = SessionModel;

    closed spec fn view(&self) -> SessionModel {
        SessionModel { state: self.state, tasks_started: self.tasks_started }
    }
}

impl CaptureSession {
    /// A session in which nothing is captured.
    pub fn new() -> (r: Self)
        ensures
            r@.state == SessionState::Idle,
            r@.tasks_started == 0,
    {
        CaptureSession { state: SessionState::Idle, tasks_started: 0 }
    }

    /// Where the session stands.
    pub fn state(&self) -> (r: SessionState)
        ensures
            r == self@.state,
    {
        self.state
    }

    /// How many capture tasks were admitted so far.
    pub fn tasks_started(&self) -> (r: u64)
        ensures
            r == self@.tasks_started,
    {
        self.tasks_started
    }

    /// Whether a capture is starting, running or being stopped.
    pub fn is_capturing(&self) -> (r: bool)
        ensures
            r == (self@.state != SessionState::Idle),
    {
        match self.state {
            SessionState::Idle => false,
            _ => true,
        }
    }

    /// Asks to start a capture. `task_finished` says whether the task of the
    /// running capture, if there is one, has already ended by itself.
    ///
    /// On `Ok` the caller opens the device and spawns the one capture task,
    /// then reports with [`Self::confirm_started`] or [`Self::abort_start`].
    /// On `Err` nothing has changed and nothing may be opened or spawned.
    pub fn begin_start(&mut self, task_finished: bool) -> (r: Result<(), CaptureError>)
        ensures
            match after_begin_start(old(self)@, task_finished) {
                Ok(m) => r is Ok && final(self)@ == m,
                Err(e) => r == Err::<(), CaptureError>(e) && final(self)@ == old(self)@,
            },
    {
        let admitted = match self.state {
            SessionState::Idle => true,
            SessionState::Running => task_finished,
            _ => false,
        };
        if admitted {
            self.state = SessionState::Starting;
            if self.tasks_started < u64::MAX {
                self.tasks_started = self.tasks_started + 1;
            }
            Ok(())
        } else {
            Err(CaptureError::AlreadyCapturing)
        }
    }

    /// The device is open and the capture task runs.
    pub fn confirm_started(&mut self)
        ensures
            final(self)@.tasks_started == old(self)@.tasks_started,
            final(self)@.state == if old(self)@.state == SessionState::Starting {
                SessionState::Running
            } else {
                old(self)@.state
            },
    {
        if self.state == SessionState::Starting {
            self.state = SessionState::Running;
        }
    }

    /// The device could not be opened: no task was spawned, and the session
    /// is idle again.
    pub fn abort_start(&mut self)
        ensures
            final(self)@.tasks_started == old(self)@.tasks_started,
            final(self)@.state == if old(self)@.state == SessionState::Starting {
                SessionState::Idle
            } else {
                old(self)@.state
            },
    {
        if self.state == SessionState::Starting {
            self.state = SessionState::Idle;
        }
    }

    /// Takes note of whether the capture task has ended by itself, as it
    /// does after a fatal error of the stream, and returns where the session
    /// stands then.
    pub fn refresh(&mut self, task_finished: bool) -> (r: SessionState)
        ensures
            final(self)@.state == spec_refresh(old(self)@.state, task_finished),
            final(self)@.tasks_started == old(self)@.tasks_started,
            r == final(self)@.state,
    {
        if self.state == SessionState::Running && task_finished {
            self.state = SessionState::Idle;
        }
        self.state
    }

    /// Asks to stop. Returns whether there is a task to signal and to wait
    /// for; the caller then does both and calls [`Self::finish_stop`]. On an
    /// idle session this changes nothing and returns `false`.
    pub fn begin_stop(&mut self) -> (r: bool)
        ensures
            r == spec_stop_needed(old(self)@.state),
            final(self)@.state == spec_begin_stop(old(self)@.state),
            final(self)@.tasks_started == old(self)@.tasks_started,
    {
        if self.state == SessionState::Running {
            self.state = SessionState::Stopping;
            true
        } else {
            false
        }
    }

    /// The capture task has been waited for.
    pub fn finish_stop(&mut self)
        ensures
            final(self)@.state == spec_finish_stop(old(self)@.state),
            final(self)@.tasks_started == old(self)@.tasks_started,
    {
        if self.state == SessionState::Stopping {
            self.state = SessionState::Idle;
        }
    }
}

/// Stopping is idempotent: a second stop finds nothing to signal and leaves
/// the state as the first stop left it. A stop of a session that was never
/// started, or that is idle again, changes nothing.
pub proof fn lemma_stop_is_idempotent(state: SessionState)
    ensures
        spec_stop(spec_stop(state)) == spec_stop(state),
        !spec_stop_needed(spec_stop(state)),
        spec_stop(SessionState::Idle) == SessionState::Idle,
        !spec_stop_needed(SessionState::Idle),
        state == SessionState::Running ==> spec_stop(state) == SessionState::Idle,
{
}

/// A start after a refresh is the same as a start: what a status query
/// finds out, the next start finds out by itself.
pub proof fn lemma_start_discovers_ended_task(state: SessionState, task_finished: bool)
    ensures
        spec_begin_start(spec_refresh(state, task_finished), task_finished) == spec_begin_start(
            state,
            task_finished,
        ),
{
}

/// At most one capture at a time: while a capture is starting, runs with a
/// live task, or is being stopped, a start is refused; and whenever a start
/// is admitted, the session was idle or its task had ended.
pub proof fn lemma_start_is_exclusive(state: SessionState, task_finished: bool)
    ensures
        (state == SessionState::Starting || state == SessionState::Stopping || (state
            == SessionState::Running && !task_finished)) ==> spec_begin_start(state, task_finished)
            == Err::<SessionState, CaptureError>(CaptureError::AlreadyCapturing),
        spec_begin_start(state, task_finished) is Ok ==> state == SessionState::Idle || (state
            == SessionState::Running && task_finished),
        spec_begin_start(state, task_finished) is Ok ==> spec_begin_start(
            spec_begin_start(state, task_finished)->Ok_0,
            task_finished,
        ) is Err,
{
}

/// The numbers that govern the capture task.
#[derive(Debug, Clone, Copy, PartialEq, Eq, Structural)]
pub struct CapturePolicy {
    /// Samples in one transcription window.
    pub window_samples: usize,
    /// Least number of buffered samples for a transcription.
    pub min_samples: usize,
    /// Least time between two transcriptions, in milliseconds.
    pub transcription_interval_ms: u64,
    /// Time between two level updates must exceed this, in milliseconds.
    pub level_interval_ms: u64,
    /// The silence threshold, as the bits of a single-precision number that
    /// is not negative.
    pub silence_threshold: u32,
}

impl CapturePolicy {
    /// The window is small enough for its wire form to be addressed, and
    /// the threshold is the bits of a number that is not negative.
    pub open spec fn wf(&self) -> bool {
        &&& self.window_samples * 16 <= usize::MAX
        &&& self.silence_threshold <= LEVEL_BITS_MAX
    }

    /// Whether the policy can be used.
    pub fn is_usable(&self) -> (r: bool)
        ensures
            r == self.wf(),
    {
        self.window_samples <= usize::MAX / 16 && self.silence_threshold <= LEVEL_BITS_MAX
    }

    /// The documented defaults: windows of 4 s, at least 1.5 s of audio and
    /// 800 ms between transcriptions, a level update after more than 100 ms,
    /// silence below 0.00305.
    pub fn standard() -> (r: Self)
        ensures
            r.wf(),
            r == (CapturePolicy {
                window_samples: WINDOW_SAMPLES,
                min_samples: MIN_AUDIO_SAMPLES,
                transcription_interval_ms: TRANSCRIPTION_INTERVAL_MS,
                level_interval_ms: LEVEL_INTERVAL_MS,
                silence_threshold: SILENCE_THRESHOLD_BITS,
            }),
    {
        CapturePolicy {
            window_samples: WINDOW_SAMPLES,
            min_samples: MIN_AUDIO_SAMPLES,
            transcription_interval_ms: TRANSCRIPTION_INTERVAL_MS,
            level_interval_ms: LEVEL_INTERVAL_MS,
            silence_threshold: SILENCE_THRESHOLD_BITS,
        }
    }
}

/// Time from `since` to `now`; a clock that went back counts as no time.
pub open spec fn elapsed_ms(now: u64, since: u64) -> nat {
    if now >= since {
        (now - since) as nat
    } else {
        0
    }
}

/// Whether a level is above a threshold, both given as the bits of a
/// single-precision number, the threshold not negative.
///
/// Among the numbers that are not negative, the larger number has the larger
/// bits. A level that is no number, or is negative, is above nothing.
pub open spec fn exceeds_threshold(level: u32, threshold: u32) -> bool {
    level <= LEVEL_BITS_MAX && level > threshold
}

/// Samples per second over the whole capture, at most `u32::MAX`, and 0
/// while no time has passed.
pub open spec fn spec_samples_per_sec(total_samples: u64, elapsed: u64) -> nat {
    if elapsed == 0 {
        0
    } else if total_samples * 1000 / (elapsed as int) > u32::MAX {
        u32::MAX as nat
    } else {
        (total_samples * 1000 / (elapsed as int)) as nat
    }
}

/// What the capture task holds between two chunks.
pub struct CaptureLoopModel {
    /// The sliding buffer, oldest sample first.
    pub buffer: Seq<u32>,
    pub policy: CapturePolicy,
    /// When a window was last handed out, or 0.
    pub last_transcription_ms: u64,
    /// When a level update was last sent, or 0.
    pub last_level_ms: u64,
    /// Samples taken in so far (it stops counting at the largest value of
    /// its type).
    pub total_samples: u64,
}

/// Whether enough audio is buffered and enough time has passed for a
/// transcription.
pub open spec fn transcription_due(m: CaptureLoopModel, now_ms: u64) -> bool {
    &&& m.buffer.len() >= m.policy.min_samples
    &&& elapsed_ms(now_ms, m.last_transcription_ms) >= m.policy.transcription_interval_ms
}

/// Whether a window is handed out: a transcription is due, the buffer is
/// not silent, and the window taken from it is not silent either.
pub open spec fn should_fire(
    m: CaptureLoopModel,
    now_ms: u64,
    buffer_level: u32,
    window_level: u32,
) -> bool {
    &&& transcription_due(m, now_ms)
    &&& exceeds_threshold(buffer_level, m.policy.silence_threshold)
    &&& exceeds_threshold(window_level, m.policy.silence_threshold)
}

/// Whether a level update is due.
pub open spec fn level_due(m: CaptureLoopModel, now_ms: u64) -> bool {
    elapsed_ms(now_ms, m.last_level_ms) > m.policy.level_interval_ms
}

/// The state after a chunk was taken in.
pub open spec fn after_chunk(m: CaptureLoopModel, chunk: Seq<u32>) -> CaptureLoopModel {
    CaptureLoopModel {
        buffer: spec_trimmed(m.buffer + chunk, m.policy.window_samples as nat),
        total_samples: if m.total_samples + chunk.len() > u64::MAX {
            u64::MAX
        } else {
            (m.total_samples + chunk.len()) as u64
        },
        ..m
    }
}

/// The state after a window was handed out at `now_ms`.
pub open spec fn after_fire(m: CaptureLoopModel, now_ms: u64) -> CaptureLoopModel {
    CaptureLoopModel {
        buffer: spec_shifted(m.buffer, m.policy.window_samples as nat),
        last_transcription_ms: now_ms,
        ..m
    }
}

/// A window of audio that is ready for transcription.
#[derive(Debug)]
pub struct AudioChunkReady {
    /// The samples as little-endian 32-bit floating point, in base64.
    pub audio: String,
    pub sample_rate: u32,
    pub channels: u16,
    pub bits_per_sample: u16,
    /// Milliseconds since the capture started.
    pub timestamp: u64,
}

/// What a level update says besides the level itself, which the caller
/// measures on the chunk at hand.
#[derive(Debug)]
pub struct AudioLevelUpdate {
    pub capturing: bool,
    pub samples_per_sec: u32,
    pub device: String,
}

/// The state of the capture task.
pub struct CaptureLoop {
    buffer: TranscriptionBuffer,
    policy: CapturePolicy,
    last_transcription_ms: u64,
    last_level_ms: u64,
    total_samples: u64,
}

impl View for CaptureLoop {
    type V = CaptureLoopModel;

    closed spec fn view(&self) -> CaptureLoopModel {
        CaptureLoopModel {
            buffer: self.buffer@,
            policy: self.policy,
            last_transcription_ms: self.last_transcription_ms,
            last_level_ms: self.last_level_ms,
            total_samples: self.total_samples,
        }
    }
}

impl CaptureLoop {
    /// The buffer is within its cap and belongs to the policy's window.
    pub closed spec fn wf(&self) -> bool {
        &&& self.buffer.wf()
        &&& self.buffer.window_size() == self.policy.window_samples
        &&& self.policy.wf()
    }

    /// The state at the start of a capture: nothing buffered, the clock at 0.
    pub fn new(policy: CapturePolicy) -> (r: Self)
        requires
            policy.wf(),
        ensures
            r.wf(),
            r@ == (CaptureLoopModel {
                buffer: Seq::<u32>::empty(),
                policy,
                last_transcription_ms: 0,
                last_level_ms: 0,
                total_samples: 0,
            }),
    {
        CaptureLoop {
            buffer: TranscriptionBuffer::new(policy.window_samples),
            policy,
            last_transcription_ms: 0,
            last_level_ms: 0,
            total_samples: 0,
        }
    }

    /// The cap of the buffer holds in every state.
    pub proof fn lemma_buffer_within_cap(&self)
        requires
            self.wf(),
        ensures
            self@.buffer.len() <= 2 * self@.policy.window_samples,
    {
        self.buffer.lemma_within_cap();
    }

    /// The samples buffered, oldest first.
    pub fn buffered(&self) -> (r: &Vec<u32>)
        ensures
            r@ == self@.buffer,
    {
        self.buffer.samples()
    }

    /// The window that would be handed out now.
    pub fn window(&self) -> (r: Vec<u32>)
        requires
            self.wf(),
        ensures
            r@ == spec_window(self@.buffer, self@.policy.window_samples as nat),
    {
        self.buffer.window_samples()
    }

    /// Samples taken in so far.
    pub fn total_samples(&self) -> (r: u64)
        ensures
            r == self@.total_samples,
    {
        self.total_samples
    }

    /// Takes a chunk of mono samples at the target rate into the buffer.
    pub fn accept_chunk(&mut self, chunk: &[u32])
        requires
            old(self).wf(),
        ensures
            final(self).wf(),
            final(self)@ == after_chunk(old(self)@, chunk@),
    {
        self.buffer.push_chunk(chunk);
        let room: u64 = u64::MAX - self.total_samples;
        if chunk.len() as u64 > room {
            self.total_samples = u64::MAX;
        } else {
            self.total_samples = self.total_samples + chunk.len() as u64;
        }
    }

    /// Whether enough audio is buffered and enough time has passed for a
    /// transcription. Only then the levels need to be measured.
    pub fn is_transcription_due(&self, now_ms: u64) -> (r: bool)
        ensures
            r == transcription_due(self@, now_ms),
    {
        let elapsed: u64 = if now_ms >= self.last_transcription_ms {
            now_ms - self.last_transcription_ms
        } else {
            0
        };
        self.buffer.len() >= self.policy.min_samples && elapsed
            >= self.policy.transcription_interval_ms
    }

    /// Hands out a window for transcription if one is due and neither the
    /// buffer nor the window is silent.
    ///
    /// `buffer_level` is the RMS of [`Self::buffered`] and `window_level` that
    /// of [`Self::window`], each as the bits of a single-precision number.
    /// After a window was handed out the buffer has moved on by half a
    /// window; otherwise nothing has changed.
    pub fn fire_transcription(&mut self, now_ms: u64, buffer_level: u32, window_level: u32) -> (r:
        Option<AudioChunkReady>)
        requires
            old(self).wf(),
        ensures
            final(self).wf(),
            r is Some <==> should_fire(old(self)@, now_ms, buffer_level, window_level),
            r matches Some(ev) ==> {
                &&& ev.audio@ == spec_encode_samples(
                    spec_window(old(self)@.buffer, old(self)@.policy.window_samples as nat),
                )
                &&& ev.sample_rate == TARGET_SAMPLE_RATE
                &&& ev.channels == 1
                &&& ev.bits_per_sample == 32
                &&& ev.timestamp == now_ms
                &&& final(self)@ == after_fire(old(self)@, now_ms)
            },
            r is None ==> final(self)@ == old(self)@,
    {
        if !self.is_transcription_due(now_ms) {
            return None;
        }
        let threshold: u32 = self.policy.silence_threshold;
        if !(buffer_level <= LEVEL_BITS_MAX && buffer_level > threshold) {
            return None;
        }
        if !(window_level <= LEVEL_BITS_MAX && window_level > threshold) {
            return None;
        }
        let window = self.buffer.window_samples();
        let audio = encode_samples(window.as_slice());
        self.last_transcription_ms = now_ms;
        self.buffer.shift();
        Some(
            AudioChunkReady {
                audio,
                sample_rate: TARGET_SAMPLE_RATE,
                channels: 1,
                bits_per_sample: 32,
                timestamp: now_ms,
            },
        )
    }

    /// Whether a level update is due.
    pub fn is_level_due(&self, now_ms: u64) -> (r: bool)
        ensures
            r == level_due(self@, now_ms),
    {
        let elapsed: u64 = if now_ms >= self.last_level_ms {
            now_ms - self.last_level_ms
        } else {
            0
        };
        elapsed > self.policy.level_interval_ms
    }

    /// The level update to send now, if one is due.
    pub fn level_update(&mut self, now_ms: u64, device_id: &str) -> (r: Option<AudioLevelUpdate>)
        ensures
            old(self).wf() ==> final(self).wf(),
            r is Some <==> level_due(old(self)@, now_ms),
            r matches Some(u) ==> {
                &&& u.capturing
                &&& u.samples_per_sec == spec_samples_per_sec(old(self)@.total_samples, now_ms)
                &&& u.device@ == device_id@
                &&& final(self)@ == (CaptureLoopModel { last_level_ms: now_ms, ..old(self)@ })
            },
            r is None ==> final(self)@ == old(self)@,
    {
        if !self.is_level_due(now_ms) {
            return None;
        }
        let samples_per_sec = samples_per_sec(self.total_samples, now_ms);
        self.last_level_ms = now_ms;
        Some(AudioLevelUpdate { capturing: true, samples_per_sec, device: String::from_str(device_id) })
    }
}

/// Samples per second over the whole capture.
pub fn samples_per_sec(total_samples: u64, elapsed: u64) -> (r: u32)
    ensures
        r == spec_samples_per_sec(total_samples, elapsed),
{
    if elapsed == 0 {
        0
    } else {
        let rate: u128 = (total_samples as u128) * 1000 / (elapsed as u128);
        if rate > u32::MAX as u128 {
            u32::MAX
        } else {
            rate as u32
        }
    }
}

/// Whether a level is above a threshold, both as the bits of a
/// single-precision number, the threshold not negative.
pub fn level_exceeds(level: u32, threshold: u32) -> (r: bool)
    ensures
        r == exceeds_threshold(level, threshold),
{
    level <= LEVEL_BITS_MAX && level > threshold
}

/// A window is handed out exactly when enough audio is buffered, enough time
/// has passed since the last window, and the audio is not silent. Where the
/// window is the whole buffer, one level stands for both.
pub proof fn lemma_trigger_gating(m: CaptureLoopModel, now_ms: u64, level: u32)
    ensures
        should_fire(m, now_ms, level, level) <==> (m.buffer.len() >= m.policy.min_samples
            && elapsed_ms(now_ms, m.last_transcription_ms) >= m.policy.transcription_interval_ms
            && exceeds_threshold(level, m.policy.silence_threshold)),
        m.buffer.len() <= m.policy.window_samples ==> spec_window(
            m.buffer,
            m.policy.window_samples as nat,
        ) == m.buffer,
{
}

/// Right after a window was handed out no other is due before the interval
/// has passed again.
pub proof fn lemma_no_refire_within_interval(
    m: CaptureLoopModel,
    fired_at: u64,
    now_ms: u64,
    buffer_level: u32,
    window_level: u32,
)
    requires
        fired_at <= now_ms,
        now_ms - fired_at < m.policy.transcription_interval_ms,
    ensures
        !should_fire(after_fire(m, fired_at), now_ms, buffer_level, window_level),
{
}

/// Feeding the buffer, however much, never leaves it longer than two
/// windows.
pub proof fn lemma_buffer_cap(m: CaptureLoopModel, chunk: Seq<u32>)
    ensures
        after_chunk(m, chunk).buffer.len() <= 2 * m.policy.window_samples,
{
}

/// The state after a run of chunks, taken in one after the other.
pub open spec fn after_chunks(m: CaptureLoopModel, chunks: Seq<Seq<u32>>) -> CaptureLoopModel
    decreases chunks.len(),
{
    if chunks.len() == 0 {
        m
    } else {
        after_chunk(after_chunks(m, chunks.drop_last()), chunks.last())
    }
}

/// Whatever run of chunks arrives, the buffer stays within two windows, the
/// policy stays what it was, and the times of the last window and the last
/// level update are not touched.
pub proof fn lemma_run_keeps_cap(m: CaptureLoopModel, chunks: Seq<Seq<u32>>)
    requires
        m.buffer.len() <= 2 * m.policy.window_samples,
    ensures
        after_chunks(m, chunks).buffer.len() <= 2 * m.policy.window_samples,
        after_chunks(m, chunks).policy == m.policy,
        after_chunks(m, chunks).last_transcription_ms == m.last_transcription_ms,
        after_chunks(m, chunks).last_level_ms == m.last_level_ms,
    decreases chunks.len(),
{
    if chunks.len() > 0 {
        lemma_run_keeps_cap(m, chunks.drop_last());
    }
}

} // verus!
