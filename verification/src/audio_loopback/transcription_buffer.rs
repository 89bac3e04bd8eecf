//! The sliding buffer of mono samples that waits for transcription.
//!
//! The buffer never holds more than two windows. When a chunk would take it
//! over that, the oldest samples go and one window, the latest, stays. After
//! a window has been handed out, the buffer moves on by half a window, so
//! that consecutive windows overlap by half.

use vstd::prelude::*;

verus! {

/// What is left of `s` after trimming: `s` itself while it holds no more than
/// two windows, else its last `window` samples.
pub open spec fn spec_trimmed(s: Seq<u32>, window: nat) -> Seq<u32> {
    if s.len() > 2 * window {
        s.subrange(s.len() - window, s.len() as int)
    } else {
        s
    }
}

/// The first window of `s`, or all of `s` where it is shorter than that.
pub open spec fn spec_window(s: Seq<u32>, window: nat) -> Seq<u32> {
    if s.len() > window {
        s.subrange(0, window as int)
    } else {
        s
    }
}

/// What is left of `s` after a window was handed out: `s` without its first
/// half window; a buffer of no more than half a window stays as it is.
pub open spec fn spec_shifted(s: Seq<u32>, window: nat) -> Seq<u32> {
    if s.len() > window / 2 {
        s.subrange((window / 2) as int, s.len() as int)
    } else {
        s
    }
}

/// Mono samples at the target rate, oldest first, never more than two
/// windows of them.
pub struct TranscriptionBuffer {
    samples: Vec<u32>,
    window: usize,
}

impl View for TranscriptionBuffer {
    type V = Seq<u32>;

    closed spec fn view(&self) -> Seq<u32> {
        self.samples@
    }
}

impl TranscriptionBuffer {
    /// Number of samples in one window.
    pub closed spec fn window_size(&self) -> nat {
        self.window as nat
    }

    /// The buffer holds no more than two windows, and the byte length of a
    /// window in its wire form fits in `usize`.
    pub closed spec fn wf(&self) -> bool {
        &&& self.samples@.len() <= 2 * self.window
        &&& self.window * 16 <= usize::MAX
    }

    /// A well-formed buffer is within its cap.
    pub proof fn lemma_within_cap(&self)
        requires
            self.wf(),
        ensures
            self@.len() <= 2 * self.window_size(),
            self.window_size() * 16 <= usize::MAX,
    {
    }

    /// An empty buffer for windows of `window` samples.
    pub fn new(window: usize) -> (r: Self)
        requires
            window * 16 <= usize::MAX,
        ensures
            r.wf(),
            r@ == Seq::<u32>::empty(),
            r.window_size() == window,
    {
        TranscriptionBuffer { samples: Vec::new(), window }
    }

    /// Number of samples in one window.
    pub fn window_len(&self) -> (r: usize)
        ensures
            r == self.window_size(),
    {
        self.window
    }

    /// Number of samples held.
    pub fn len(&self) -> (r: usize)
        ensures
            r == self@.len(),
    {
        self.samples.len()
    }

    /// Whether no sample is held.
    pub fn is_empty(&self) -> (r: bool)
        ensures
            r == (self@.len() == 0),
    {
        self.samples.len() == 0
    }

    /// The samples held, oldest first.
    pub fn samples(&self) -> (r: &Vec<u32>)
        ensures
            r@ == self@,
    {
        &self.samples
    }

    /// Appends a chunk and trims the buffer.
    pub fn push_chunk(&mut self, chunk: &[u32])
        requires
            old(self).wf(),
        ensures
            final(self).wf(),
            final(self).window_size() == old(self).window_size(),
            final(self)@ == spec_trimmed(old(self)@ + chunk@, old(self).window_size()),
    {
        let held: usize = self.samples.len();
        let cap: usize = 2 * self.window;
        let ghost before = self.samples@;
        let ghost joined = before + chunk@;
        if chunk.len() <= cap - held {
            let mut i: usize = 0;
            while i < chunk.len()
                invariant
                    i <= chunk.len(),
                    held + chunk.len() <= cap,
                    self.window * 16 <= usize::MAX,
                    cap == 2 * self.window,
                    self.samples@ == before + chunk@.subrange(0, i as int),
                    before.len() == held,
                decreases chunk.len() - i,
            {
                self.samples.push(chunk[i]);
                assert(self.samples@ =~= before + chunk@.subrange(0, i + 1));
                i += 1;
            }
            assert(chunk@.subrange(0, chunk.len() as int) =~= chunk@);
        } else {
            let window: usize = self.window;
            let mut kept: Vec<u32> = Vec::new();
            if chunk.len() >= window {
                let start: usize = chunk.len() - window;
                let mut i: usize = start;
                while i < chunk.len()
                    invariant
                        start <= i <= chunk.len(),
                        start == chunk.len() - window,
                        kept@ == chunk@.subrange(start as int, i as int),
                    decreases chunk.len() - i,
                {
                    kept.push(chunk[i]);
                    assert(kept@ =~= chunk@.subrange(start as int, i + 1));
                    i += 1;
                }
                assert(kept@ =~= joined.subrange(joined.len() - window, joined.len() as int));
            } else {
                let from_old: usize = window - chunk.len();
                let start: usize = held - from_old;
                let mut i: usize = start;
                while i < held
                    invariant
                        start <= i <= held,
                        held == self.samples@.len(),
                        self.samples@ == before,
                        kept@ == before.subrange(start as int, i as int),
                    decreases held - i,
                {
                    kept.push(self.samples[i]);
                    assert(kept@ =~= before.subrange(start as int, i + 1));
                    i += 1;
                }
                let mut k: usize = 0;
                while k < chunk.len()
                    invariant
                        k <= chunk.len(),
                        kept@ == before.subrange(start as int, held as int) + chunk@.subrange(
                            0,
                            k as int,
                        ),
                    decreases chunk.len() - k,
                {
                    kept.push(chunk[k]);
                    assert(kept@ =~= before.subrange(start as int, held as int) + chunk@.subrange(
                        0,
                        k + 1,
                    ));
                    k += 1;
                }
                assert(kept@ =~= joined.subrange(joined.len() - window, joined.len() as int));
            }
            self.samples = kept;
        }
    }

    /// The first window of the buffer, or all of it where it is shorter.
    pub fn window_samples(&self) -> (r: Vec<u32>)
        ensures
            r@ == spec_window(self@, self.window_size()),
    {
        let n: usize = if self.samples.len() > self.window {
            self.window
        } else {
            self.samples.len()
        };
        let mut out: Vec<u32> = Vec::new();
        let mut i: usize = 0;
        while i < n
            invariant
                i <= n <= self.samples@.len(),
                out@ == self.samples@.subrange(0, i as int),
            decreases n - i,
        {
            out.push(self.samples[i]);
            assert(out@ =~= self.samples@.subrange(0, i + 1));
            i += 1;
        }
        assert(self.samples@.subrange(0, self.samples@.len() as int) =~= self.samples@);
        out
    }

    /// Moves the buffer on by half a window.
    pub fn shift(&mut self)
        requires
            old(self).wf(),
        ensures
            final(self).wf(),
            final(self).window_size() == old(self).window_size(),
            final(self)@ == spec_shifted(old(self)@, old(self).window_size()),
    {
        let half: usize = self.window / 2;
        let held: usize = self.samples.len();
        if held > half {
            let mut kept: Vec<u32> = Vec::new();
            let mut i: usize = half;
            while i < held
                invariant
                    half <= i <= held,
                    held == self.samples@.len(),
                    kept@ == self.samples@.subrange(half as int, i as int),
                decreases held - i,
            {
                kept.push(self.samples[i]);
                assert(kept@ =~= self.samples@.subrange(half as int, i + 1));
                i += 1;
            }
            self.samples = kept;
        }
    }
}

/// However much is fed, the buffer is never left longer than two windows,
/// and what a trim keeps is the end of what was fed.
pub proof fn lemma_trim_caps_length(s: Seq<u32>, window: nat)
    ensures
        spec_trimmed(s, window).len() <= 2 * window,
        s.len() > 2 * window ==> spec_trimmed(s, window).len() == window,
        forall|i: int|
            0 <= i < spec_trimmed(s, window).len() ==> spec_trimmed(s, window)[i] == s[s.len()
                - spec_trimmed(s, window).len() + i],
{
}

/// Two windows handed out one after the other share half a window: the
/// second half of the first is the first half of the second.
pub proof fn lemma_windows_overlap_by_half(s: Seq<u32>, window: nat, i: int)
    requires
        s.len() >= window + window / 2,
        0 <= i < window - window / 2,
    ensures
        spec_window(spec_shifted(s, window), window)[i] == spec_window(s, window)[window / 2 + i],
{
}

} // verus!
