//! Energy-based voice activity detection over 16 kHz mono PCM chunks.
//!
//! All quantities are kept as integers: durations are counted in samples and
//! the silence timeout in milliseconds, so every comparison is exact.

use vstd::prelude::*;

verus! {

/// Samples per second of the capture stream.
pub const SAMPLE_RATE: u32 = 16000;

/// Samples per millisecond at `SAMPLE_RATE`.
pub const SAMPLES_PER_MS: u64 = 16;

/// Amplitude threshold at sensitivity 1; sensitivity `s` divides it by `s`.
pub const BASE_THRESHOLD: u128 = 500;

/// Full scale of a 16-bit sample, the divisor that maps mean amplitude to 0..100.
pub const FULL_SCALE: u128 = 32768;

/// Shortest and longest silence timeout accepted on update, in milliseconds.
pub const MIN_SILENCE_TIMEOUT_MS: u32 = 500;
pub const MAX_SILENCE_TIMEOUT_MS: u32 = 5000;

/// Absolute value of one sample, as a mathematical integer.
pub open spec fn sample_magnitude(s: i16) -> int {
    if s < 0 { -(s as int) } else { s as int }
}

/// Sum of the absolute sample values of a chunk.
pub open spec fn amplitude_sum(s: Seq<i16>) -> int
    decreases s.len(),
{
    if s.len() == 0 {
        0
    } else {
        amplitude_sum(s.drop_last()) + sample_magnitude(s.last())
    }
}

/// Sensitivity clamped into 1..=5.
pub open spec fn clamp_sensitivity(s: int) -> int {
    if s < 1 { 1 } else if s > 5 { 5 } else { s }
}

/// Silence timeout clamped into the accepted range.
pub open spec fn clamp_timeout_ms(t: int) -> int {
    if t < MIN_SILENCE_TIMEOUT_MS { MIN_SILENCE_TIMEOUT_MS as int }
    else if t > MAX_SILENCE_TIMEOUT_MS { MAX_SILENCE_TIMEOUT_MS as int }
    else { t }
}

/// The mean amplitude `sum / count` lies below the threshold `500 / sensitivity`,
/// compared without division: `sum * sensitivity < 500 * count`.
/// An empty chunk has no mean and never counts as silence.
pub open spec fn below_threshold(sensitivity: int, sum: int, count: int) -> bool {
    sum * sensitivity < BASE_THRESHOLD * count
}

/// The chunk is quiet at the given sensitivity.
pub open spec fn is_silent(sensitivity: int, s: Seq<i16>) -> bool {
    below_threshold(sensitivity, amplitude_sum(s), s.len() as int)
}

/// Level 0..=100: mean absolute amplitude over full scale, in percent, rounded
/// down and clamped; an empty chunk reads as full scale.
pub open spec fn level_of(s: Seq<i16>) -> int {
    if s.len() == 0 {
        100
    } else {
        let l = amplitude_sum(s) * 100 / (s.len() * FULL_SCALE as int);
        if l > 100 { 100 } else { l }
    }
}

/// What the detector remembers between chunks.
pub struct VadView {
    pub sensitivity: int,
    pub silence_timeout_ms: int,
    /// Silence accumulated since the last speech chunk, in samples.
    pub silence_samples: int,
    pub speech_detected: bool,
    pub level: int,
}

impl VadView {
    pub open spec fn wf(self) -> bool {
        &&& 1 <= self.sensitivity <= 5
        &&& 0 <= self.silence_timeout_ms <= u32::MAX
        &&& 0 <= self.silence_samples <= u64::MAX
        &&& 0 <= self.level <= 100
    }

    /// Accumulated silence is longer than the timeout.
    pub open spec fn timed_out(self) -> bool {
        self.silence_samples > self.silence_timeout_ms * SAMPLES_PER_MS
    }
}

/// One step of the detector: the new state and the outcome, where
/// `Some(false)` is speech, `None` silence still accumulating and
/// `Some(true)` the silence timeout after speech (flush the utterance).
pub open spec fn vad_step(v: VadView, s: Seq<i16>) -> (VadView, Option<bool>) {
    let heard = VadView { level: level_of(s), ..v };
    if is_silent(v.sensitivity, s) {
        let total = v.silence_samples + s.len();
        let acc = if total > u64::MAX { u64::MAX as int } else { total };
        let quiet = VadView { silence_samples: acc, ..heard };
        if quiet.timed_out() && v.speech_detected {
            (VadView { silence_samples: 0, speech_detected: false, ..heard }, Some(true))
        } else {
            (quiet, None)
        }
    } else {
        (VadView { silence_samples: 0, speech_detected: true, ..heard }, Some(false))
    }
}

/// The detector after a run of chunks, and each chunk's outcome in order.
pub open spec fn vad_run(v: VadView, chunks: Seq<Seq<i16>>) -> (VadView, Seq<Option<bool>>)
    decreases chunks.len(),
{
    if chunks.len() == 0 {
        (v, Seq::empty())
    } else {
        let (w, outs) = vad_run(v, chunks.drop_last());
        let (x, o) = vad_step(w, chunks.last());
        (x, outs.push(o))
    }
}

/// Simple energy-based voice activity detector.
pub struct VoiceActivityDetector {
    sensitivity: u8,
    silence_timeout_ms: u32,
    silence_samples: u64,
    speech_detected: bool,
    current_level: u8,
}

impl View for VoiceActivityDetector {
    type V = VadView;

    closed spec fn view(&self) -> VadView {
        VadView {
            sensitivity: self.sensitivity as int,
            silence_timeout_ms: self.silence_timeout_ms as int,
            silence_samples: self.silence_samples as int,
            speech_detected: self.speech_detected,
            level: self.current_level as int,
        }
    }
}

proof fn lemma_amplitude_bound(s: Seq<i16>)
    ensures
        0 <= amplitude_sum(s) <= FULL_SCALE * s.len(),
    decreases s.len(),
{
    if s.len() > 0 {
        lemma_amplitude_bound(s.drop_last());
    }
}

proof fn lemma_step_wf(v: VadView, s: Seq<i16>)
    requires
        v.wf(),
    ensures
        vad_step(v, s).0.wf(),
        vad_step(v, s).0.sensitivity == v.sensitivity,
        vad_step(v, s).0.silence_timeout_ms == v.silence_timeout_ms,
{
    lemma_amplitude_bound(s);
    if s.len() > 0 {
        let d = s.len() * FULL_SCALE as int;
        assert(amplitude_sum(s) * 100 >= 0) by (nonlinear_arith)
            requires amplitude_sum(s) >= 0;
        assert(amplitude_sum(s) * 100 / d >= 0) by (nonlinear_arith)
            requires amplitude_sum(s) * 100 >= 0, d > 0;
    }
}

proof fn lemma_run_wf(v: VadView, chunks: Seq<Seq<i16>>)
    requires
        v.wf(),
    ensures
        vad_run(v, chunks).0.wf(),
        vad_run(v, chunks).0.sensitivity == v.sensitivity,
        vad_run(v, chunks).1.len() == chunks.len(),
    decreases chunks.len(),
{
    if chunks.len() > 0 {
        lemma_run_wf(v, chunks.drop_last());
        lemma_step_wf(vad_run(v, chunks.drop_last()).0, chunks.last());
    }
}

/// A higher sensitivity never raises the threshold, and the threshold is
/// positive: whatever is quiet at sensitivity `s2` is quiet at any lower
/// `s1`, and a chunk of zero amplitude is quiet at every sensitivity.
pub proof fn lemma_threshold_non_increasing(s1: int, s2: int, sum: int, count: int)
    requires
        1 <= s1 <= s2 <= 5,
        0 <= sum,
        0 < count,
    ensures
        below_threshold(s2, sum, count) ==> below_threshold(s1, sum, count),
        below_threshold(s1, 0, count),
        below_threshold(s2, 0, count),
{
    assert(sum * s1 <= sum * s2) by (nonlinear_arith)
        requires 0 <= sum, s1 <= s2;
}

/// Starting with no speech heard (a new or reset detector), every flush is
/// preceded by a speech chunk with no other flush in between: a flush comes
/// at most once per utterance, and only after speech.
pub proof fn lemma_flush_follows_speech(v: VadView, chunks: Seq<Seq<i16>>)
    requires
        v.wf(),
        !v.speech_detected,
    ensures
        vad_run(v, chunks).1.len() == chunks.len(),
        forall|i: int|
            0 <= i < chunks.len() && #[trigger] vad_run(v, chunks).1[i] == Some(true) ==> exists|j: int|
                0 <= j < i && vad_run(v, chunks).1[j] == Some(false) && forall|k: int|
                    j < k < i ==> vad_run(v, chunks).1[k] != Some(true),
        vad_run(v, chunks).0.speech_detected ==> exists|j: int|
            0 <= j < chunks.len() && vad_run(v, chunks).1[j] == Some(false) && forall|k: int|
                j < k < chunks.len() ==> vad_run(v, chunks).1[k] != Some(true),
    decreases chunks.len(),
{
    lemma_run_wf(v, chunks);
    if chunks.len() > 0 {
        let pre = chunks.drop_last();
        lemma_flush_follows_speech(v, pre);
        lemma_run_wf(v, pre);
        let (w, outs) = vad_run(v, pre);
        let (x, o) = vad_step(w, chunks.last());
        let all = outs.push(o);
        assert(vad_run(v, chunks).1 == all);
        let n = pre.len() as int;
        assert forall|i: int| 0 <= i < chunks.len() && #[trigger] all[i] == Some(true) implies exists|j: int|
            0 <= j < i && all[j] == Some(false) && forall|k: int| j < k < i ==> all[k] != Some(true) by {
            if i < n {
                assert(outs[i] == Some(true));
                let j = choose|j: int| 0 <= j < i && outs[j] == Some(false) && forall|k: int|
                    j < k < i ==> outs[k] != Some(true);
                assert(all[j] == Some(false));
                assert forall|k: int| j < k < i implies all[k] != Some(true) by {
                    assert(all[k] == outs[k]);
                }
            } else {
                assert(w.speech_detected);
                let j = choose|j: int| 0 <= j < n && outs[j] == Some(false) && forall|k: int|
                    j < k < n ==> outs[k] != Some(true);
                assert(all[j] == Some(false));
                assert forall|k: int| j < k < i implies all[k] != Some(true) by {
                    assert(all[k] == outs[k]);
                }
            }
        }
        if x.speech_detected {
            if o == Some(false) {
                assert(all[n] == Some(false));
            } else {
                assert(w.speech_detected);
                let j = choose|j: int| 0 <= j < n && outs[j] == Some(false) && forall|k: int|
                    j < k < n ==> outs[k] != Some(true);
                assert(all[j] == Some(false));
                assert forall|k: int| j < k < chunks.len() implies all[k] != Some(true) by {
                    if k < n {
                        assert(all[k] == outs[k]);
                    }
                }
            }
        }
    }
}

/// With no speech heard yet, a run of quiet chunks never flushes, however
/// long it lasts: without speech there is nothing to hand on.
pub proof fn lemma_silence_never_flushes(v: VadView, chunks: Seq<Seq<i16>>)
    requires
        v.wf(),
        !v.speech_detected,
        forall|i: int| 0 <= i < chunks.len() ==> is_silent(v.sensitivity, #[trigger] chunks[i]),
    ensures
        vad_run(v, chunks).1.len() == chunks.len(),
        forall|i: int| 0 <= i < chunks.len() ==> #[trigger] vad_run(v, chunks).1[i] == None::<bool>,
        !vad_run(v, chunks).0.speech_detected,
    decreases chunks.len(),
{
    lemma_run_wf(v, chunks);
    if chunks.len() > 0 {
        let pre = chunks.drop_last();
        assert forall|i: int| 0 <= i < pre.len() implies is_silent(v.sensitivity, #[trigger] pre[i]) by {
            assert(pre[i] == chunks[i]);
        }
        lemma_silence_never_flushes(v, pre);
        lemma_run_wf(v, pre);
        let (w, outs) = vad_run(v, pre);
        assert(chunks.last() == chunks[chunks.len() - 1]);
        let all = vad_run(v, chunks).1;
        assert forall|i: int| 0 <= i < chunks.len() implies #[trigger] all[i] == None::<bool> by {
            if i < pre.len() {
                assert(all[i] == outs[i]);
            }
        }
    }
}

/// Sum of absolute sample values, with its exact value and bound.
fn chunk_amplitude(samples: &[i16]) -> (r: u128)
    ensures
        r == amplitude_sum(samples@),
        r <= FULL_SCALE * samples@.len(),
{
    let mut sum: u128 = 0;
    let mut i: usize = 0;
    while i < samples.len()
        invariant
            i <= samples@.len(),
            sum == amplitude_sum(samples@.subrange(0, i as int)),
            sum <= FULL_SCALE * i,
        decreases samples@.len() - i,
    {
        let s = samples[i];
        let m: u128 = if s < 0 { (-(s as i32)) as u128 } else { s as u128 };
        proof {
            let next = samples@.subrange(0, i as int + 1);
            assert(next.drop_last() =~= samples@.subrange(0, i as int));
            assert(next.last() == s);
        }
        sum = sum + m;
        i = i + 1;
    }
    proof {
        assert(samples@.subrange(0, samples@.len() as int) =~= samples@);
    }
    sum
}

/// Level 0..=100 of a chunk, as `level_of` states it.
pub fn chunk_level(samples: &[i16]) -> (r: u8)
    ensures
        r as int == level_of(samples@),
        r <= 100,
{
    if samples.len() == 0 {
        return 100;
    }
    let sum = chunk_amplitude(samples);
    let n = samples.len() as u128;
    proof {
        assert(n * FULL_SCALE <= 0x1_0000_0000_0000_0000u128 * 32768) by (nonlinear_arith)
            requires n <= 0xffff_ffff_ffff_ffffu128;
        assert(sum * 100 <= 0x1_0000_0000_0000_0000u128 * 32768 * 100) by (nonlinear_arith)
            requires sum <= FULL_SCALE * n, n <= 0xffff_ffff_ffff_ffffu128;
    }
    let l = sum * 100 / (n * FULL_SCALE);
    if l > 100 { 100 } else { l as u8 }
}

impl VoiceActivityDetector {
    #[verifier::type_invariant]
    spec fn inv(&self) -> bool {
        1 <= self.sensitivity <= 5 && self.current_level <= 100
    }

    /// A detector with the given sensitivity (clamped into 1..=5) and silence
    /// timeout in milliseconds, with no speech heard yet.
    pub fn new(sensitivity: u8, silence_timeout_ms: u32) -> (r: Self)
        ensures
            r@.wf(),
            r@.sensitivity == clamp_sensitivity(sensitivity as int),
            r@.silence_timeout_ms == silence_timeout_ms,
            r@.silence_samples == 0,
            !r@.speech_detected,
            r@.level == 0,
    {
        VoiceActivityDetector {
            sensitivity: if sensitivity < 1 { 1 } else if sensitivity > 5 { 5 } else { sensitivity },
            silence_timeout_ms,
            silence_samples: 0,
            speech_detected: false,
            current_level: 0,
        }
    }

    /// Classifies one chunk and updates the utterance state, as `vad_step` states.
    pub fn process(&mut self, samples: &[i16]) -> (r: Option<bool>)
        ensures
            final(self)@.wf(),
            (final(self)@, r) == vad_step(old(self)@, samples@),
    {
        proof {
            use_type_invariant(&*self);
        }
        let sum = chunk_amplitude(samples);
        let n = samples.len() as u128;
        self.current_level = chunk_level(samples);
        let s = self.sensitivity as u128;
        proof {
            assert(sum * s <= 0x1_0000_0000_0000_0000u128 * 32768 * 5) by (nonlinear_arith)
                requires sum <= FULL_SCALE * n, n <= 0xffff_ffff_ffff_ffffu128, s <= 5;
        }
        if sum * s < BASE_THRESHOLD * n {
            self.silence_samples = self.silence_samples.saturating_add(samples.len() as u64);
            let limit = self.silence_timeout_ms as u64 * SAMPLES_PER_MS;
            if self.silence_samples > limit && self.speech_detected {
                self.reset();
                return Some(true);
            }
            None
        } else {
            self.speech_detected = true;
            self.silence_samples = 0;
            Some(false)
        }
    }

    /// Clears the utterance state; sensitivity, timeout and level stay.
    pub fn reset(&mut self)
        ensures
            final(self)@ == (VadView { silence_samples: 0, speech_detected: false, ..old(self)@ }),
    {
        proof {
            use_type_invariant(&*self);
        }
        self.silence_samples = 0;
        self.speech_detected = false;
    }

    /// Level 0..=100 of the last chunk processed.
    pub fn current_level(&self) -> (r: u8)
        ensures
            r as int == self@.level,
    {
        self.current_level
    }

    /// Whether speech was heard in the current utterance.
    pub fn has_speech(&self) -> (r: bool)
        ensures
            r == self@.speech_detected,
    {
        self.speech_detected
    }

    /// Sets the sensitivity, clamped into 1..=5.
    pub fn set_sensitivity(&mut self, sensitivity: u8)
        ensures
            final(self)@.wf(),
            final(self)@ == (VadView { sensitivity: clamp_sensitivity(sensitivity as int), ..old(self)@ }),
    {
        proof {
            use_type_invariant(&*self);
        }
        self.sensitivity = if sensitivity < 1 { 1 } else if sensitivity > 5 { 5 } else { sensitivity };
    }

    /// Sets the silence timeout in milliseconds, clamped into 500..=5000.
    pub fn set_silence_timeout(&mut self, timeout_ms: u32)
        ensures
            final(self)@.wf(),
            final(self)@ == (VadView { silence_timeout_ms: clamp_timeout_ms(timeout_ms as int), ..old(self)@ }),
    {
        proof {
            use_type_invariant(&*self);
        }
        self.silence_timeout_ms = if timeout_ms < MIN_SILENCE_TIMEOUT_MS {
            MIN_SILENCE_TIMEOUT_MS
        } else if timeout_ms > MAX_SILENCE_TIMEOUT_MS {
            MAX_SILENCE_TIMEOUT_MS
        } else {
            timeout_ms
        };
    }
}

} // verus!
