//! Voice-activity gating for a live direction, with echo-safety coordination
//! around text-to-speech playback.
//!
//! Three echo phases: **Muted** while playback is active and for
//! `muted_tail_ms` after it stops (no chunk counts as voiced), **Elevated**
//! for a further `elevated_tail_ms` (only chunks above the raised threshold
//! count as voiced), then **Normal**.
//!
//! Time is audio-domain elapsed milliseconds, advanced by each chunk's
//! duration, so the detector is a pure function of its inputs. The amplitude of a
//! chunk reaches the detector already classified against the normal and the
//! raised threshold (`ChunkLevel`); everything else is decided here.

use vstd::prelude::*;

verus! {

/// Timing of the detector and of the echo window, in milliseconds.
#[derive(Debug, Clone, Copy, PartialEq, Eq)]
pub struct VadConfig {
    /// Contiguous voiced duration required before declaring an utterance
    /// started, to reject brief noise blips.
    pub min_voice_ms: u32,
    /// Contiguous silence duration required before declaring an utterance
    /// ended.
    pub speech_timeout_ms: u32,
    /// Duration of the Muted phase after playback stops.
    pub muted_tail_ms: u32,
    /// Duration of the Elevated phase that follows the Muted phase.
    pub elevated_tail_ms: u32,
}

impl VadConfig {
    /// The default timing: 250 ms of voice to start an utterance, 1300 ms of
    /// silence to end it, a 300 ms Muted tail and a 700 ms Elevated tail.
    pub open spec fn spec_default() -> Self {
        VadConfig {
            min_voice_ms: 250,
            speech_timeout_ms: 1300,
            muted_tail_ms: 300,
            elevated_tail_ms: 700,
        }
    }
}

impl Default for VadConfig {
    fn default() -> (config: Self)
        ensures
            config == VadConfig::spec_default(),
    {
        VadConfig {
            min_voice_ms: 250,
            speech_timeout_ms: 1300,
            muted_tail_ms: 300,
            elevated_tail_ms: 700,
        }
    }
}

/// How loud one chunk is: whether its peak amplitude reaches the normal
/// threshold, and whether it reaches the raised threshold of the Elevated
/// phase.
#[derive(Debug, Clone, Copy, PartialEq, Eq)]
pub struct ChunkLevel {
    pub above_threshold: bool,
    pub above_elevated_threshold: bool,
}

/// The echo-safety phase the detector is in.
#[derive(Debug, Clone, Copy, PartialEq, Eq, Structural)]
pub enum EchoPhase {
    Muted,
    Elevated,
    Normal,
}

/// State transitions worth surfacing: utterance boundaries, and echo-window
/// events for field instrumentation.
#[derive(Debug, Clone, Copy, PartialEq, Eq, Structural)]
pub enum GateEvent {
    UtteranceStarted,
    UtteranceEnded,
    /// A chunk loud enough for normal-sensitivity detection was gated out by
    /// an active Muted or Elevated phase.
    SuppressedByPlayback,
    PlaybackWindowStarted,
    PlaybackWindowEnded,
}

/// The abstract state of a gate.
#[derive(Debug, Clone, Copy, PartialEq, Eq)]
pub struct VadGateView {
    pub config: VadConfig,
    pub elapsed_ms: u64,
    pub voiced_run_ms: u32,
    pub silence_run_ms: u32,
    pub in_utterance: bool,
    pub playback_active: bool,
    pub muted_until_ms: u64,
    pub elevated_until_ms: u64,
}

/// The state of a freshly created gate.
pub open spec fn initial_gate(config: VadConfig) -> VadGateView {
    VadGateView {
        config,
        elapsed_ms: 0,
        voiced_run_ms: 0,
        silence_run_ms: 0,
        in_utterance: false,
        playback_active: false,
        muted_until_ms: 0,
        elevated_until_ms: 0,
    }
}

/// The echo phase at the detector's current time.
pub open spec fn phase_of(g: VadGateView) -> EchoPhase {
    if g.playback_active || g.elapsed_ms < g.muted_until_ms {
        EchoPhase::Muted
    } else if g.elapsed_ms < g.elevated_until_ms {
        EchoPhase::Elevated
    } else {
        EchoPhase::Normal
    }
}

/// Whether a chunk of the given level counts as voiced in the given phase.
pub open spec fn gated_voiced(phase: EchoPhase, level: ChunkLevel) -> bool {
    match phase {
        EchoPhase::Muted => false,
        EchoPhase::Elevated => level.above_elevated_threshold,
        EchoPhase::Normal => level.above_threshold,
    }
}

/// Whether a playback notification keeps the window's end times within `u64`.
pub open spec fn can_notify(g: VadGateView, active: bool) -> bool {
    active || g.elapsed_ms + g.config.muted_tail_ms + g.config.elevated_tail_ms <= u64::MAX
}

/// The state after a playback notification.
pub open spec fn notified(g: VadGateView, active: bool) -> VadGateView {
    if active {
        VadGateView { playback_active: true, ..g }
    } else {
        VadGateView {
            playback_active: false,
            muted_until_ms: (g.elapsed_ms + g.config.muted_tail_ms) as u64,
            elevated_until_ms: (g.elapsed_ms + g.config.muted_tail_ms
                + g.config.elevated_tail_ms) as u64,
            ..g
        }
    }
}

/// Whether a chunk of the given duration keeps every counter within range.
pub open spec fn can_step(g: VadGateView, chunk_duration_ms: u32) -> bool {
    &&& g.elapsed_ms + chunk_duration_ms <= u64::MAX
    &&& g.voiced_run_ms + chunk_duration_ms <= u32::MAX
    &&& g.silence_run_ms + chunk_duration_ms <= u32::MAX
}

/// The state after one chunk, and the event it reports.
pub open spec fn step(g: VadGateView, level: ChunkLevel, chunk_duration_ms: u32) -> (
    VadGateView,
    Option<GateEvent>,
) {
    let phase = phase_of(g);
    let elapsed = (g.elapsed_ms + chunk_duration_ms) as u64;
    if gated_voiced(phase, level) {
        let voiced = (g.voiced_run_ms + chunk_duration_ms) as u32;
        let starts = !g.in_utterance && voiced >= g.config.min_voice_ms;
        (
            VadGateView {
                elapsed_ms: elapsed,
                voiced_run_ms: voiced,
                silence_run_ms: 0,
                in_utterance: g.in_utterance || starts,
                ..g
            },
            if starts {
                Some(GateEvent::UtteranceStarted)
            } else {
                None
            },
        )
    } else {
        let silence = (g.silence_run_ms + chunk_duration_ms) as u32;
        let ends = g.in_utterance && silence >= g.config.speech_timeout_ms;
        (
            VadGateView {
                elapsed_ms: elapsed,
                voiced_run_ms: 0,
                silence_run_ms: silence,
                in_utterance: g.in_utterance && !ends,
                ..g
            },
            if ends {
                Some(GateEvent::UtteranceEnded)
            } else if level.above_threshold && phase != EchoPhase::Normal {
                Some(GateEvent::SuppressedByPlayback)
            } else {
                None
            },
        )
    }
}

/// One direction's voice-activity and echo-safety state.
#[derive(Debug)]
pub struct VadGate {
    config: VadConfig,
    elapsed_ms: u64,
    voiced_run_ms: u32,
    silence_run_ms: u32,
    in_utterance: bool,
    playback_active: bool,
    muted_until_ms: u64,
    elevated_until_ms: u64,
}

impl View for VadGate {
    type V = VadGateView;

    closed spec fn view(&self) -> VadGateView {
        VadGateView {
            config: self.config,
            elapsed_ms: self.elapsed_ms,
            voiced_run_ms: self.voiced_run_ms,
            silence_run_ms: self.silence_run_ms,
            in_utterance: self.in_utterance,
            playback_active: self.playback_active,
            muted_until_ms: self.muted_until_ms,
            elevated_until_ms: self.elevated_until_ms,
        }
    }
}

impl VadGate {
    pub fn new(config: VadConfig) -> (gate: Self)
        ensures
            gate@ == initial_gate(config),
    {
        VadGate {
            config,
            elapsed_ms: 0,
            voiced_run_ms: 0,
            silence_run_ms: 0,
            in_utterance: false,
            playback_active: false,
            muted_until_ms: 0,
            elevated_until_ms: 0,
        }
    }

    /// Starting playback mutes immediately; stopping it arms the Muted then
    /// Elevated window from the current elapsed time.
    pub fn notify_playback_window(&mut self, active: bool) -> (event: GateEvent)
        requires
            can_notify(old(self)@, active),
        ensures
            final(self)@ == notified(old(self)@, active),
            event == (if active {
                GateEvent::PlaybackWindowStarted
            } else {
                GateEvent::PlaybackWindowEnded
            }),
    {
        self.playback_active = active;
        if active {
            GateEvent::PlaybackWindowStarted
        } else {
            self.muted_until_ms = self.elapsed_ms + self.config.muted_tail_ms as u64;
            self.elevated_until_ms = self.muted_until_ms + self.config.elevated_tail_ms as u64;
            GateEvent::PlaybackWindowEnded
        }
    }

    /// Whether `notify_playback_window(active)` keeps the window's end times
    /// within range.
    pub fn can_notify_playback_window(&self, active: bool) -> (ok: bool)
        ensures
            ok == can_notify(self@, active),
    {
        active || self.config.muted_tail_ms as u64 + self.config.elevated_tail_ms as u64
            <= u64::MAX - self.elapsed_ms
    }

    fn current_phase(&self) -> (phase: EchoPhase)
        ensures
            phase == phase_of(self@),
    {
        if self.playback_active || self.elapsed_ms < self.muted_until_ms {
            EchoPhase::Muted
        } else if self.elapsed_ms < self.elevated_until_ms {
            EchoPhase::Elevated
        } else {
            EchoPhase::Normal
        }
    }

    /// Whether a chunk of the given duration keeps every counter within range.
    pub fn can_process_chunk(&self, chunk_duration_ms: u32) -> (ok: bool)
        ensures
            ok == can_step(self@, chunk_duration_ms),
    {
        chunk_duration_ms as u64 <= u64::MAX - self.elapsed_ms
            && chunk_duration_ms <= u32::MAX - self.voiced_run_ms
            && chunk_duration_ms <= u32::MAX - self.silence_run_ms
    }

    /// Processes one chunk of the given level captured over
    /// `chunk_duration_ms`, and returns the state-transition event, if any.
    pub fn process_chunk(&mut self, level: ChunkLevel, chunk_duration_ms: u32) -> (event: Option<
        GateEvent,
    >)
        requires
            can_step(old(self)@, chunk_duration_ms),
        ensures
            (final(self)@, event) == step(old(self)@, level, chunk_duration_ms),
    {
        let phase = self.current_phase();
        let raw_voiced = level.above_threshold;
        let gated_voiced = match phase {
            EchoPhase::Muted => false,
            EchoPhase::Elevated => level.above_elevated_threshold,
            EchoPhase::Normal => raw_voiced,
        };

        let event = if gated_voiced {
            self.voiced_run_ms = self.voiced_run_ms + chunk_duration_ms;
            self.silence_run_ms = 0;
            if !self.in_utterance && self.voiced_run_ms >= self.config.min_voice_ms {
                self.in_utterance = true;
                Some(GateEvent::UtteranceStarted)
            } else {
                None
            }
        } else {
            self.silence_run_ms = self.silence_run_ms + chunk_duration_ms;
            self.voiced_run_ms = 0;
            if self.in_utterance && self.silence_run_ms >= self.config.speech_timeout_ms {
                self.in_utterance = false;
                Some(GateEvent::UtteranceEnded)
            } else if raw_voiced && phase != EchoPhase::Normal {
                Some(GateEvent::SuppressedByPlayback)
            } else {
                None
            }
        };

        self.elapsed_ms = self.elapsed_ms + chunk_duration_ms as u64;
        event
    }

    pub fn is_in_utterance(&self) -> (b: bool)
        ensures
            b == self@.in_utterance,
    {
        self.in_utterance
    }

    /// Audio-domain elapsed time, the timestamp of debug events.
    pub fn elapsed_ms(&self) -> (ms: u64)
        ensures
            ms == self@.elapsed_ms,
    {
        self.elapsed_ms
    }
}

/// No utterance can start while the detector is Muted (during playback and for
/// the muted tail after it), and an utterance in progress is never reopened.
pub proof fn lemma_no_utterance_starts_while_muted(g: VadGateView, level: ChunkLevel, chunk_duration_ms: u32)
    requires
        phase_of(g) == EchoPhase::Muted,
    ensures
        step(g, level, chunk_duration_ms).1 != Some(GateEvent::UtteranceStarted),
        step(g, level, chunk_duration_ms).0.in_utterance ==> g.in_utterance,
        step(g, level, chunk_duration_ms).0.voiced_run_ms == 0,
{
}

/// Loud audio gated out by playback is reported as suppressed rather than
/// silently dropped, unless the same chunk closes an utterance.
pub proof fn lemma_gated_loud_audio_is_reported(g: VadGateView, level: ChunkLevel, chunk_duration_ms: u32)
    requires
        phase_of(g) != EchoPhase::Normal,
        level.above_threshold,
        !gated_voiced(phase_of(g), level),
        step(g, level, chunk_duration_ms).1 != Some(GateEvent::UtteranceEnded),
    ensures
        step(g, level, chunk_duration_ms).1 == Some(GateEvent::SuppressedByPlayback),
{
}

/// `UtteranceStarted` is reported exactly when the detector enters an
/// utterance and `UtteranceEnded` exactly when it leaves one; a suppressed
/// chunk leaves the utterance state alone; and a chunk never reports a
/// playback-window event.
pub proof fn lemma_events_mark_utterance_boundaries(g: VadGateView, level: ChunkLevel, chunk_duration_ms: u32)
    ensures
        (step(g, level, chunk_duration_ms).1 == Some(GateEvent::UtteranceStarted)) == (!g.in_utterance
            && step(g, level, chunk_duration_ms).0.in_utterance),
        (step(g, level, chunk_duration_ms).1 == Some(GateEvent::UtteranceEnded)) == (g.in_utterance
            && !step(g, level, chunk_duration_ms).0.in_utterance),
        step(g, level, chunk_duration_ms).1 == Some(GateEvent::SuppressedByPlayback) ==> step(
            g,
            level,
            chunk_duration_ms,
        ).0.in_utterance == g.in_utterance,
        step(g, level, chunk_duration_ms).1 != Some(GateEvent::PlaybackWindowStarted),
        step(g, level, chunk_duration_ms).1 != Some(GateEvent::PlaybackWindowEnded),
{
}

/// The two run counters track contiguous audio: a chunk that counts as
/// voiced extends the voiced run and resets the silence run to zero; any
/// other chunk extends the silence run and resets the voiced run. An
/// utterance starts only on a voiced chunk that brings the voiced run to
/// `min_voice_ms`, and ends only on an unvoiced chunk that brings the
/// silence run to `speech_timeout_ms`.
pub proof fn lemma_runs_are_contiguous(g: VadGateView, level: ChunkLevel, chunk_duration_ms: u32)
    requires
        can_step(g, chunk_duration_ms),
    ensures
        gated_voiced(phase_of(g), level) ==> step(g, level, chunk_duration_ms).0.silence_run_ms == 0,
        gated_voiced(phase_of(g), level) ==> step(g, level, chunk_duration_ms).0.voiced_run_ms
            == g.voiced_run_ms + chunk_duration_ms,
        !gated_voiced(phase_of(g), level) ==> step(g, level, chunk_duration_ms).0.voiced_run_ms == 0,
        !gated_voiced(phase_of(g), level) ==> step(g, level, chunk_duration_ms).0.silence_run_ms
            == g.silence_run_ms + chunk_duration_ms,
        step(g, level, chunk_duration_ms).1 == Some(GateEvent::UtteranceStarted) ==> gated_voiced(
            phase_of(g),
            level,
        ) && g.voiced_run_ms + chunk_duration_ms >= g.config.min_voice_ms,
        step(g, level, chunk_duration_ms).1 == Some(GateEvent::UtteranceEnded) ==> !gated_voiced(
            phase_of(g),
            level,
        ) && g.silence_run_ms + chunk_duration_ms >= g.config.speech_timeout_ms,
        g.in_utterance && !gated_voiced(phase_of(g), level) && g.silence_run_ms + chunk_duration_ms
            >= g.config.speech_timeout_ms ==> step(g, level, chunk_duration_ms).1 == Some(
            GateEvent::UtteranceEnded,
        ),
{
}

/// Whether the `j`-th chunk of a sequence counts as voiced, in the phase the
/// detector is in when it arrives.
pub open spec fn voiced_at(g: VadGateView, inputs: Seq<GateInput>, j: int) -> bool {
    gated_voiced(phase_of(run_gate(g, inputs.take(j))), inputs[j].level)
}

/// After a voiced chunk followed only by unvoiced ones, the silence run is
/// exactly the summed duration of those unvoiced chunks: silence heard
/// before the last voiced chunk never counts. So an utterance ends only
/// after `speech_timeout_ms` of contiguous unvoiced audio since the last
/// voiced chunk.
pub proof fn lemma_silence_counts_from_last_voiced_chunk(g: VadGateView, inputs: Seq<GateInput>, j: int)
    requires
        can_run(g, inputs),
        0 <= j < inputs.len(),
        voiced_at(g, inputs, j),
        forall|i: int| j < i < inputs.len() ==> !#[trigger] voiced_at(g, inputs, i),
    ensures
        run_gate(g, inputs).silence_run_ms == total_duration(inputs.subrange(j + 1, inputs.len() as int)),
    decreases inputs.len(),
{
    let n = inputs.len() as int;
    let prev = inputs.drop_last();
    assert(prev =~= inputs.take(n - 1));
    if j == n - 1 {
        lemma_runs_are_contiguous(run_gate(g, prev), inputs.last().level, inputs.last().duration_ms);
        assert(inputs.subrange(j + 1, n) =~= Seq::<GateInput>::empty());
    } else {
        assert forall|i: int| 0 <= i < prev.len() implies #[trigger] voiced_at(g, prev, i) == voiced_at(
            g,
            inputs,
            i,
        ) by {
            assert(prev.take(i) =~= inputs.take(i));
        }
        assert forall|i: int| j < i < prev.len() implies !#[trigger] voiced_at(g, prev, i) by {
            assert(voiced_at(g, prev, i) == voiced_at(g, inputs, i));
        }
        assert(voiced_at(g, prev, j) == voiced_at(g, inputs, j));
        lemma_silence_counts_from_last_voiced_chunk(g, prev, j);
        assert(!voiced_at(g, inputs, n - 1));
        lemma_runs_are_contiguous(run_gate(g, prev), inputs.last().level, inputs.last().duration_ms);
        let rest = inputs.subrange(j + 1, n);
        assert(rest.drop_last() =~= prev.subrange(j + 1, n - 1));
        assert(rest.last() == inputs.last());
    }
}

/// A chunk advances the audio clock by exactly its duration and leaves the
/// timing, the playback flag and the echo window as they were.
pub proof fn lemma_chunk_advances_clock(g: VadGateView, level: ChunkLevel, chunk_duration_ms: u32)
    requires
        can_step(g, chunk_duration_ms),
    ensures
        ({
            let s = step(g, level, chunk_duration_ms).0;
            &&& s.elapsed_ms == g.elapsed_ms + chunk_duration_ms
            &&& s.config == g.config
            &&& s.playback_active == g.playback_active
            &&& s.muted_until_ms == g.muted_until_ms
            &&& s.elevated_until_ms == g.elevated_until_ms
        }),
{
}

/// A playback notification leaves the audio clock, the utterance state and
/// the voiced and silent runs as they were.
pub proof fn lemma_notification_keeps_clock(g: VadGateView, active: bool)
    ensures
        notified(g, active).elapsed_ms == g.elapsed_ms,
        notified(g, active).in_utterance == g.in_utterance,
        notified(g, active).voiced_run_ms == g.voiced_run_ms,
        notified(g, active).silence_run_ms == g.silence_run_ms,
        notified(g, active).config == g.config,
{
}

/// The detector is a pure function of its state and inputs: two detectors in
/// the same state given the same chunk report the same event and end in the
/// same state.
pub proof fn lemma_gate_is_deterministic(
    g1: VadGateView,
    g2: VadGateView,
    level: ChunkLevel,
    chunk_duration_ms: u32,
)
    requires
        g1 == g2,
    ensures
        step(g1, level, chunk_duration_ms) == step(g2, level, chunk_duration_ms),
{
}

/// One chunk as fed to a detector.
pub struct GateInput {
    pub level: ChunkLevel,
    pub duration_ms: u32,
}

/// The detector state after feeding a sequence of chunks in order.
pub open spec fn run_gate(g: VadGateView, inputs: Seq<GateInput>) -> VadGateView
    decreases inputs.len(),
{
    if inputs.len() == 0 {
        g
    } else {
        step(run_gate(g, inputs.drop_last()), inputs.last().level, inputs.last().duration_ms).0
    }
}

/// The event the `k`-th chunk of a sequence reports.
pub open spec fn event_at(g: VadGateView, inputs: Seq<GateInput>, k: int) -> Option<GateEvent> {
    step(run_gate(g, inputs.take(k)), inputs[k].level, inputs[k].duration_ms).1
}

/// Whether every chunk of a sequence keeps the counters within range.
pub open spec fn can_run(g: VadGateView, inputs: Seq<GateInput>) -> bool
    decreases inputs.len(),
{
    inputs.len() == 0 || (can_run(g, inputs.drop_last()) && can_step(
        run_gate(g, inputs.drop_last()),
        inputs.last().duration_ms,
    ))
}

/// The summed duration of a sequence of chunks.
pub open spec fn total_duration(inputs: Seq<GateInput>) -> int
    decreases inputs.len(),
{
    if inputs.len() == 0 {
        0
    } else {
        total_duration(inputs.drop_last()) + inputs.last().duration_ms
    }
}

/// The audio clock is advanced only by chunks: after any sequence of chunks
/// it has moved by exactly their summed duration.
pub proof fn lemma_clock_is_sum_of_durations(g: VadGateView, inputs: Seq<GateInput>)
    requires
        can_run(g, inputs),
    ensures
        run_gate(g, inputs).elapsed_ms == g.elapsed_ms + total_duration(inputs),
    decreases inputs.len(),
{
    if inputs.len() > 0 {
        lemma_clock_is_sum_of_durations(g, inputs.drop_last());
    }
}

/// While playback stays active, the flag stays set through any sequence of
/// chunks and no utterance is opened.
pub proof fn lemma_playback_persists(g: VadGateView, inputs: Seq<GateInput>)
    requires
        g.playback_active,
    ensures
        run_gate(g, inputs).playback_active,
        run_gate(g, inputs).in_utterance ==> g.in_utterance,
    decreases inputs.len(),
{
    if inputs.len() > 0 {
        lemma_playback_persists(g, inputs.drop_last());
        let h = run_gate(g, inputs.drop_last());
        lemma_no_utterance_starts_while_muted(h, inputs.last().level, inputs.last().duration_ms);
    }
}

/// While text-to-speech is playing (playback started and not yet stopped),
/// no chunk, however loud, starts an utterance.
pub proof fn lemma_no_utterance_starts_during_playback(g: VadGateView, inputs: Seq<GateInput>)
    requires
        g.playback_active,
    ensures
        forall|k: int| 0 <= k < inputs.len() ==> #[trigger] event_at(g, inputs, k) != Some(
            GateEvent::UtteranceStarted,
        ),
        run_gate(g, inputs).in_utterance ==> g.in_utterance,
{
    lemma_playback_persists(g, inputs);
    assert forall|k: int| 0 <= k < inputs.len() implies #[trigger] event_at(g, inputs, k) != Some(
        GateEvent::UtteranceStarted,
    ) by {
        lemma_playback_persists(g, inputs.take(k));
        lemma_no_utterance_starts_while_muted(run_gate(g, inputs.take(k)), inputs[k].level, inputs[k].duration_ms);
    }
}

/// One call on a detector: a chunk, or a playback notification.
pub enum GateCall {
    Chunk(GateInput),
    Playback(bool),
}

/// The detector state after a sequence of calls in order.
pub open spec fn run_calls(g: VadGateView, calls: Seq<GateCall>) -> VadGateView
    decreases calls.len(),
{
    if calls.len() == 0 {
        g
    } else {
        let before = run_calls(g, calls.drop_last());
        match calls.last() {
            GateCall::Chunk(input) => step(before, input.level, input.duration_ms).0,
            GateCall::Playback(active) => notified(before, active),
        }
    }
}

/// Whether every call of a sequence keeps the counters and the echo window's
/// end times within range.
pub open spec fn can_run_calls(g: VadGateView, calls: Seq<GateCall>) -> bool
    decreases calls.len(),
{
    calls.len() == 0 || (can_run_calls(g, calls.drop_last()) && match calls.last() {
        GateCall::Chunk(input) => can_step(run_calls(g, calls.drop_last()), input.duration_ms),
        GateCall::Playback(active) => can_notify(run_calls(g, calls.drop_last()), active),
    })
}

/// The summed duration of the chunks among a sequence of calls.
pub open spec fn chunk_duration_of_calls(calls: Seq<GateCall>) -> int
    decreases calls.len(),
{
    if calls.len() == 0 {
        0
    } else {
        chunk_duration_of_calls(calls.drop_last()) + match calls.last() {
            GateCall::Chunk(input) => input.duration_ms as int,
            GateCall::Playback(_) => 0,
        }
    }
}

/// The audio clock is advanced by chunks only, never by playback
/// notifications: after any sequence of calls it has moved by exactly the
/// summed duration of the chunks among them, and the configuration is the
/// one the detector was made with.
pub proof fn lemma_clock_counts_only_chunks(g: VadGateView, calls: Seq<GateCall>)
    requires
        can_run_calls(g, calls),
    ensures
        run_calls(g, calls).elapsed_ms == g.elapsed_ms + chunk_duration_of_calls(calls),
        run_calls(g, calls).config == g.config,
    decreases calls.len(),
{
    if calls.len() > 0 {
        lemma_clock_counts_only_chunks(g, calls.drop_last());
    }
}

/// Starting playback mutes at once. After playback stops at audio time `t`,
/// and as long as no new playback starts, the detector is Muted before
/// `t + muted_tail_ms`, Elevated before `t + muted_tail_ms + elevated_tail_ms`,
/// and Normal from then on.
pub proof fn lemma_echo_window_graduates(g: VadGateView, h: VadGateView)
    requires
        can_notify(g, false),
        !h.playback_active,
        h.muted_until_ms == notified(g, false).muted_until_ms,
        h.elevated_until_ms == notified(g, false).elevated_until_ms,
    ensures
        phase_of(notified(g, true)) == EchoPhase::Muted,
        phase_of(h) == (if h.elapsed_ms < g.elapsed_ms + g.config.muted_tail_ms {
            EchoPhase::Muted
        } else if h.elapsed_ms < g.elapsed_ms + g.config.muted_tail_ms + g.config.elevated_tail_ms {
            EchoPhase::Elevated
        } else {
            EchoPhase::Normal
        }),
{
}

} // verus!
