//! The two directions' independent capture loops, fed from one audio stream.
//!
//! Each direction has its own voice gate and its own push-to-talk buffer. A
//! `Live` direction's gate sees every chunk and buffers audio while it is in
//! an utterance; a `PushToTalk` direction buffers audio only between
//! `begin_push_to_talk` and `end_push_to_talk`; an `Off` direction is never
//! touched. When both directions are `Live` and both close an utterance on
//! the same chunk, one ambiguous utterance is reported instead of two, to be
//! resolved by `resolve_ambiguous` (language identification, then recognition
//! confidence, then the direction used last).
//!
//! Samples are of any `Copy` type `S`; the pipeline only moves them. The
//! loudness of each chunk reaches it already classified (`ChunkLevel`).

use vstd::prelude::*;

use crate::config::{Direction, DirectionMode, HybridConfig};
use crate::langid::{disambiguate, spec_disambiguate};
use crate::vad::{can_notify, can_step, initial_gate, notified, step, ChunkLevel, GateEvent, VadConfig, VadGate, VadGateView};

verus! {

/// Tracks which direction most recently won an ambiguous case, as a
/// tiebreak for the next one.
#[derive(Debug)]
pub struct ConversationState {
    last_direction: Option<Direction>,
}

impl ConversationState {
    /// The direction recorded last, if any.
    pub closed spec fn spec_bias(&self) -> Option<Direction> {
        self.last_direction
    }

    pub fn new() -> (state: Self)
        ensures
            state.spec_bias() is None,
    {
        ConversationState { last_direction: None }
    }

    pub fn record(&mut self, direction: Direction)
        ensures
            final(self).spec_bias() == Some(direction),
    {
        self.last_direction = Some(direction);
    }

    pub fn bias(&self) -> (bias: Option<Direction>)
        ensures
            bias == self.spec_bias(),
    {
        self.last_direction
    }
}

impl Default for ConversationState {
    fn default() -> (state: Self)
        ensures
            state.spec_bias() is None,
    {
        ConversationState::new()
    }
}

/// The abstract state of one direction's loops.
pub struct RuntimeView<S> {
    pub gate: VadGateView,
    pub live_buffer: Seq<S>,
    pub ptt_armed: bool,
    pub ptt_buffer: Seq<S>,
}

struct DirectionRuntime<S> {
    live_gate: VadGate,
    live_buffer: Vec<S>,
    ptt_armed: bool,
    ptt_buffer: Vec<S>,
}

impl<S> DirectionRuntime<S> {
    spec fn view(&self) -> RuntimeView<S> {
        RuntimeView {
            gate: self.live_gate@,
            live_buffer: self.live_buffer@,
            ptt_armed: self.ptt_armed,
            ptt_buffer: self.ptt_buffer@,
        }
    }

    fn new(vad_config: VadConfig) -> (runtime: Self)
        ensures
            runtime.view() == initial_runtime::<S>(vad_config),
    {
        DirectionRuntime {
            live_gate: VadGate::new(vad_config),
            live_buffer: Vec::new(),
            ptt_armed: false,
            ptt_buffer: Vec::new(),
        }
    }
}

impl<S: Copy> DirectionRuntime<S> {
    /// Feeds one chunk to this direction in the given mode.
    fn process(&mut self, mode: DirectionMode, pcm: &[S], level: ChunkLevel, chunk_duration_ms: u32) -> (event:
        Option<GateEvent>)
        requires
            mode == DirectionMode::Live ==> can_step(old(self).view().gate, chunk_duration_ms),
        ensures
            (final(self).view(), event) == direction_step(old(self).view(), mode, pcm@, level, chunk_duration_ms),
    {
        match mode {
            DirectionMode::Live => {
                let gate_event = self.live_gate.process_chunk(level, chunk_duration_ms);
                if self.live_gate.is_in_utterance() {
                    append_samples(&mut self.live_buffer, pcm);
                }
                gate_event
            },
            DirectionMode::PushToTalk => {
                if self.ptt_armed {
                    append_samples(&mut self.ptt_buffer, pcm);
                }
                None
            },
            DirectionMode::Off => None,
        }
    }

    /// Takes the live buffer out, leaving it empty.
    fn take_live_buffer(&mut self) -> (pcm: Vec<S>)
        ensures
            pcm@ == old(self).view().live_buffer,
            final(self).view() == drained(old(self).view()),
    {
        let mut pcm: Vec<S> = Vec::new();
        std::mem::swap(&mut pcm, &mut self.live_buffer);
        pcm
    }
}

/// The state of a freshly created direction.
pub open spec fn initial_runtime<S>(vad_config: VadConfig) -> RuntimeView<S> {
    RuntimeView {
        gate: initial_gate(vad_config),
        live_buffer: Seq::empty(),
        ptt_armed: false,
        ptt_buffer: Seq::empty(),
    }
}

/// A boundary event the caller should act on.
#[derive(Debug, Clone)]
pub enum PipelineEvent<S> {
    /// Only one direction could own this utterance.
    UtteranceReady { direction: Direction, pcm: Vec<S> },
    /// Both directions are `Live` and both closed the same utterance.
    AmbiguousUtteranceReady { pcm: Vec<S> },
    /// A push-to-talk capture completed.
    PushToTalkReady { direction: Direction, pcm: Vec<S> },
    /// A gate or echo-window transition, for field instrumentation.
    Debug { direction: Direction, event: GateEvent, elapsed_ms: u64 },
}

/// The abstract content of a pipeline event.
pub enum PipelineEventView<S> {
    UtteranceReady { direction: Direction, pcm: Seq<S> },
    AmbiguousUtteranceReady { pcm: Seq<S> },
    PushToTalkReady { direction: Direction, pcm: Seq<S> },
    Debug { direction: Direction, event: GateEvent, elapsed_ms: u64 },
}

impl<S> View for PipelineEvent<S> {
    type V = PipelineEventView<S>;

    open spec fn view(&self) -> PipelineEventView<S> {
        match self {
            PipelineEvent::UtteranceReady { direction, pcm } => PipelineEventView::UtteranceReady {
                direction: *direction,
                pcm: pcm@,
            },
            PipelineEvent::AmbiguousUtteranceReady { pcm } => PipelineEventView::AmbiguousUtteranceReady {
                pcm: pcm@,
            },
            PipelineEvent::PushToTalkReady { direction, pcm } => PipelineEventView::PushToTalkReady {
                direction: *direction,
                pcm: pcm@,
            },
            PipelineEvent::Debug { direction, event, elapsed_ms } => PipelineEventView::Debug {
                direction: *direction,
                event: *event,
                elapsed_ms: *elapsed_ms,
            },
        }
    }
}

/// The events of a vector, as abstract values.
pub open spec fn events_view<S>(events: Seq<PipelineEvent<S>>) -> Seq<PipelineEventView<S>> {
    events.map_values(|e: PipelineEvent<S>| e@)
}

/// The abstract state of a pipeline.
pub struct PipelineView<S> {
    pub first_to_second: RuntimeView<S>,
    pub second_to_first: RuntimeView<S>,
    pub bias: Option<Direction>,
}

pub open spec fn runtime_of<S>(p: PipelineView<S>, direction: Direction) -> RuntimeView<S> {
    match direction {
        Direction::FirstToSecond => p.first_to_second,
        Direction::SecondToFirst => p.second_to_first,
    }
}

pub open spec fn with_runtime<S>(p: PipelineView<S>, direction: Direction, r: RuntimeView<S>) -> PipelineView<S> {
    match direction {
        Direction::FirstToSecond => PipelineView { first_to_second: r, ..p },
        Direction::SecondToFirst => PipelineView { second_to_first: r, ..p },
    }
}

/// What one chunk does to one direction in the given mode, and the detector
/// event it raises there.
pub open spec fn direction_step<S>(
    r: RuntimeView<S>,
    mode: DirectionMode,
    pcm: Seq<S>,
    level: ChunkLevel,
    chunk_duration_ms: u32,
) -> (RuntimeView<S>, Option<GateEvent>) {
    match mode {
        DirectionMode::Live => {
            let (gate, event) = step(r.gate, level, chunk_duration_ms);
            (
                RuntimeView {
                    gate,
                    live_buffer: if gate.in_utterance {
                        r.live_buffer + pcm
                    } else {
                        r.live_buffer
                    },
                    ..r
                },
                event,
            )
        },
        DirectionMode::PushToTalk => (
            RuntimeView {
                ptt_buffer: if r.ptt_armed {
                    r.ptt_buffer + pcm
                } else {
                    r.ptt_buffer
                },
                ..r
            },
            None,
        ),
        DirectionMode::Off => (r, None),
    }
}

/// The debug event a gate event of one direction turns into.
pub open spec fn debug_events<S>(direction: Direction, event: Option<GateEvent>, r: RuntimeView<S>) -> Seq<
    PipelineEventView<S>,
> {
    match event {
        Some(e) => seq![PipelineEventView::Debug { direction, event: e, elapsed_ms: r.gate.elapsed_ms }],
        None => Seq::empty(),
    }
}

pub open spec fn ended(event: Option<GateEvent>) -> bool {
    event == Some(GateEvent::UtteranceEnded)
}

/// A direction with its live buffer emptied.
pub open spec fn drained<S>(r: RuntimeView<S>) -> RuntimeView<S> {
    RuntimeView { live_buffer: Seq::empty(), ..r }
}

/// What one chunk does to the whole pipeline, and the events it reports in
/// order: debug events of the first direction, then of the second, then the
/// utterance hand-offs.
pub open spec fn pipeline_step<S>(
    p: PipelineView<S>,
    config: HybridConfig,
    pcm: Seq<S>,
    level: ChunkLevel,
    chunk_duration_ms: u32,
) -> (PipelineView<S>, Seq<PipelineEventView<S>>) {
    let (a, ea) = direction_step(
        p.first_to_second,
        config.spec_mode(Direction::FirstToSecond),
        pcm,
        level,
        chunk_duration_ms,
    );
    let (b, eb) = direction_step(
        p.second_to_first,
        config.spec_mode(Direction::SecondToFirst),
        pcm,
        level,
        chunk_duration_ms,
    );
    let debug = debug_events(Direction::FirstToSecond, ea, a) + debug_events(
        Direction::SecondToFirst,
        eb,
        b,
    );
    if ended(ea) && ended(eb) {
        (
            PipelineView { first_to_second: drained(a), second_to_first: drained(b), ..p },
            debug.push(PipelineEventView::AmbiguousUtteranceReady { pcm: a.live_buffer }),
        )
    } else {
        let ready_a: Seq<PipelineEventView<S>> = if ended(ea) {
            seq![PipelineEventView::UtteranceReady { direction: Direction::FirstToSecond, pcm: a.live_buffer }]
        } else {
            Seq::empty()
        };
        let ready_b: Seq<PipelineEventView<S>> = if ended(eb) {
            seq![PipelineEventView::UtteranceReady { direction: Direction::SecondToFirst, pcm: b.live_buffer }]
        } else {
            Seq::empty()
        };
        (
            PipelineView {
                first_to_second: if ended(ea) {
                    drained(a)
                } else {
                    a
                },
                second_to_first: if ended(eb) {
                    drained(b)
                } else {
                    b
                },
                ..p
            },
            debug + ready_a + ready_b,
        )
    }
}

/// Whether a chunk of the given duration keeps every counter of every `Live`
/// direction's gate within range.
pub open spec fn can_pipeline_step<S>(p: PipelineView<S>, config: HybridConfig, chunk_duration_ms: u32) -> bool {
    &&& config.spec_mode(Direction::FirstToSecond) == DirectionMode::Live ==> can_step(
        p.first_to_second.gate,
        chunk_duration_ms,
    )
    &&& config.spec_mode(Direction::SecondToFirst) == DirectionMode::Live ==> can_step(
        p.second_to_first.gate,
        chunk_duration_ms,
    )
}

/// Appends samples to a buffer.
pub(crate) fn append_samples<S: Copy>(buffer: &mut Vec<S>, pcm: &[S])
    ensures
        final(buffer)@ == old(buffer)@ + pcm@,
{
    let n: usize = pcm.len();
    let mut i: usize = 0;
    while i < n
        invariant
            n == pcm@.len(),
            i <= n,
            buffer@ == old(buffer)@ + pcm@.subrange(0, i as int),
        decreases n - i,
    {
        buffer.push(pcm[i]);
        i = i + 1;
        assert(buffer@ =~= old(buffer)@ + pcm@.subrange(0, i as int));
    }
    assert(pcm@.subrange(0, n as int) =~= pcm@);
}

/// Owns both directions' independent loop state for one session.
pub struct PipelineManager<S> {
    first_to_second: DirectionRuntime<S>,
    second_to_first: DirectionRuntime<S>,
    conversation: ConversationState,
}

impl<S> View for PipelineManager<S> {
    type V = PipelineView<S>;

    closed spec fn view(&self) -> PipelineView<S> {
        PipelineView {
            first_to_second: self.first_to_second.view(),
            second_to_first: self.second_to_first.view(),
            bias: self.conversation.spec_bias(),
        }
    }
}

impl<S: Copy> PipelineManager<S> {
    pub fn new(vad_config: VadConfig) -> (pipeline: Self)
        ensures
            pipeline@ == (PipelineView {
                first_to_second: initial_runtime::<S>(vad_config),
                second_to_first: initial_runtime::<S>(vad_config),
                bias: None,
            }),
    {
        PipelineManager {
            first_to_second: DirectionRuntime::new(vad_config),
            second_to_first: DirectionRuntime::new(vad_config),
            conversation: ConversationState::new(),
        }
    }

    fn runtime_mut(&mut self, direction: Direction) -> (runtime: &mut DirectionRuntime<S>)
        ensures
            runtime.view() == runtime_of(old(self)@, direction),
            final(self)@ == with_runtime(old(self)@, direction, final(runtime).view()),
    {
        match direction {
            Direction::FirstToSecond => &mut self.first_to_second,
            Direction::SecondToFirst => &mut self.second_to_first,
        }
    }
}


/// The state after a playback notification for one direction.
pub open spec fn pipeline_notified<S>(p: PipelineView<S>, direction: Direction, active: bool) -> PipelineView<S> {
    let r = runtime_of(p, direction);
    with_runtime(p, direction, RuntimeView { gate: notified(r.gate, active), ..r })
}

/// The state after arming push-to-talk for one direction.
pub open spec fn ptt_begun<S>(p: PipelineView<S>, direction: Direction) -> PipelineView<S> {
    let r = runtime_of(p, direction);
    with_runtime(p, direction, RuntimeView { ptt_armed: true, ptt_buffer: Seq::empty(), ..r })
}

/// The state after releasing push-to-talk for one direction.
pub open spec fn ptt_ended<S>(p: PipelineView<S>, direction: Direction) -> PipelineView<S> {
    let r = runtime_of(p, direction);
    with_runtime(p, direction, RuntimeView { ptt_armed: false, ptt_buffer: Seq::empty(), ..r })
}

fn is_utterance_end(event: Option<GateEvent>) -> (b: bool)
    ensures
        b == ended(event),
{
    match event {
        Some(GateEvent::UtteranceEnded) => true,
        _ => false,
    }
}

impl<S: Copy> PipelineManager<S> {
    /// Routes a playback-window notification to one direction's gate and
    /// reports it as a debug event.
    pub fn notify_playback_window(&mut self, direction: Direction, active: bool) -> (event: PipelineEvent<S>)
        requires
            can_notify(runtime_of(old(self)@, direction).gate, active),
        ensures
            final(self)@ == pipeline_notified(old(self)@, direction, active),
            event@ == (PipelineEventView::<S>::Debug {
                direction,
                event: if active {
                    GateEvent::PlaybackWindowStarted
                } else {
                    GateEvent::PlaybackWindowEnded
                },
                elapsed_ms: runtime_of(old(self)@, direction).gate.elapsed_ms,
            }),
    {
        let gate = &mut self.runtime_mut(direction).live_gate;
        let event = gate.notify_playback_window(active);
        PipelineEvent::Debug { direction, event, elapsed_ms: gate.elapsed_ms() }
    }

    /// Whether `notify_playback_window(direction, active)` keeps the echo
    /// window's end times within range.
    pub fn can_notify_playback_window(&self, direction: Direction, active: bool) -> (ok: bool)
        ensures
            ok == can_notify(runtime_of(self@, direction).gate, active),
    {
        match direction {
            Direction::FirstToSecond => self.first_to_second.live_gate.can_notify_playback_window(active),
            Direction::SecondToFirst => self.second_to_first.live_gate.can_notify_playback_window(active),
        }
    }

    /// Arms push-to-talk for one direction, discarding anything buffered.
    pub fn begin_push_to_talk(&mut self, direction: Direction)
        ensures
            final(self)@ == ptt_begun(old(self)@, direction),
    {
        let runtime = self.runtime_mut(direction);
        runtime.ptt_armed = true;
        runtime.ptt_buffer.clear();
    }

    /// Releases push-to-talk for one direction and hands off what was
    /// captured while armed, if anything was.
    pub fn end_push_to_talk(&mut self, direction: Direction) -> (event: Option<PipelineEvent<S>>)
        ensures
            final(self)@ == ptt_ended(old(self)@, direction),
            runtime_of(old(self)@, direction).ptt_buffer.len() == 0 ==> event is None,
            runtime_of(old(self)@, direction).ptt_buffer.len() != 0 ==> (event matches Some(e) && e@
                == (PipelineEventView::PushToTalkReady {
                direction,
                pcm: runtime_of(old(self)@, direction).ptt_buffer,
            })),
    {
        let runtime = self.runtime_mut(direction);
        runtime.ptt_armed = false;
        if runtime.ptt_buffer.is_empty() {
            assert(runtime.ptt_buffer@ =~= Seq::empty());
            return None;
        }
        let mut pcm: Vec<S> = Vec::new();
        std::mem::swap(&mut pcm, &mut runtime.ptt_buffer);
        Some(PipelineEvent::PushToTalkReady { direction, pcm })
    }

    /// Whether a chunk of the given duration keeps every counter of every
    /// `Live` direction's gate within range.
    pub fn can_process_chunk(&self, config: &HybridConfig, chunk_duration_ms: u32) -> (ok: bool)
        ensures
            ok == can_pipeline_step(self@, *config, chunk_duration_ms),
    {
        let a = match config.mode(Direction::FirstToSecond) {
            DirectionMode::Live => self.first_to_second.live_gate.can_process_chunk(chunk_duration_ms),
            _ => true,
        };
        let b = match config.mode(Direction::SecondToFirst) {
            DirectionMode::Live => self.second_to_first.live_gate.can_process_chunk(chunk_duration_ms),
            _ => true,
        };
        a && b
    }

    /// Fans one chunk out to whichever loops are armed: every `Live`
    /// direction's gate (buffering while that gate is in an utterance) and
    /// every armed `PushToTalk` direction; `Off` directions are skipped.
    pub fn process_chunk(
        &mut self,
        config: &HybridConfig,
        pcm: &[S],
        level: ChunkLevel,
        chunk_duration_ms: u32,
    ) -> (events: Vec<PipelineEvent<S>>)
        requires
            can_pipeline_step(old(self)@, *config, chunk_duration_ms),
        ensures
            (final(self)@, events_view(events@)) == pipeline_step(
                old(self)@,
                *config,
                pcm@,
                level,
                chunk_duration_ms,
            ),
    {
        let ghost p = self@;
        let mut events: Vec<PipelineEvent<S>> = Vec::new();
        let ea = self.first_to_second.process(config.mode(Direction::FirstToSecond), pcm, level, chunk_duration_ms);
        if let Some(event) = ea {
            events.push(PipelineEvent::Debug {
                direction: Direction::FirstToSecond,
                event,
                elapsed_ms: self.first_to_second.live_gate.elapsed_ms(),
            });
        }
        let eb = self.second_to_first.process(config.mode(Direction::SecondToFirst), pcm, level, chunk_duration_ms);
        if let Some(event) = eb {
            events.push(PipelineEvent::Debug {
                direction: Direction::SecondToFirst,
                event,
                elapsed_ms: self.second_to_first.live_gate.elapsed_ms(),
            });
        }
        let ghost a = self.first_to_second.view();
        let ghost b = self.second_to_first.view();
        let ghost debug = debug_events(Direction::FirstToSecond, ea, a) + debug_events(Direction::SecondToFirst, eb, b);
        assert(events_view(events@) =~= debug);

        let a_end = is_utterance_end(ea);
        let b_end = is_utterance_end(eb);
        if a_end && b_end {
            let pcm = self.first_to_second.take_live_buffer();
            let _ = self.second_to_first.take_live_buffer();
            events.push(PipelineEvent::AmbiguousUtteranceReady { pcm });
            assert(events_view(events@) =~= debug.push(PipelineEventView::AmbiguousUtteranceReady { pcm: a.live_buffer }));
        } else {
            if a_end {
                let pcm = self.first_to_second.take_live_buffer();
                events.push(PipelineEvent::UtteranceReady { direction: Direction::FirstToSecond, pcm });
            }
            let ghost with_a = events_view(events@);
            if b_end {
                let pcm = self.second_to_first.take_live_buffer();
                events.push(PipelineEvent::UtteranceReady { direction: Direction::SecondToFirst, pcm });
                assert(events_view(events@) =~= with_a.push(PipelineEventView::UtteranceReady { direction: Direction::SecondToFirst, pcm: b.live_buffer }));
            }
        }
        proof {
            let (np, nev) = pipeline_step(p, *config, pcm@, level, chunk_duration_ms);
            assert(events_view(events@) =~= nev);
        }
        events
    }
}

/// The direction an ambiguous utterance is given: the language-identification
/// answer when there is one, else the direction whose recognition confidence
/// clearly won, else the direction used last, else `FirstToSecond`.
pub open spec fn spec_resolution(
    langid_favors_first: Option<bool>,
    confidence_winner: Option<Direction>,
    bias: Option<Direction>,
) -> Direction {
    match langid_favors_first {
        Some(true) => Direction::FirstToSecond,
        Some(false) => Direction::SecondToFirst,
        None => match confidence_winner {
            Some(d) => d,
            None => match bias {
                Some(d) => d,
                None => Direction::FirstToSecond,
            },
        },
    }
}

impl<S: Copy> PipelineManager<S> {
    /// Resolves an ambiguous utterance from the language-identification
    /// answer (`Some(true)` favors `FirstToSecond`) and the recognition
    /// confidence comparison (`None` when the two confidences are tied), and
    /// records the result as the tiebreak for the next ambiguous case.
    pub fn resolve_from_signals(
        &mut self,
        langid_favors_first: Option<bool>,
        confidence_winner: Option<Direction>,
    ) -> (resolved: Direction)
        ensures
            resolved == spec_resolution(langid_favors_first, confidence_winner, old(self)@.bias),
            final(self)@ == (PipelineView { bias: Some(resolved), ..old(self)@ }),
    {
        let resolved = match langid_favors_first {
            Some(true) => Direction::FirstToSecond,
            Some(false) => Direction::SecondToFirst,
            None => match confidence_winner {
                Some(d) => d,
                None => match self.conversation.bias() {
                    Some(d) => d,
                    None => Direction::FirstToSecond,
                },
            },
        };
        self.conversation.record(resolved);
        resolved
    }

    /// Resolves an `AmbiguousUtteranceReady` once speech has been recognized
    /// as each direction's source language: language identification first,
    /// then recognition confidence, then the direction used last.
    pub fn resolve_ambiguous(
        &mut self,
        config: &HybridConfig,
        text_first_to_second: &str,
        text_second_to_first: &str,
        confidence_winner: Option<Direction>,
    ) -> (resolved: Direction)
        ensures
            resolved == spec_resolution(
                spec_disambiguate(
                    text_first_to_second@,
                    config.spec_source(Direction::FirstToSecond),
                    text_second_to_first@,
                    config.spec_source(Direction::SecondToFirst),
                ),
                confidence_winner,
                old(self)@.bias,
            ),
            final(self)@ == (PipelineView { bias: Some(resolved), ..old(self)@ }),
    {
        let lang_a = config.source_language(Direction::FirstToSecond);
        let lang_b = config.source_language(Direction::SecondToFirst);
        let langid = match disambiguate(text_first_to_second, lang_a.as_str(), text_second_to_first, lang_b.as_str()) {
            Some(result) => Some(result.favors_a),
            None => None,
        };
        self.resolve_from_signals(langid, confidence_winner)
    }
}

/// One chunk as fed to the pipeline.
pub struct ChunkInput<S> {
    pub pcm: Seq<S>,
    pub level: ChunkLevel,
    pub duration_ms: u32,
}

/// The pipeline state after feeding a sequence of chunks in order.
pub open spec fn run_chunks<S>(p: PipelineView<S>, config: HybridConfig, inputs: Seq<ChunkInput<S>>) -> PipelineView<S>
    decreases inputs.len(),
{
    if inputs.len() == 0 {
        p
    } else {
        let last = inputs.last();
        pipeline_step(run_chunks(p, config, inputs.drop_last()), config, last.pcm, last.level, last.duration_ms).0
    }
}

/// The samples of a sequence of chunks, concatenated.
pub open spec fn concat_pcm<S>(inputs: Seq<ChunkInput<S>>) -> Seq<S>
    decreases inputs.len(),
{
    if inputs.len() == 0 {
        Seq::empty()
    } else {
        concat_pcm(inputs.drop_last()) + inputs.last().pcm
    }
}

/// Whether an event concerns a direction.
pub open spec fn mentions<S>(event: PipelineEventView<S>, direction: Direction) -> bool {
    match event {
        PipelineEventView::UtteranceReady { direction: d, .. } => d == direction,
        PipelineEventView::PushToTalkReady { direction: d, .. } => d == direction,
        PipelineEventView::Debug { direction: d, .. } => d == direction,
        PipelineEventView::AmbiguousUtteranceReady { .. } => true,
    }
}

/// An `Off` direction is never touched by a chunk: its state stays as it was
/// and no event concerns it.
pub proof fn lemma_off_direction_untouched<S>(
    p: PipelineView<S>,
    config: HybridConfig,
    pcm: Seq<S>,
    level: ChunkLevel,
    chunk_duration_ms: u32,
    direction: Direction,
)
    requires
        config.spec_mode(direction) == DirectionMode::Off,
    ensures
        runtime_of(pipeline_step(p, config, pcm, level, chunk_duration_ms).0, direction) == runtime_of(
            p,
            direction,
        ),
        forall|i: int|
            0 <= i < pipeline_step(p, config, pcm, level, chunk_duration_ms).1.len() ==> !mentions(
                #[trigger] pipeline_step(p, config, pcm, level, chunk_duration_ms).1[i],
                direction,
            ),
{
    let (np, events) = pipeline_step(p, config, pcm, level, chunk_duration_ms);
    assert forall|i: int| 0 <= i < events.len() implies !mentions(#[trigger] events[i], direction) by {
        let (a, ea) = direction_step(
            p.first_to_second,
            config.spec_mode(Direction::FirstToSecond),
            pcm,
            level,
            chunk_duration_ms,
        );
        let (b, eb) = direction_step(
            p.second_to_first,
            config.spec_mode(Direction::SecondToFirst),
            pcm,
            level,
            chunk_duration_ms,
        );
        let da = debug_events(Direction::FirstToSecond, ea, a);
        let db = debug_events(Direction::SecondToFirst, eb, b);
        if i < da.len() {
            assert(events[i] == da[i]);
        } else if i < da.len() + db.len() {
            assert(events[i] == db[i - da.len()]);
        }
    }
}

/// Every hand-off carries exactly the audio buffered for the utterance it
/// closes, and leaves the buffer it drew from empty, so the next hand-off
/// holds only audio buffered after this one. An utterance handed off for one
/// direction is that direction's buffer before the chunk (the closing chunk
/// itself is not buffered); the ambiguous one, when both directions close
/// together, is the first direction's, and both buffers are emptied. A
/// direction that reports the end of its utterance is left with an empty
/// buffer.
pub proof fn lemma_handoffs_carry_the_utterance_and_drain<S>(
    p: PipelineView<S>,
    config: HybridConfig,
    pcm: Seq<S>,
    level: ChunkLevel,
    chunk_duration_ms: u32,
)
    ensures
        ({
            let (np, events) = pipeline_step(p, config, pcm, level, chunk_duration_ms);
            forall|i: int|
                0 <= i < events.len() ==> match #[trigger] events[i] {
                    PipelineEventView::UtteranceReady { direction: d, pcm: u } => u == runtime_of(
                        p,
                        d,
                    ).live_buffer && runtime_of(np, d).live_buffer.len() == 0,
                    PipelineEventView::AmbiguousUtteranceReady { pcm: u } => u
                        == p.first_to_second.live_buffer && np.first_to_second.live_buffer.len() == 0
                        && np.second_to_first.live_buffer.len() == 0,
                    PipelineEventView::Debug { direction: d, event: e, .. } => e == GateEvent::UtteranceEnded
                        ==> runtime_of(np, d).live_buffer.len() == 0,
                    PipelineEventView::PushToTalkReady { .. } => true,
                }
        }),
{
    let (np, events) = pipeline_step(p, config, pcm, level, chunk_duration_ms);
    let (a, ea) = direction_step(
        p.first_to_second,
        config.spec_mode(Direction::FirstToSecond),
        pcm,
        level,
        chunk_duration_ms,
    );
    let (b, eb) = direction_step(
        p.second_to_first,
        config.spec_mode(Direction::SecondToFirst),
        pcm,
        level,
        chunk_duration_ms,
    );
    let da = debug_events(Direction::FirstToSecond, ea, a);
    let db = debug_events(Direction::SecondToFirst, eb, b);
    crate::vad::lemma_events_mark_utterance_boundaries(p.first_to_second.gate, level, chunk_duration_ms);
    crate::vad::lemma_events_mark_utterance_boundaries(p.second_to_first.gate, level, chunk_duration_ms);
    if ended(ea) {
        assert(a.live_buffer == p.first_to_second.live_buffer);
    }
    if ended(eb) {
        assert(b.live_buffer == p.second_to_first.live_buffer);
    }
    assert forall|i: int| 0 <= i < events.len() implies match #[trigger] events[i] {
        PipelineEventView::UtteranceReady { direction: d, pcm: u } => u == runtime_of(p, d).live_buffer
            && runtime_of(np, d).live_buffer.len() == 0,
        PipelineEventView::AmbiguousUtteranceReady { pcm: u } => u == p.first_to_second.live_buffer
            && np.first_to_second.live_buffer.len() == 0 && np.second_to_first.live_buffer.len() == 0,
        PipelineEventView::Debug { direction: d, event: e, .. } => e == GateEvent::UtteranceEnded
            ==> runtime_of(np, d).live_buffer.len() == 0,
        PipelineEventView::PushToTalkReady { .. } => true,
    } by {
        if i < da.len() {
            assert(events[i] == da[i]);
        } else if i < da.len() + db.len() {
            assert(events[i] == db[i - da.len()]);
        }
    }
}

/// An `Off` direction keeps its state through any sequence of chunks.
pub proof fn lemma_off_direction_untouched_by_any_run<S>(
    p: PipelineView<S>,
    config: HybridConfig,
    inputs: Seq<ChunkInput<S>>,
    direction: Direction,
)
    requires
        config.spec_mode(direction) == DirectionMode::Off,
    ensures
        runtime_of(run_chunks(p, config, inputs), direction) == runtime_of(p, direction),
    decreases inputs.len(),
{
    if inputs.len() > 0 {
        lemma_off_direction_untouched_by_any_run(p, config, inputs.drop_last(), direction);
        let last = inputs.last();
        lemma_off_direction_untouched(
            run_chunks(p, config, inputs.drop_last()),
            config,
            last.pcm,
            last.level,
            last.duration_ms,
            direction,
        );
    }
}

/// While a `PushToTalk` direction is armed, every chunk is appended to its
/// buffer; while it is not armed, its buffer does not change.
pub proof fn lemma_push_to_talk_buffers_while_armed<S>(
    p: PipelineView<S>,
    config: HybridConfig,
    inputs: Seq<ChunkInput<S>>,
    direction: Direction,
)
    requires
        config.spec_mode(direction) == DirectionMode::PushToTalk,
    ensures
        runtime_of(run_chunks(p, config, inputs), direction).ptt_armed == runtime_of(p, direction).ptt_armed,
        runtime_of(run_chunks(p, config, inputs), direction).ptt_buffer == (if runtime_of(p, direction).ptt_armed {
            runtime_of(p, direction).ptt_buffer + concat_pcm(inputs)
        } else {
            runtime_of(p, direction).ptt_buffer
        }),
    decreases inputs.len(),
{
    if inputs.len() > 0 {
        lemma_push_to_talk_buffers_while_armed(p, config, inputs.drop_last(), direction);
        let q = run_chunks(p, config, inputs.drop_last());
        let last = inputs.last();
        if runtime_of(p, direction).ptt_armed {
            assert(runtime_of(p, direction).ptt_buffer + concat_pcm(inputs.drop_last()) + last.pcm
                =~= runtime_of(p, direction).ptt_buffer + concat_pcm(inputs));
        }
    }
}

/// A push-to-talk capture is exactly the audio pushed between arming and
/// release: arming empties the buffer, each chunk while armed is appended,
/// and releasing hands the buffer off.
pub proof fn lemma_push_to_talk_captures_exactly_armed_audio<S>(
    p: PipelineView<S>,
    config: HybridConfig,
    inputs: Seq<ChunkInput<S>>,
    direction: Direction,
)
    requires
        config.spec_mode(direction) == DirectionMode::PushToTalk,
    ensures
        runtime_of(run_chunks(ptt_begun(p, direction), config, inputs), direction).ptt_buffer == concat_pcm(
            inputs,
        ),
        !runtime_of(ptt_ended(run_chunks(ptt_begun(p, direction), config, inputs), direction), direction).ptt_armed,
{
    lemma_push_to_talk_buffers_while_armed(ptt_begun(p, direction), config, inputs, direction);
    assert(Seq::<S>::empty() + concat_pcm(inputs) =~= concat_pcm(inputs));
}

/// Arming push-to-talk, in any state, leaves the direction armed with an
/// empty capture (so a release right after it hands nothing off), keeps that
/// direction's live gate and live buffer, and touches neither the other
/// direction nor the conversation bias.
pub proof fn lemma_begin_push_to_talk_arms_empty_capture<S>(p: PipelineView<S>, direction: Direction)
    ensures
        runtime_of(ptt_begun(p, direction), direction).ptt_armed,
        runtime_of(ptt_begun(p, direction), direction).ptt_buffer.len() == 0,
        runtime_of(ptt_begun(p, direction), direction).gate == runtime_of(p, direction).gate,
        runtime_of(ptt_begun(p, direction), direction).live_buffer == runtime_of(p, direction).live_buffer,
        runtime_of(ptt_begun(p, direction), direction.spec_other()) == runtime_of(p, direction.spec_other()),
        ptt_begun(p, direction).bias == p.bias,
        runtime_of(ptt_ended(ptt_begun(p, direction), direction), direction).ptt_buffer.len() == 0,
{
}

/// Both directions `Live` with identical gates and live buffers stay in
/// lockstep through a chunk; they never hand off an utterance each, and an
/// utterance they close together is reported once, as the last event.
pub proof fn lemma_both_live_report_one_ambiguous_utterance<S>(
    p: PipelineView<S>,
    config: HybridConfig,
    pcm: Seq<S>,
    level: ChunkLevel,
    chunk_duration_ms: u32,
)
    requires
        config.spec_mode(Direction::FirstToSecond) == DirectionMode::Live,
        config.spec_mode(Direction::SecondToFirst) == DirectionMode::Live,
        p.first_to_second.gate == p.second_to_first.gate,
        p.first_to_second.live_buffer == p.second_to_first.live_buffer,
    ensures
        ({
            let (np, events) = pipeline_step(p, config, pcm, level, chunk_duration_ms);
            &&& np.first_to_second.gate == np.second_to_first.gate
            &&& np.first_to_second.live_buffer == np.second_to_first.live_buffer
            &&& forall|i: int| 0 <= i < events.len() ==> !(#[trigger] events[i] is UtteranceReady)
            &&& forall|i: int|
                0 <= i < events.len() - 1 ==> !(#[trigger] events[i] is AmbiguousUtteranceReady)
            &&& (step(p.first_to_second.gate, level, chunk_duration_ms).1 == Some(GateEvent::UtteranceEnded)
                <==> events.len() > 0 && events.last() is AmbiguousUtteranceReady)
        }),
{
    let (np, events) = pipeline_step(p, config, pcm, level, chunk_duration_ms);
    let (a, ea) = direction_step(p.first_to_second, DirectionMode::Live, pcm, level, chunk_duration_ms);
    let (b, eb) = direction_step(p.second_to_first, DirectionMode::Live, pcm, level, chunk_duration_ms);
    assert(a.gate == b.gate && a.live_buffer == b.live_buffer && ea == eb);
    let da = debug_events(Direction::FirstToSecond, ea, a);
    let db = debug_events(Direction::SecondToFirst, eb, b);
    assert forall|i: int| 0 <= i < da.len() + db.len() implies (da + db)[i] is Debug by {
        if i < da.len() {
        } else {
        }
    }
    if ended(ea) {
        assert(events == (da + db).push(PipelineEventView::AmbiguousUtteranceReady { pcm: a.live_buffer }));
        assert forall|i: int| 0 <= i < events.len() implies !(#[trigger] events[i] is UtteranceReady) by {
            if i < da.len() + db.len() {
                assert(events[i] == (da + db)[i]);
            }
        }
        assert forall|i: int| 0 <= i < events.len() - 1 implies !(#[trigger] events[i] is AmbiguousUtteranceReady) by {
            assert(events[i] == (da + db)[i]);
        }
    } else {
        assert(events =~= da + db);
        assert forall|i: int| 0 <= i < events.len() implies !(#[trigger] events[i] is UtteranceReady) by {
            assert(events[i] == (da + db)[i]);
        }
        assert forall|i: int| 0 <= i < events.len() - 1 implies !(#[trigger] events[i] is AmbiguousUtteranceReady) by {
            assert(events[i] == (da + db)[i]);
        }
        if events.len() > 0 {
            assert(events.last() == (da + db)[events.len() - 1]);
        }
    }
}

/// Unless both directions are `Live`, what a chunk does to one direction
/// depends only on that direction's own state: a `Live` direction keeps
/// listening whatever the other direction's push-to-talk state is, and the
/// other way round.
pub proof fn lemma_directions_are_independent<S>(
    p: PipelineView<S>,
    q: PipelineView<S>,
    config: HybridConfig,
    pcm: Seq<S>,
    level: ChunkLevel,
    chunk_duration_ms: u32,
    direction: Direction,
)
    requires
        config.spec_mode(direction.spec_other()) != DirectionMode::Live,
        runtime_of(p, direction) == runtime_of(q, direction),
    ensures
        runtime_of(pipeline_step(p, config, pcm, level, chunk_duration_ms).0, direction) == runtime_of(
            pipeline_step(q, config, pcm, level, chunk_duration_ms).0,
            direction,
        ),
{
}

/// Two `Live` directions that start alike (as they do in a new pipeline)
/// stay in lockstep through any sequence of chunks, so every utterance they
/// close is reported once, as an ambiguous utterance.
pub proof fn lemma_both_live_stay_in_lockstep<S>(
    p: PipelineView<S>,
    config: HybridConfig,
    inputs: Seq<ChunkInput<S>>,
)
    requires
        config.spec_mode(Direction::FirstToSecond) == DirectionMode::Live,
        config.spec_mode(Direction::SecondToFirst) == DirectionMode::Live,
        p.first_to_second.gate == p.second_to_first.gate,
        p.first_to_second.live_buffer == p.second_to_first.live_buffer,
    ensures
        run_chunks(p, config, inputs).first_to_second.gate == run_chunks(p, config, inputs).second_to_first.gate,
        run_chunks(p, config, inputs).first_to_second.live_buffer == run_chunks(
            p,
            config,
            inputs,
        ).second_to_first.live_buffer,
    decreases inputs.len(),
{
    if inputs.len() > 0 {
        lemma_both_live_stay_in_lockstep(p, config, inputs.drop_last());
        let last = inputs.last();
        lemma_both_live_report_one_ambiguous_utterance(
            run_chunks(p, config, inputs.drop_last()),
            config,
            last.pcm,
            last.level,
            last.duration_ms,
        );
    }
}

/// Language identification decides when it has an answer; otherwise a clear
/// confidence winner decides; otherwise the direction used last; and with no
/// history, `FirstToSecond`. Only a confident signal overrides the history.
pub proof fn lemma_resolution_priority(
    langid_favors_first: Option<bool>,
    confidence_winner: Option<Direction>,
    bias: Option<Direction>,
)
    ensures
        langid_favors_first == Some(true) ==> spec_resolution(langid_favors_first, confidence_winner, bias)
            == Direction::FirstToSecond,
        langid_favors_first == Some(false) ==> spec_resolution(langid_favors_first, confidence_winner, bias)
            == Direction::SecondToFirst,
        langid_favors_first is None ==> (confidence_winner matches Some(d) ==> spec_resolution(
            langid_favors_first,
            confidence_winner,
            bias,
        ) == d),
        langid_favors_first is None && confidence_winner is None ==> (bias matches Some(d)
            ==> spec_resolution(langid_favors_first, confidence_winner, bias) == d),
        langid_favors_first is None && confidence_winner is None && bias is None ==> spec_resolution(
            langid_favors_first,
            confidence_winner,
            bias,
        ) == Direction::FirstToSecond,
{
}

} // verus!
