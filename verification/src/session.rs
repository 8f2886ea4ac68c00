//! The session state machine behind the host-facing surface: lifecycle,
//! undirected audio ingestion, push-to-talk bracketing, the playback-window
//! signal, and the mapping from pipeline events to what the host is told
//! (translated text for a direction, or a debug event).
//!
//! The session returns those outputs as values; delivering them to the
//! host's listeners is the caller's job.

use vstd::prelude::*;

use crate::config::{Direction, HybridConfig};
use crate::error::HybridError;
use crate::pipeline::{
    can_pipeline_step, events_view, initial_runtime, pipeline_notified, pipeline_step, ptt_begun,
    ptt_ended, runtime_of, PipelineEvent, PipelineEventView, PipelineManager, PipelineView,
};
use crate::vad::{can_notify, ChunkLevel, GateEvent, VadConfig};

verus! {

/// What the host is told.
#[derive(Debug, Clone, PartialEq, Eq)]
pub enum SessionOutput {
    /// Translated text for one direction.
    Translated { direction: Direction, text: String },
    /// A gate or echo-window transition, for the optional debug listener.
    Debug { direction: Direction, event: GateEvent, elapsed_ms: u64 },
}

/// The abstract content of an output.
pub enum SessionOutputView {
    Translated { direction: Direction, text: Seq<char> },
    Debug { direction: Direction, event: GateEvent, elapsed_ms: u64 },
}

impl View for SessionOutput {
    type V = SessionOutputView;

    open spec fn view(&self) -> SessionOutputView {
        match self {
            SessionOutput::Translated { direction, text } => SessionOutputView::Translated {
                direction: *direction,
                text: text@,
            },
            SessionOutput::Debug { direction, event, elapsed_ms } => SessionOutputView::Debug {
                direction: *direction,
                event: *event,
                elapsed_ms: *elapsed_ms,
            },
        }
    }
}

/// The character of one decimal digit.
pub open spec fn digit_char(d: nat) -> char {
    if d == 0 { '0' } else if d == 1 { '1' } else if d == 2 { '2' } else if d == 3 { '3' }
    else if d == 4 { '4' } else if d == 5 { '5' } else if d == 6 { '6' } else if d == 7 { '7' }
    else if d == 8 { '8' } else { '9' }
}

/// The decimal notation of a natural number, without leading zeros.
pub open spec fn decimal(n: nat) -> Seq<char>
    decreases n,
{
    if n < 10 {
        seq![digit_char(n)]
    } else {
        decimal(n / 10).push(digit_char(n % 10))
    }
}

/// The text reported for a captured utterance until recognition and
/// translation are wired in: the sample count and the target language.
pub open spec fn stub_text(samples: nat, target_language: Seq<char>) -> Seq<char> {
    "[stub: "@ + decimal(samples) + " samples captured for -> "@ + target_language + "]"@
}

/// What the host is told for one pipeline event: translated text for a
/// resolved utterance, the debug event itself, and nothing for an ambiguous
/// utterance (its direction is not known yet).
pub open spec fn output_for<S>(config: HybridConfig, event: PipelineEventView<S>) -> Option<SessionOutputView> {
    match event {
        PipelineEventView::UtteranceReady { direction, pcm } => Some(SessionOutputView::Translated {
            direction,
            text: stub_text(pcm.len(), config.spec_target(direction)),
        }),
        PipelineEventView::PushToTalkReady { direction, pcm } => Some(SessionOutputView::Translated {
            direction,
            text: stub_text(pcm.len(), config.spec_target(direction)),
        }),
        PipelineEventView::AmbiguousUtteranceReady { .. } => None,
        PipelineEventView::Debug { direction, event, elapsed_ms } => Some(SessionOutputView::Debug {
            direction,
            event,
            elapsed_ms,
        }),
    }
}

/// The outputs for a sequence of pipeline events, in order.
pub open spec fn outputs_for<S>(config: HybridConfig, events: Seq<PipelineEventView<S>>) -> Seq<SessionOutputView>
    decreases events.len(),
{
    if events.len() == 0 {
        Seq::empty()
    } else {
        let rest = outputs_for(config, events.drop_last());
        match output_for(config, events.last()) {
            Some(o) => rest.push(o),
            None => rest,
        }
    }
}

/// The outputs of a vector, as abstract values.
pub open spec fn outputs_view(outputs: Seq<SessionOutput>) -> Seq<SessionOutputView> {
    outputs.map_values(|o: SessionOutput| o@)
}

fn digit_str(d: usize) -> (s: &'static str)
    requires
        d < 10,
    ensures
        s@ == seq![digit_char(d as nat)],
{
    proof {
        reveal_strlit("0");
        reveal_strlit("1");
        reveal_strlit("2");
        reveal_strlit("3");
        reveal_strlit("4");
        reveal_strlit("5");
        reveal_strlit("6");
        reveal_strlit("7");
        reveal_strlit("8");
        reveal_strlit("9");
    }
    match d {
        0 => "0",
        1 => "1",
        2 => "2",
        3 => "3",
        4 => "4",
        5 => "5",
        6 => "6",
        7 => "7",
        8 => "8",
        _ => "9",
    }
}

/// Appends the decimal notation of `n`.
fn append_decimal(text: &mut String, n: usize)
    ensures
        final(text)@ == old(text)@ + decimal(n as nat),
    decreases n,
{
    if n >= 10 {
        append_decimal(text, n / 10);
    }
    text.append(digit_str(n % 10));
    proof {
        if n >= 10 {
            assert(decimal(n as nat) == decimal((n / 10) as nat).push(digit_char((n % 10) as nat)));
        }
    }
    assert(text@ =~= old(text)@ + decimal(n as nat));
}

/// The abstract state of a session.
pub struct SessionView<S> {
    pub running: bool,
    pub pipeline: PipelineView<S>,
}

/// One session: whether it is running, and both directions' pipeline state.
pub struct HybridSession<S> {
    running: bool,
    pipeline: PipelineManager<S>,
}

impl<S> View for HybridSession<S> {
    type V = SessionView<S>;

    closed spec fn view(&self) -> SessionView<S> {
        SessionView { running: self.running, pipeline: self.pipeline@ }
    }
}

impl<S: Copy> HybridSession<S> {
    /// A stopped session whose gates use the default timing.
    pub fn new() -> (session: Self)
        ensures
            !session@.running,
            session@.pipeline == (PipelineView {
                first_to_second: initial_runtime::<S>(VadConfig::spec_default()),
                second_to_first: initial_runtime::<S>(VadConfig::spec_default()),
                bias: None,
            }),
    {
        HybridSession { running: false, pipeline: PipelineManager::new(VadConfig::default()) }
    }

    pub fn start(&mut self) -> (result: Result<(), HybridError>)
        ensures
            old(self)@.running ==> (result == Err::<(), HybridError>(HybridError::AlreadyRunning)
                && final(self)@ == old(self)@),
            !old(self)@.running ==> (result is Ok && final(self)@ == (SessionView {
                running: true,
                ..old(self)@
            })),
    {
        if self.running {
            return Err(HybridError::AlreadyRunning);
        }
        self.running = true;
        Ok(())
    }

    pub fn stop(&mut self) -> (result: Result<(), HybridError>)
        ensures
            !old(self)@.running ==> (result == Err::<(), HybridError>(HybridError::NotRunning)
                && final(self)@ == old(self)@),
            old(self)@.running ==> (result is Ok && final(self)@ == (SessionView {
                running: false,
                ..old(self)@
            })),
    {
        if !self.running {
            return Err(HybridError::NotRunning);
        }
        self.running = false;
        Ok(())
    }

    pub fn is_running(&self) -> (running: bool)
        ensures
            running == self@.running,
    {
        self.running
    }

    /// Whether `push_audio_chunk` with this duration keeps the gates'
    /// counters within range.
    pub fn can_push_audio_chunk(&self, config: &HybridConfig, chunk_duration_ms: u32) -> (ok: bool)
        ensures
            ok == can_pipeline_step(self@.pipeline, *config, chunk_duration_ms),
    {
        self.pipeline.can_process_chunk(config, chunk_duration_ms)
    }

    /// Whether `notify_playback_window` keeps the echo window's end times
    /// within range.
    pub fn can_notify_playback_window(&self, direction: Direction, active: bool) -> (ok: bool)
        ensures
            ok == can_notify(runtime_of(self@.pipeline, direction).gate, active),
    {
        self.pipeline.can_notify_playback_window(direction, active)
    }

    /// Pushes one undirected chunk (its samples and its loudness class) into
    /// a running session, and returns what the host is to be told, in order.
    pub fn push_audio_chunk(
        &mut self,
        config: &HybridConfig,
        pcm: &[S],
        level: ChunkLevel,
        chunk_duration_ms: u32,
    ) -> (result: Result<Vec<SessionOutput>, HybridError>)
        requires
            old(self)@.running ==> can_pipeline_step(old(self)@.pipeline, *config, chunk_duration_ms),
        ensures
            !old(self)@.running ==> (result matches Err(e) && e == HybridError::NotRunning
                && final(self)@ == old(self)@),
            old(self)@.running ==> (result matches Ok(outputs) && {
                let (p, events) = pipeline_step(old(self)@.pipeline, *config, pcm@, level, chunk_duration_ms);
                &&& final(self)@ == (SessionView { running: true, pipeline: p })
                &&& outputs_view(outputs@) == outputs_for(*config, events)
            }),
    {
        if !self.running {
            return Err(HybridError::NotRunning);
        }
        let events = self.pipeline.process_chunk(config, pcm, level, chunk_duration_ms);
        Ok(self.handle_pipeline_events(config, events))
    }

    /// Routes a playback-window signal to one direction's gate; the
    /// resulting debug event is the output.
    pub fn notify_playback_window(&mut self, direction: Direction, active: bool) -> (output: Option<SessionOutput>)
        requires
            can_notify(runtime_of(old(self)@.pipeline, direction).gate, active),
        ensures
            final(self)@ == (SessionView {
                pipeline: pipeline_notified(old(self)@.pipeline, direction, active),
                ..old(self)@
            }),
            output matches Some(o) && o@ == (SessionOutputView::Debug {
                direction,
                event: if active {
                    GateEvent::PlaybackWindowStarted
                } else {
                    GateEvent::PlaybackWindowEnded
                },
                elapsed_ms: runtime_of(old(self)@.pipeline, direction).gate.elapsed_ms,
            }),
    {
        let event = self.pipeline.notify_playback_window(direction, active);
        match event {
            PipelineEvent::Debug { direction, event, elapsed_ms } => Some(
                SessionOutput::Debug { direction, event, elapsed_ms },
            ),
            _ => None,
        }
    }

    /// Arms push-to-talk for a direction of a running session.
    pub fn begin_push_to_talk(&mut self, direction: Direction) -> (result: Result<(), HybridError>)
        ensures
            !old(self)@.running ==> (result == Err::<(), HybridError>(HybridError::NotRunning)
                && final(self)@ == old(self)@),
            old(self)@.running ==> (result is Ok && final(self)@ == (SessionView {
                pipeline: ptt_begun(old(self)@.pipeline, direction),
                ..old(self)@
            })),
    {
        if !self.running {
            return Err(HybridError::NotRunning);
        }
        self.pipeline.begin_push_to_talk(direction);
        Ok(())
    }

    /// Releases push-to-talk for a direction of a running session; the
    /// output is the translation of what was captured, if anything was.
    pub fn end_push_to_talk(&mut self, config: &HybridConfig, direction: Direction) -> (result: Result<
        Option<SessionOutput>,
        HybridError,
    >)
        ensures
            !old(self)@.running ==> (result matches Err(e) && e == HybridError::NotRunning
                && final(self)@ == old(self)@),
            old(self)@.running ==> (result matches Ok(output) && {
                let captured = runtime_of(old(self)@.pipeline, direction).ptt_buffer;
                &&& final(self)@ == (SessionView {
                    pipeline: ptt_ended(old(self)@.pipeline, direction),
                    ..old(self)@
                })
                &&& captured.len() == 0 ==> output is None
                &&& captured.len() != 0 ==> (output matches Some(o) && o@
                    == (SessionOutputView::Translated {
                    direction,
                    text: stub_text(captured.len(), config.spec_target(direction)),
                }))
            }),
    {
        if !self.running {
            return Err(HybridError::NotRunning);
        }
        match self.pipeline.end_push_to_talk(direction) {
            Some(event) => Ok(self.handle_pipeline_event(config, event)),
            None => Ok(None),
        }
    }

    /// What the host is told for one pipeline event.
    pub fn handle_pipeline_event(&self, config: &HybridConfig, event: PipelineEvent<S>) -> (output: Option<
        SessionOutput,
    >)
        ensures
            match output {
                Some(o) => output_for(*config, event@) == Some(o@),
                None => output_for(*config, event@) is None,
            },
    {
        match event {
            PipelineEvent::UtteranceReady { direction, pcm } => Some(
                SessionOutput::Translated {
                    direction,
                    text: self.resolve_utterance(config, direction, pcm.as_slice()),
                },
            ),
            PipelineEvent::PushToTalkReady { direction, pcm } => Some(
                SessionOutput::Translated {
                    direction,
                    text: self.resolve_utterance(config, direction, pcm.as_slice()),
                },
            ),
            PipelineEvent::AmbiguousUtteranceReady { .. } => None,
            PipelineEvent::Debug { direction, event, elapsed_ms } => Some(
                SessionOutput::Debug { direction, event, elapsed_ms },
            ),
        }
    }

    fn handle_pipeline_events(&self, config: &HybridConfig, events: Vec<PipelineEvent<S>>) -> (outputs: Vec<
        SessionOutput,
    >)
        ensures
            outputs_view(outputs@) == outputs_for(*config, events_view(events@)),
    {
        let ghost all = events_view(events@);
        let mut outputs: Vec<SessionOutput> = Vec::new();
        let mut rest = events;
        let n: usize = rest.len();
        assert(all.len() == n);
        let mut k: usize = 0;
        while k < n
            invariant
                n == all.len(),
                k <= n,
                events_view(rest@) == all.subrange(k as int, n as int),
                rest@.len() == n - k,
                outputs_view(outputs@) == outputs_for(*config, all.subrange(0, k as int)),
            decreases n - k,
        {
            let ghost rest_before = rest@;
            let event = rest.remove(0);
            proof {
                assert(events_view(rest_before)[0] == event@);
                assert(all[k as int] == event@);
                assert forall|j: int| 0 <= j < rest@.len() implies events_view(rest@)[j] == all[k + 1 + j] by {
                    assert(rest@[j] == rest_before[j + 1]);
                    assert(events_view(rest_before)[j + 1] == all.subrange(k as int, n as int)[j + 1]);
                }
                assert(events_view(rest@) =~= all.subrange(k + 1, n as int));
            }
            let ghost before = outputs@;
            match self.handle_pipeline_event(config, event) {
                Some(o) => outputs.push(o),
                None => {},
            }
            proof {
                let sub = all.subrange(0, k + 1);
                assert(sub.drop_last() =~= all.subrange(0, k as int));
                assert(sub.last() == all[k as int]);
                assert(outputs_view(before.push(outputs@.last())) =~= outputs_view(before).push(outputs@.last()@));
                assert(outputs_view(outputs@) =~= outputs_for(*config, sub));
            }
            k = k + 1;
        }
        assert(all.subrange(0, n as int) =~= all);
        outputs
    }

    /// The text standing in for recognition and translation of a captured
    /// utterance: its sample count and the direction's target language.
    pub fn resolve_utterance(&self, config: &HybridConfig, direction: Direction, pcm: &[S]) -> (text: String)
        ensures
            text@ == stub_text(pcm@.len(), config.spec_target(direction)),
    {
        let target = config.target_language(direction);
        let mut text = String::from_str("[stub: ");
        append_decimal(&mut text, pcm.len());
        text.append(" samples captured for -> ");
        text.append(target.as_str());
        text.append("]");
        text
    }
}

/// A resolved utterance, live or push-to-talk, is reported for the
/// direction that captured it, as text that gives the number of samples
/// captured and that direction's target language; in a mirrored
/// configuration that is the language the other direction listens for.
/// Only an ambiguous utterance, whose direction is not known yet, is not
/// reported.
pub proof fn lemma_utterance_reported_for_its_own_direction<S>(
    config: HybridConfig,
    direction: Direction,
    pcm: Seq<S>,
)
    ensures
        output_for(config, PipelineEventView::UtteranceReady { direction, pcm }) == Some(
            SessionOutputView::Translated {
                direction,
                text: "[stub: "@ + decimal(pcm.len()) + " samples captured for -> "@ + config.spec_target(
                    direction,
                ) + "]"@,
            },
        ),
        output_for(config, PipelineEventView::PushToTalkReady { direction, pcm }) == output_for(
            config,
            PipelineEventView::UtteranceReady { direction, pcm },
        ),
        output_for(config, PipelineEventView::UtteranceReady { direction, pcm }) != output_for(
            config,
            PipelineEventView::UtteranceReady { direction: direction.spec_other(), pcm },
        ),
        config.mirrored() ==> output_for(config, PipelineEventView::UtteranceReady { direction, pcm })
            == Some(
            SessionOutputView::Translated {
                direction,
                text: "[stub: "@ + decimal(pcm.len()) + " samples captured for -> "@ + config.spec_source(
                    direction.spec_other(),
                ) + "]"@,
            },
        ),
        output_for(config, PipelineEventView::AmbiguousUtteranceReady { pcm }) is None,
{
}

/// Starting a stopped session and stopping it again gives back the session
/// as it was.
pub proof fn lemma_start_stop_round_trip<S>(v: SessionView<S>)
    requires
        !v.running,
    ensures
        (SessionView { running: false, ..SessionView { running: true, ..v } }) == v,
{
}

} // verus!
