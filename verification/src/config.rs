//! Per-direction configuration of a two-language session.
//!
//! Each direction's mode can be switched on its own at any time; switching one
//! direction never touches the other, and the language codes are fixed when
//! the configuration is created.

use vstd::prelude::*;

verus! {

/// Which language a translation direction listens for.
#[derive(Debug, Clone, Copy, PartialEq, Eq, Structural)]
pub enum Direction {
    /// first configured language -> second configured language
    FirstToSecond,
    /// second configured language -> first configured language
    SecondToFirst,
}

impl Direction {
    /// The opposite direction.
    pub open spec fn spec_other(self) -> Direction {
        match self {
            Direction::FirstToSecond => Direction::SecondToFirst,
            Direction::SecondToFirst => Direction::FirstToSecond,
        }
    }
}

/// How a direction acquires audio: continuous voice-gated listening,
/// button-bracketed capture, or not at all.
#[derive(Debug, Clone, Copy, PartialEq, Eq, Structural)]
pub enum DirectionMode {
    Live,
    PushToTalk,
    Off,
}

/// The abstract content of one direction's configuration.
pub struct DirectionConfigView {
    pub mode: DirectionMode,
    pub source_language: Seq<char>,
    pub target_language: Seq<char>,
}

#[derive(Debug, Clone)]
struct DirectionConfig {
    mode: DirectionMode,
    source_language_code: String,
    target_language_code: String,
}

impl DirectionConfig {
    spec fn view(&self) -> DirectionConfigView {
        DirectionConfigView {
            mode: self.mode,
            source_language: self.source_language_code@,
            target_language: self.target_language_code@,
        }
    }
}

/// Session-wide configuration for both directions.
#[derive(Debug, Clone)]
pub struct HybridConfig {
    first_to_second: DirectionConfig,
    second_to_first: DirectionConfig,
}

impl HybridConfig {
    /// The configuration of one direction, as an abstract value.
    pub closed spec fn direction(&self, direction: Direction) -> DirectionConfigView {
        match direction {
            Direction::FirstToSecond => self.first_to_second.view(),
            Direction::SecondToFirst => self.second_to_first.view(),
        }
    }

    pub open spec fn spec_mode(&self, direction: Direction) -> DirectionMode {
        self.direction(direction).mode
    }

    pub open spec fn spec_source(&self, direction: Direction) -> Seq<char> {
        self.direction(direction).source_language
    }

    pub open spec fn spec_target(&self, direction: Direction) -> Seq<char> {
        self.direction(direction).target_language
    }

    /// This configuration with one direction's mode replaced.
    pub closed spec fn spec_with_mode(self, direction: Direction, mode: DirectionMode) -> Self {
        match direction {
            Direction::FirstToSecond => HybridConfig {
                first_to_second: DirectionConfig { mode, ..self.first_to_second },
                ..self
            },
            Direction::SecondToFirst => HybridConfig {
                second_to_first: DirectionConfig { mode, ..self.second_to_first },
                ..self
            },
        }
    }

    /// Each direction translates into the language the other direction
    /// listens for.
    pub open spec fn mirrored(&self) -> bool {
        &&& self.spec_target(Direction::FirstToSecond) == self.spec_source(Direction::SecondToFirst)
        &&& self.spec_target(Direction::SecondToFirst) == self.spec_source(Direction::FirstToSecond)
    }

    pub fn new(
        first_language_code: String,
        second_language_code: String,
        first_to_second_mode: DirectionMode,
        second_to_first_mode: DirectionMode,
    ) -> (config: Self)
        ensures
            config.spec_mode(Direction::FirstToSecond) == first_to_second_mode,
            config.spec_mode(Direction::SecondToFirst) == second_to_first_mode,
            config.spec_source(Direction::FirstToSecond) == first_language_code@,
            config.spec_target(Direction::FirstToSecond) == second_language_code@,
            config.spec_source(Direction::SecondToFirst) == second_language_code@,
            config.spec_target(Direction::SecondToFirst) == first_language_code@,
            config.mirrored(),
    {
        Self {
            first_to_second: DirectionConfig {
                mode: first_to_second_mode,
                source_language_code: first_language_code.clone(),
                target_language_code: second_language_code.clone(),
            },
            second_to_first: DirectionConfig {
                mode: second_to_first_mode,
                source_language_code: second_language_code,
                target_language_code: first_language_code,
            },
        }
    }

    fn slot(&self, direction: Direction) -> (slot: &DirectionConfig)
        ensures
            slot.view() == self.direction(direction),
    {
        match direction {
            Direction::FirstToSecond => &self.first_to_second,
            Direction::SecondToFirst => &self.second_to_first,
        }
    }

    pub fn mode(&self, direction: Direction) -> (mode: DirectionMode)
        ensures
            mode == self.spec_mode(direction),
    {
        self.slot(direction).mode
    }

    /// Switches one direction's mode; the other direction and both language
    /// codes stay as they were.
    pub fn set_mode(&mut self, direction: Direction, mode: DirectionMode)
        ensures
            *final(self) == old(self).spec_with_mode(direction, mode),
            final(self).spec_mode(direction) == mode,
            final(self).direction(direction.spec_other()) == old(self).direction(
                direction.spec_other(),
            ),
            final(self).spec_source(direction) == old(self).spec_source(direction),
            final(self).spec_target(direction) == old(self).spec_target(direction),
            old(self).mirrored() ==> final(self).mirrored(),
    {
        proof {
            lemma_set_mode_is_local(*old(self), direction, mode);
        }
        match direction {
            Direction::FirstToSecond => self.first_to_second.mode = mode,
            Direction::SecondToFirst => self.second_to_first.mode = mode,
        }
    }

    /// Language code this direction listens for.
    pub fn source_language(&self, direction: Direction) -> (code: String)
        ensures
            code@ == self.spec_source(direction),
    {
        self.slot(direction).source_language_code.clone()
    }

    /// Language code this direction translates into.
    pub fn target_language(&self, direction: Direction) -> (code: String)
        ensures
            code@ == self.spec_target(direction),
    {
        self.slot(direction).target_language_code.clone()
    }
}

/// Switching one direction's mode sets that mode, leaves the other
/// direction's whole configuration and this direction's language codes as
/// they were, and keeps the two directions mirrored.
pub proof fn lemma_set_mode_is_local(config: HybridConfig, direction: Direction, mode: DirectionMode)
    ensures
        config.spec_with_mode(direction, mode).spec_mode(direction) == mode,
        config.spec_with_mode(direction, mode).direction(direction.spec_other())
            == config.direction(direction.spec_other()),
        config.spec_with_mode(direction, mode).spec_source(direction) == config.spec_source(
            direction,
        ),
        config.spec_with_mode(direction, mode).spec_target(direction) == config.spec_target(
            direction,
        ),
        config.mirrored() ==> config.spec_with_mode(direction, mode).mirrored(),
{
}

/// The configuration after switching modes in order, one `set_mode` call per
/// element of `changes`.
pub open spec fn with_modes(config: HybridConfig, changes: Seq<(Direction, DirectionMode)>) -> HybridConfig
    decreases changes.len(),
{
    if changes.len() == 0 {
        config
    } else {
        let last = changes.last();
        with_modes(config, changes.drop_last()).spec_with_mode(last.0, last.1)
    }
}

/// However many mode switches follow, every direction keeps the language
/// codes it was created with, a mirrored configuration stays mirrored (each
/// direction translates into the language the other listens for), and the
/// last switch of the sequence is the mode in force for its direction.
pub proof fn lemma_mode_changes_keep_languages(config: HybridConfig, changes: Seq<(Direction, DirectionMode)>)
    ensures
        forall|d: Direction|
            #![trigger with_modes(config, changes).spec_source(d)]
            with_modes(config, changes).spec_source(d) == config.spec_source(d),
        forall|d: Direction|
            #![trigger with_modes(config, changes).spec_target(d)]
            with_modes(config, changes).spec_target(d) == config.spec_target(d),
        config.mirrored() ==> with_modes(config, changes).mirrored(),
        changes.len() > 0 ==> with_modes(config, changes).spec_mode(changes.last().0) == changes.last().1,
    decreases changes.len(),
{
    if changes.len() > 0 {
        lemma_mode_changes_keep_languages(config, changes.drop_last());
        let prev = with_modes(config, changes.drop_last());
        let last = changes.last();
        lemma_set_mode_is_local(prev, last.0, last.1);
        assert forall|d: Direction| #![trigger with_modes(config, changes).spec_source(d)]
            with_modes(config, changes).spec_source(d) == config.spec_source(d) by {
            assert(prev.spec_source(d) == config.spec_source(d));
        }
        assert forall|d: Direction| #![trigger with_modes(config, changes).spec_target(d)]
            with_modes(config, changes).spec_target(d) == config.spec_target(d) by {
            assert(prev.spec_target(d) == config.spec_target(d));
        }
    }
}

} // verus!
