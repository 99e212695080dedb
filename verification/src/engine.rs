//! The session engine: the state of a run and the countdown that drives it,
//! one tick at a time.

use vstd::prelude::*;
use crate::config::DurationType;
use crate::config::SessionConfig;
use crate::schedule::Phase;
use crate::schedule::Position;
use crate::schedule::Reading;

verus! {

/// Seconds that pass between two ticks of the countdown. One tick stands for
/// one minute of the configured durations.
pub const TICK_SECONDS: u64 = 60;

/// Sessions in a round.
pub const SESSIONS_PER_ROUND: u8 = 4;

/// Where a run stands: the round, the session within it and the phase.
#[derive(Clone, Copy, Debug)]
pub struct EngineState {
    round_number: u64,
    session_index: u8,
    current_phase: Phase,
}

impl View for EngineState {
    type V = Position;

    closed spec fn view(&self) -> Position {
        Position {
            round: self.round_number as nat,
            session: self.session_index as nat,
            phase: self.current_phase,
        }
    }
}

impl EngineState {
    #[verifier::type_invariant]
    pub open spec fn wf(&self) -> bool {
        self@.wf()
    }

    /// Whether the round counter can hold the round that the next interval
    /// belongs to.
    pub open spec fn can_advance(&self) -> bool {
        self@.next().round <= u64::MAX
    }

    /// The state in which every run begins.
    pub fn new() -> (state: Self)
        ensures
            state@ == Position::initial(),
    {
        Self { round_number: 1, session_index: 0, current_phase: Phase::Focus }
    }

    /// The state at a given place of the schedule, if there is such a place:
    /// rounds count from 1 and sessions from 0 to 3.
    pub fn at(round_number: u64, session_index: u8, current_phase: Phase) -> (state: Option<Self>)
        ensures
            state is Some <==> round_number >= 1 && session_index < 4,
            state matches Some(s) ==> s@ == (Position {
                round: round_number as nat,
                session: session_index as nat,
                phase: current_phase,
            }),
    {
        if round_number >= 1 && session_index < SESSIONS_PER_ROUND {
            Some(Self { round_number, session_index, current_phase })
        } else {
            None
        }
    }

    /// The round, counted from 1.
    pub fn round_number(&self) -> (round: u64)
        ensures
            round == self@.round,
            round >= 1,
    {
        proof {
            use_type_invariant(self);
        }
        self.round_number
    }

    /// The session within the round, counted from 0.
    pub fn session_index(&self) -> (session: u8)
        ensures
            session == self@.session,
            session < 4,
    {
        proof {
            use_type_invariant(self);
        }
        self.session_index
    }

    /// The phase of the session.
    pub fn current_phase(&self) -> (phase: Phase)
        ensures
            phase == self@.phase,
    {
        self.current_phase
    }

    /// Whether the break of the current session is the long one. True in the
    /// fourth session of a round and in no other.
    pub fn is_long_break(&self) -> (long: bool)
        ensures
            long == self@.long_break_due(),
            long <==> self@.session == 3,
    {
        proof {
            use_type_invariant(self);
        }
        (self.session_index + 1) % SESSIONS_PER_ROUND == 0
    }

    /// The kind of the interval that runs in this state.
    pub fn interval_kind(&self) -> (kind: DurationType)
        ensures
            kind == self@.kind(),
    {
        match self.current_phase {
            Phase::Focus => DurationType::Focus,
            Phase::Break => if self.is_long_break() {
                DurationType::LongBreak
            } else {
                DurationType::Break
            },
        }
    }

    /// Whether `advance` may be called: false only in the long break of the
    /// last round that the counter can hold.
    pub fn has_room(&self) -> (room: bool)
        ensures
            room == self.can_advance(),
    {
        self.round_number < u64::MAX || self.interval_kind() != DurationType::LongBreak
    }

    /// Moves on to the next interval, the current one having completed.
    pub fn advance(&mut self)
        requires
            old(self).can_advance(),
        ensures
            final(self)@ == old(self)@.next(),
    {
        proof {
            use_type_invariant(&*self);
        }
        match self.current_phase {
            Phase::Focus => {
                self.current_phase = Phase::Break;
            },
            Phase::Break => {
                if self.is_long_break() {
                    self.round_number = self.round_number + 1;
                }
                self.session_index = (self.session_index + 1) % SESSIONS_PER_ROUND;
                self.current_phase = Phase::Focus;
            },
        }
    }
}

/// What a tick of the countdown did.
#[derive(Clone, Copy, Debug, PartialEq, Eq, Structural)]
pub enum TickOutcome {
    /// A minute less remains of the same interval.
    Running,
    /// The interval of kind `finished` has completed and the next one has
    /// opened; `chime` tells whether the completion is to be sounded.
    Completed { finished: DurationType, chime: bool },
}

impl TickOutcome {
    /// The outcome of the tick taken at `reading`.
    pub open spec fn of(config: SessionConfig, reading: Reading) -> TickOutcome {
        if reading.completes() {
            TickOutcome::Completed {
                finished: reading.position.kind(),
                chime: reading.chimes(config),
            }
        } else {
            TickOutcome::Running
        }
    }
}

/// The countdown of a run: the settings, the place in the schedule and the
/// minutes that remain of the interval under way.
#[derive(Clone, Copy, Debug)]
pub struct Timer {
    config: SessionConfig,
    state: EngineState,
    remaining: i64,
}

impl Timer {
    /// The settings that the timer runs with.
    pub closed spec fn settings(&self) -> SessionConfig {
        self.config
    }

    /// What the timer shows now.
    pub closed spec fn reading(&self) -> Reading {
        Reading { position: self.state@, remaining: self.remaining as int }
    }

    #[verifier::type_invariant]
    pub open spec fn wf(&self) -> bool {
        &&& self.settings().wf()
        &&& self.reading().wf(self.settings())
    }

    /// Whether the round counter can hold the round that the next tick
    /// leads to.
    pub open spec fn can_tick(&self) -> bool {
        self.reading().tick(self.settings()).position.round <= u64::MAX
    }

    /// A timer at the start of a run: round 1, first session, the focus
    /// interval just opened.
    pub fn new(config: SessionConfig) -> (timer: Self)
        ensures
            timer.settings() == config,
            timer.reading() == Reading::opening(config, Position::initial()),
    {
        proof {
            use_type_invariant(&config);
        }
        let state = EngineState::new();
        let remaining = config.duration(DurationType::Focus) - 1;
        Self { config, state, remaining }
    }

    /// A timer in the middle of a run, if `remaining` is a minute count that
    /// the countdown of the interval at `state` can show.
    pub fn resume(config: SessionConfig, state: EngineState, remaining: i64) -> (timer: Option<Self>)
        ensures
            timer is Some <==> 0 <= remaining < config.minutes(state@.kind()),
            timer matches Some(t) ==> t.settings() == config && t.reading() == (Reading {
                position: state@,
                remaining: remaining as int,
            }),
    {
        proof {
            use_type_invariant(&state);
            use_type_invariant(&config);
        }
        if 0 <= remaining && remaining < config.duration(state.interval_kind()) {
            Some(Self { config, state, remaining })
        } else {
            None
        }
    }

    /// The settings that the timer runs with.
    pub fn config(&self) -> (config: SessionConfig)
        ensures
            config == self.settings(),
            config.wf(),
    {
        proof {
            use_type_invariant(self);
        }
        self.config
    }

    /// The place in the schedule.
    pub fn state(&self) -> (state: EngineState)
        ensures
            state@ == self.reading().position,
    {
        self.state
    }

    /// The minutes that remain of the interval under way: what the big
    /// digits show. Never negative and never more than 99.
    pub fn remaining_minutes(&self) -> (remaining: i64)
        ensures
            remaining == self.reading().remaining,
            0 <= remaining < self.settings().minutes(self.reading().position.kind()),
            remaining <= 99,
    {
        proof {
            use_type_invariant(self);
        }
        self.remaining
    }

    /// Whether `tick` may be called: false only where the tick would open a
    /// round beyond the largest number that the round counter can hold.
    pub fn has_room(&self) -> (room: bool)
        ensures
            room == self.can_tick(),
    {
        proof {
            use_type_invariant(self);
        }
        self.remaining > 0 || self.state.has_room()
    }

    /// What the next tick will do: take a minute off, or complete the
    /// interval and, unless the run is muted, call for the chime.
    pub fn next_outcome(&self) -> (outcome: TickOutcome)
        ensures
            outcome == TickOutcome::of(self.settings(), self.reading()),
    {
        if self.remaining > 0 {
            TickOutcome::Running
        } else {
            TickOutcome::Completed { finished: self.state.interval_kind(), chime: !self.config.mute() }
        }
    }

    /// One tick of the countdown, to be taken after each frame has been shown
    /// for `TICK_SECONDS`. Where minutes remain, one is taken off. Where none
    /// does, the interval has completed: the schedule moves on and the
    /// countdown of the next interval opens.
    pub fn tick(&mut self) -> (outcome: TickOutcome)
        requires
            old(self).can_tick(),
        ensures
            final(self).settings() == old(self).settings(),
            final(self).reading() == old(self).reading().tick(old(self).settings()),
            outcome == TickOutcome::of(old(self).settings(), old(self).reading()),
    {
        proof {
            use_type_invariant(&*self);
        }
        if self.remaining > 0 {
            let remaining = self.remaining - 1;
            *self = Self { config: self.config, state: self.state, remaining };
            TickOutcome::Running
        } else {
            let finished = self.state.interval_kind();
            let mut state = self.state;
            state.advance();
            let remaining = self.config.duration(state.interval_kind()) - 1;
            let chime = !self.config.mute();
            *self = Self { config: self.config, state, remaining };
            TickOutcome::Completed { finished, chime }
        }
    }
}

} // verus!
