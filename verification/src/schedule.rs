//! The schedule as mathematics: places in it, the readings of a countdown,
//! and what holds of every run.
//!
//! A round is four sessions; a session is a focus interval and the break that
//! follows it; the break of the fourth session is the long one. An interval of
//! `d` minutes is counted down from `d - 1` to `0`, one tick at a time, and the
//! tick at `0` completes it.

use vstd::prelude::*;
use crate::config::DurationType;
use crate::config::SessionConfig;

verus! {

/// The two halves of a session.
#[derive(Clone, Copy, Debug, PartialEq, Eq, Structural)]
pub enum Phase {
    Focus,
    Break,
}

/// A place in the schedule, as a mathematical value: the round (from 1), the
/// session within the round (from 0) and the phase within the session.
pub struct Position {
    pub round: nat,
    pub session: nat,
    pub phase: Phase,
}

impl Position {
    /// Rounds count from 1 and a round has four sessions.
    pub open spec fn wf(self) -> bool {
        self.round >= 1 && self.session < 4
    }

    /// Where every run begins: round 1, its first session, in focus.
    pub open spec fn initial() -> Position {
        Position { round: 1, session: 0, phase: Phase::Focus }
    }

    /// Whether the break of this session is the long one: decided from the
    /// index of the session that is about to complete.
    pub open spec fn long_break_due(self) -> bool {
        (self.session + 1) % 4 == 0
    }

    /// The kind of the interval that runs at this position.
    pub open spec fn kind(self) -> DurationType {
        match self.phase {
            Phase::Focus => DurationType::Focus,
            Phase::Break => if self.long_break_due() {
                DurationType::LongBreak
            } else {
                DurationType::Break
            },
        }
    }

    /// The position once the interval at this one has completed. Focus hands
    /// over to the break of the same session; a break hands over to the next
    /// session, and the long break opens the next round as well.
    pub open spec fn next(self) -> Position {
        match self.phase {
            Phase::Focus => Position { phase: Phase::Break, ..self },
            Phase::Break => Position {
                round: if self.long_break_due() {
                    self.round + 1
                } else {
                    self.round
                },
                session: (self.session + 1) % 4,
                phase: Phase::Focus,
            },
        }
    }

    /// The position after `count` more intervals have completed.
    pub open spec fn after_intervals(self, count: nat) -> Position
        decreases count,
    {
        if count == 0 {
            self
        } else {
            self.after_intervals((count - 1) as nat).next()
        }
    }

    /// The position after `count` more whole sessions, each a focus interval
    /// and its break.
    pub open spec fn after_sessions(self, count: nat) -> Position {
        self.after_intervals(2 * count)
    }
}

/// What one frame of the countdown shows: the position and the minutes that
/// remain of its interval.
pub struct Reading {
    pub position: Position,
    pub remaining: int,
}

impl Reading {
    /// The first reading of the interval at `position`: one minute less than
    /// its configured length.
    pub open spec fn opening(config: SessionConfig, position: Position) -> Reading {
        Reading { position, remaining: config.minutes(position.kind()) - 1 }
    }

    /// The position is well formed and the minutes that remain are those of a
    /// countdown of its interval.
    pub open spec fn wf(self, config: SessionConfig) -> bool {
        &&& self.position.wf()
        &&& 0 <= self.remaining < config.minutes(self.position.kind())
    }

    /// Whether the tick taken at this reading completes the interval.
    pub open spec fn completes(self) -> bool {
        self.remaining <= 0
    }

    /// Whether the tick taken at this reading sounds the chime.
    pub open spec fn chimes(self, config: SessionConfig) -> bool {
        self.completes() && !config.muted()
    }

    /// The reading after one tick: a minute less, or the opening of the next
    /// interval where none was left.
    pub open spec fn tick(self, config: SessionConfig) -> Reading {
        if self.completes() {
            Reading::opening(config, self.position.next())
        } else {
            Reading { remaining: self.remaining - 1, ..self }
        }
    }

    /// The reading after `count` ticks.
    pub open spec fn after_ticks(self, config: SessionConfig, count: nat) -> Reading
        decreases count,
    {
        if count == 0 {
            self
        } else {
            self.after_ticks(config, (count - 1) as nat).tick(config)
        }
    }

    /// How many of the next `count` ticks complete an interval.
    pub open spec fn completions_within(self, config: SessionConfig, count: nat) -> nat
        decreases count,
    {
        if count == 0 {
            0
        } else {
            let before = (count - 1) as nat;
            self.completions_within(config, before) + if self.after_ticks(
                config,
                before,
            ).completes() {
                1nat
            } else {
                0nat
            }
        }
    }

    /// How many of the next `count` ticks sound the chime.
    pub open spec fn chimes_within(self, config: SessionConfig, count: nat) -> nat
        decreases count,
    {
        if count == 0 {
            0
        } else {
            let before = (count - 1) as nat;
            self.chimes_within(config, before) + if self.after_ticks(config, before).chimes(
                config,
            ) {
                1nat
            } else {
                0nat
            }
        }
    }
}

impl Position {
    /// Completing an interval leads from one place of the schedule to
    /// another.
    pub proof fn lemma_next_wf(self)
        requires
            self.wf(),
        ensures
            self.next().wf(),
    {
    }

    /// Two more intervals are one more session.
    proof fn lemma_two_more_intervals(self, count: nat)
        ensures
            self.after_intervals(count + 2) == self.after_intervals(count).next().next(),
    {
        reveal_with_fuel(Position::after_intervals, 3);
    }

    /// The session index runs through 0, 1, 2, 3 and starts over, for ever,
    /// and the round counts one more each time the index wraps from 3 to 0:
    /// once in four sessions. After `count` sessions the phase is the one the
    /// run was in, the index has moved `count` steps round the cycle, and the
    /// round has grown by the number of wraps.
    pub proof fn lemma_sessions_cycle(self, count: nat)
        requires
            self.wf(),
        ensures
            self.after_sessions(count).wf(),
            self.after_sessions(count).phase == self.phase,
            self.after_sessions(count).session == (self.session + count) % 4,
            self.after_sessions(count).round == self.round + (self.session + count) / 4,
        decreases count,
    {
        if count > 0 {
            let before = (count - 1) as nat;
            self.lemma_sessions_cycle(before);
            self.lemma_two_more_intervals(2 * before);
            assert(2 * before + 2 == 2 * count);
        }
    }

    /// One session on, the index is the next in the cycle, and the round is
    /// one more exactly where the session just completed was the fourth.
    pub proof fn lemma_one_session(self)
        requires
            self.wf(),
        ensures
            self.after_sessions(1) == (Position {
                round: if self.session == 3 {
                    self.round + 1
                } else {
                    self.round
                },
                session: if self.session == 3 {
                    0
                } else {
                    self.session + 1
                },
                phase: self.phase,
            }),
    {
        self.lemma_sessions_cycle(1);
    }

    /// Four sessions on, the run stands at the same session and phase of the
    /// next round.
    pub proof fn lemma_four_sessions_make_a_round(self)
        requires
            self.wf(),
        ensures
            self.after_sessions(4) == (Position { round: self.round + 1, ..self }),
    {
        self.lemma_sessions_cycle(4);
    }

    /// A break is the long one exactly in the fourth session of a round
    /// (index 3); in the first three it is the short one. The choice looks at
    /// the index of the session that the break belongs to, before it moves
    /// on.
    pub proof fn lemma_long_break_selection(self, config: SessionConfig)
        requires
            self.wf(),
            self.phase == Phase::Break,
        ensures
            self.session == 3 ==> self.kind() == DurationType::LongBreak,
            self.session != 3 ==> self.kind() == DurationType::Break,
            Reading::opening(config, self).remaining + 1 == if self.session == 3 {
                config.minutes(DurationType::LongBreak)
            } else {
                config.minutes(DurationType::Break)
            },
    {
    }
}

impl Reading {
    /// A tick leads from one reading of a countdown to another.
    pub proof fn lemma_tick_wf(self, config: SessionConfig)
        requires
            config.wf(),
            self.wf(config),
        ensures
            self.tick(config).wf(config),
    {
        self.position.lemma_next_wf();
    }

    /// `count` ticks into an interval of more than `count` minutes, the
    /// position is unchanged and `count` minutes have gone.
    pub proof fn lemma_countdown_reading(config: SessionConfig, position: Position, count: nat)
        requires
            config.wf(),
            position.wf(),
            count < config.minutes(position.kind()),
        ensures
            Reading::opening(config, position).after_ticks(config, count) == (Reading {
                position,
                remaining: config.minutes(position.kind()) - 1 - count,
            }),
        decreases count,
    {
        if count > 0 {
            Reading::lemma_countdown_reading(config, position, (count - 1) as nat);
        }
    }

    /// Until an interval completes, no tick before its last completes it.
    proof fn lemma_no_early_completion(config: SessionConfig, position: Position, count: nat)
        requires
            config.wf(),
            position.wf(),
            count < config.minutes(position.kind()),
        ensures
            Reading::opening(config, position).completions_within(config, count) == 0,
        decreases count,
    {
        if count > 0 {
            let before = (count - 1) as nat;
            Reading::lemma_no_early_completion(config, position, before);
            Reading::lemma_countdown_reading(config, position, before);
        }
    }

    /// The countdown of an interval of `d` minutes shows `d` readings, one
    /// per tick: `d - 1` first, then one minute less each time, `0` last, so
    /// every number from `d - 1` down to `0` once. The tick taken at `0`, the
    /// `d`-th, is the only one that completes the interval, and it opens the
    /// next.
    pub proof fn lemma_countdown_is_exact(config: SessionConfig, position: Position)
        requires
            config.wf(),
            position.wf(),
        ensures
            ({
                let d = config.minutes(position.kind());
                let start = Reading::opening(config, position);
                &&& 1 <= d <= 100
                &&& forall|k: nat|
                    k < d ==> #[trigger] start.after_ticks(config, k) == (Reading {
                        position,
                        remaining: d - 1 - k,
                    })
                &&& forall|j: nat, k: nat|
                    j < k < d ==> #[trigger] start.after_ticks(config, j).remaining
                        > #[trigger] start.after_ticks(config, k).remaining
                &&& forall|v: int|
                    0 <= v < d ==> (#[trigger] start.after_ticks(
                        config,
                        (d - 1 - v) as nat,
                    )).remaining == v
                &&& forall|k: nat|
                    k < d ==> (#[trigger] start.after_ticks(config, k).completes() <==> k == d - 1)
                &&& start.after_ticks(config, d as nat) == Reading::opening(
                    config,
                    position.next(),
                )
                &&& start.completions_within(config, d as nat) == 1
            }),
    {
        let d = config.minutes(position.kind());
        let start = Reading::opening(config, position);
        assert forall|k: nat| k < d implies #[trigger] start.after_ticks(config, k) == (Reading {
            position,
            remaining: d - 1 - k,
        }) by {
            Reading::lemma_countdown_reading(config, position, k);
        }
        assert forall|v: int| 0 <= v < d implies (#[trigger] start.after_ticks(
            config,
            (d - 1 - v) as nat,
        )).remaining == v by {
            Reading::lemma_countdown_reading(config, position, (d - 1 - v) as nat);
        }
        let last = (d - 1) as nat;
        Reading::lemma_countdown_reading(config, position, last);
        Reading::lemma_no_early_completion(config, position, last);
        assert(start.after_ticks(config, d as nat) == start.after_ticks(config, last).tick(
            config,
        ));
    }

    /// With the chime switched off, no tick sounds it, however many
    /// intervals complete.
    pub proof fn lemma_muted_never_chimes(self, config: SessionConfig, count: nat)
        requires
            config.muted(),
        ensures
            self.chimes_within(config, count) == 0,
        decreases count,
    {
        if count > 0 {
            self.lemma_muted_never_chimes(config, (count - 1) as nat);
        }
    }

    /// With the chime switched on, it sounds once for each interval that
    /// completes, and at no other tick.
    pub proof fn lemma_unmuted_chimes_once_per_completion(self, config: SessionConfig, count: nat)
        requires
            !config.muted(),
        ensures
            self.chimes_within(config, count) == self.completions_within(config, count),
        decreases count,
    {
        if count > 0 {
            self.lemma_unmuted_chimes_once_per_completion(config, (count - 1) as nat);
        }
    }
}

} // verus!
