//! A run as the terminal sees it: the countdown together with the window of
//! the interval under way.

use vstd::prelude::*;
use crate::clock::ClockError;
use crate::clock::opened_at_some_instant;
use crate::clock::IntervalWindow;
use crate::config::DurationType;
use crate::config::SessionConfig;
use crate::engine::TickOutcome;
use crate::engine::Timer;
use crate::frame::is_frame;
use crate::glyph::line_texts;
use crate::schedule::Position;
use crate::schedule::Reading;

verus! {

/// A run: its countdown, and the window that was taken from the wall clock
/// when the interval under way opened.
#[derive(Debug)]
pub struct Run {
    timer: Timer,
    window: IntervalWindow,
}

impl Run {
    /// The countdown of the run.
    pub closed spec fn countdown(&self) -> Timer {
        self.timer
    }

    /// The window of the interval under way.
    pub closed spec fn interval_window(&self) -> IntervalWindow {
        self.window
    }

    /// What the run shows now.
    pub open spec fn reading(&self) -> Reading {
        self.countdown().reading()
    }

    /// The settings of the run.
    pub open spec fn settings(&self) -> SessionConfig {
        self.countdown().settings()
    }

    /// Whether the round counter can hold the round that the next tick
    /// leads to.
    pub open spec fn can_tick(&self) -> bool {
        self.countdown().can_tick()
    }

    /// Whether `opened` is how opening the window of the interval at
    /// `position` turns out at some instant.
    pub open spec fn opens(config: SessionConfig, position: Position, opened: bool) -> bool {
        opened_at_some_instant(config.minutes(position.kind()), opened)
    }

    /// A run that stands where `timer` stands and holds `window`.
    pub fn with_window(timer: Timer, window: IntervalWindow) -> (run: Self)
        ensures
            run.countdown() == timer,
            run.interval_window() == window,
    {
        Self { timer, window }
    }

    /// Starts a run: round 1, first session, in focus, with the window of
    /// that first interval opened now. There is a run exactly where that
    /// interval, opened at the instant that the clock gave, ends within the
    /// calendar.
    pub fn start(config: SessionConfig) -> (run: Result<Self, ClockError>)
        ensures
            Run::opens(config, Position::initial(), run is Ok),
            run matches Ok(r) ==> r.settings() == config && r.reading() == Reading::opening(
                config,
                Position::initial(),
            ) && r.interval_window().span() == config.minutes(DurationType::Focus),
            run matches Err(e) ==> e == ClockError::EndOutOfRange,
    {
        let timer = Timer::new(config);
        Self::resume(timer)
    }

    /// Takes up a run where `timer` stands, with the window of its interval
    /// opened now. There is a run exactly where that interval, opened at
    /// the instant that the clock gave, ends within the calendar.
    pub fn resume(timer: Timer) -> (run: Result<Self, ClockError>)
        ensures
            Run::opens(timer.settings(), timer.reading().position, run is Ok),
            run matches Ok(r) ==> r.countdown() == timer && r.interval_window().span()
                == timer.settings().minutes(timer.reading().position.kind()),
            run matches Err(e) ==> e == ClockError::EndOutOfRange,
    {
        match timer.config().get_session_duration(timer.state().interval_kind()) {
            Ok(window) => Ok(Self::with_window(timer, window)),
            Err(e) => Err(e),
        }
    }

    /// The countdown of the run.
    pub fn timer(&self) -> (timer: Timer)
        ensures
            timer == self.countdown(),
    {
        self.timer
    }

    /// The window of the interval under way.
    pub fn window(&self) -> (window: &IntervalWindow)
        ensures
            *window == self.interval_window(),
    {
        &self.window
    }

    /// The frame to draw now.
    pub fn frame(&self) -> (lines: Vec<String>)
        ensures
            is_frame(
                line_texts(lines@),
                self.settings(),
                self.reading(),
                self.interval_window().start(),
                self.interval_window().end(),
            ),
    {
        self.timer.frame(&self.window)
    }

    /// Whether `tick` may be called: false only where the tick would open a
    /// round beyond the largest number that the round counter can hold.
    pub fn has_room(&self) -> (room: bool)
        ensures
            room == self.can_tick(),
    {
        self.timer.has_room()
    }

    /// What the next tick will do, if it succeeds: take a minute off, or
    /// complete the interval and, unless the run is muted, call for the
    /// chime. The chime is due before the window of the next interval is
    /// opened.
    pub fn next_outcome(&self) -> (outcome: TickOutcome)
        ensures
            outcome == TickOutcome::of(self.settings(), self.reading()),
    {
        self.timer.next_outcome()
    }

    /// Opens now the window of the interval that follows the one under
    /// way.
    pub fn open_next(&self) -> (opened: Result<IntervalWindow, ClockError>)
        requires
            self.can_tick(),
            self.reading().completes(),
        ensures
            Run::opens(self.settings(), self.reading().position.next(), opened is Ok),
            opened matches Ok(w) ==> w.span() == self.settings().minutes(
                self.reading().position.next().kind(),
            ),
            opened matches Err(e) ==> e == ClockError::EndOutOfRange,
    {
        let mut timer = self.timer;
        timer.tick();
        timer.config().get_session_duration(timer.state().interval_kind())
    }

    /// The tick that completes an interval, given how opening the window of
    /// the next one turned out. With a window the countdown moves on as
    /// `Timer::tick` says and the run holds that window; without one the run
    /// is left as it was and the fault is handed on.
    pub fn complete_with(&mut self, opened: Result<IntervalWindow, ClockError>) -> (outcome: Result<
        TickOutcome,
        ClockError,
    >)
        requires
            old(self).can_tick(),
            old(self).reading().completes(),
        ensures
            (match opened {
                Ok(window) => outcome == Ok::<TickOutcome, ClockError>(
                    TickOutcome::of(old(self).settings(), old(self).reading()),
                ) && final(self).settings() == old(self).settings() && final(self).reading() == old(
                    self,
                ).reading().tick(old(self).settings()) && final(self).interval_window() == window,
                Err(e) => outcome == Err::<TickOutcome, ClockError>(e) && *final(self) == *old(
                    self,
                ),
            }),
    {
        match opened {
            Ok(window) => {
                let mut timer = self.timer;
                let outcome = timer.tick();
                self.timer = timer;
                self.window = window;
                Ok(outcome)
            },
            Err(e) => Err(e),
        }
    }

    /// One tick of the run, to be taken after each frame has been shown for
    /// the length of a tick. A tick within an interval always succeeds: the
    /// countdown moves as `Timer::tick` says and the window stays. A tick
    /// that completes an interval opens the window of the next one now, and
    /// succeeds exactly where that interval, opened at the instant that the
    /// clock gave, ends within the calendar: the run then holds the new
    /// window. Where it does not succeed the run is left as it was.
    pub fn tick(&mut self) -> (outcome: Result<TickOutcome, ClockError>)
        requires
            old(self).can_tick(),
        ensures
            !old(self).reading().completes() ==> outcome is Ok && final(self).interval_window()
                == old(self).interval_window(),
            old(self).reading().completes() ==> Run::opens(
                old(self).settings(),
                old(self).reading().position.next(),
                outcome is Ok,
            ) && (outcome is Ok ==> final(self).interval_window().span() == old(
                self,
            ).settings().minutes(old(self).reading().position.next().kind())),
            outcome matches Ok(o) ==> {
                &&& o == TickOutcome::of(old(self).settings(), old(self).reading())
                &&& final(self).settings() == old(self).settings()
                &&& final(self).reading() == old(self).reading().tick(old(self).settings())
            },
            outcome matches Err(e) ==> e == ClockError::EndOutOfRange && *final(self) == *old(self),
    {
        match self.timer.next_outcome() {
            TickOutcome::Running => {
                let mut timer = self.timer;
                let outcome = timer.tick();
                self.timer = timer;
                Ok(outcome)
            },
            TickOutcome::Completed { .. } => {
                let opened = self.open_next();
                self.complete_with(opened)
            },
        }
    }
}

} // verus!
