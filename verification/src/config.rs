//! The settings of one run: three durations, the chime switch and the font.

use vstd::prelude::*;

verus! {

/// Shortest duration, in minutes, that can be configured.
pub const MIN_MINUTES: i64 = 1;

/// Longest duration, in minutes, that can be configured.
pub const MAX_MINUTES: i64 = 100;

/// Whether `minutes` is a duration that a session may be configured with.
pub open spec fn minutes_in_bounds(minutes: int) -> bool {
    MIN_MINUTES <= minutes <= MAX_MINUTES
}

/// Which of the three configured durations an interval runs for.
#[derive(Clone, Copy, Debug, PartialEq, Eq, Structural)]
pub enum DurationType {
    Focus,
    Break,
    LongBreak,
}

/// Font of the big countdown digits.
#[derive(Clone, Copy, Debug, PartialEq, Eq, Structural)]
pub enum TextStyle {
    Yuanqing,
    Univers,
}

impl TextStyle {
    /// The font that a style code names: 1 the tall one, 2 the compact one.
    pub open spec fn of_code(code: u32) -> Option<TextStyle> {
        if code == 1 {
            Some(TextStyle::Univers)
        } else if code == 2 {
            Some(TextStyle::Yuanqing)
        } else {
            None
        }
    }

    /// The font that a style code names, if it names one.
    pub fn from_code(code: u32) -> (style: Option<TextStyle>)
        ensures
            style == TextStyle::of_code(code),
    {
        match code {
            1 => Some(TextStyle::Univers),
            2 => Some(TextStyle::Yuanqing),
            _ => None,
        }
    }
}

/// Why a duration was not taken into a configuration.
#[derive(Clone, Copy, Debug, PartialEq, Eq, Structural)]
pub enum ConfigError {
    /// The duration lies outside `MIN_MINUTES..=MAX_MINUTES`.
    OutOfBounds { minutes: i64 },
}

/// The settings of one run. Every duration lies within
/// `MIN_MINUTES..=MAX_MINUTES`: the constructors and setters keep it so.
#[derive(Clone, Copy, Debug)]
pub struct SessionConfig {
    focus_duration: i64,
    break_duration: i64,
    long_break_duration: i64,
    mute: bool,
    style: TextStyle,
}

impl SessionConfig {
    /// The configured length, in minutes, of an interval of the given kind.
    pub closed spec fn minutes(&self, kind: DurationType) -> int {
        match kind {
            DurationType::Focus => self.focus_duration as int,
            DurationType::Break => self.break_duration as int,
            DurationType::LongBreak => self.long_break_duration as int,
        }
    }

    /// Whether the completion chime is switched off.
    pub closed spec fn muted(&self) -> bool {
        self.mute
    }

    /// The font of the countdown digits.
    pub closed spec fn font(&self) -> TextStyle {
        self.style
    }

    /// Every duration is within bounds.
    #[verifier::type_invariant]
    pub open spec fn wf(&self) -> bool {
        &&& minutes_in_bounds(self.minutes(DurationType::Focus))
        &&& minutes_in_bounds(self.minutes(DurationType::Break))
        &&& minutes_in_bounds(self.minutes(DurationType::LongBreak))
    }

    /// The default settings: 25 minutes of focus, 5 of break, 10 of long
    /// break, chime on, the tall font.
    pub fn new() -> (config: Self)
        ensures
            config.wf(),
            config.minutes(DurationType::Focus) == 25,
            config.minutes(DurationType::Break) == 5,
            config.minutes(DurationType::LongBreak) == 10,
            !config.muted(),
            config.font() == TextStyle::Univers,
    {
        Self {
            focus_duration: 25,
            break_duration: 5,
            long_break_duration: 10,
            mute: false,
            style: TextStyle::Univers,
        }
    }

    /// The length, in minutes, of an interval of the given kind.
    pub fn duration(&self, kind: DurationType) -> (minutes: i64)
        ensures
            minutes == self.minutes(kind),
            minutes_in_bounds(minutes as int),
    {
        proof {
            use_type_invariant(self);
        }
        match kind {
            DurationType::Focus => self.focus_duration,
            DurationType::Break => self.break_duration,
            DurationType::LongBreak => self.long_break_duration,
        }
    }

    /// Whether the completion chime is switched off.
    pub fn mute(&self) -> (mute: bool)
        ensures
            mute == self.muted(),
    {
        self.mute
    }

    /// The font of the countdown digits.
    pub fn style(&self) -> (style: TextStyle)
        ensures
            style == self.font(),
    {
        self.style
    }

    /// Sets one duration. A value out of bounds is refused and leaves the
    /// configuration as it was.
    pub fn set_duration(&mut self, kind: DurationType, minutes: i64) -> (outcome: Result<(), ConfigError>)
        ensures
            final(self).wf(),
            final(self).muted() == old(self).muted(),
            final(self).font() == old(self).font(),
            minutes_in_bounds(minutes as int) ==> outcome is Ok
                && final(self).minutes(kind) == minutes
                && forall|other: DurationType| other != kind ==>
                    final(self).minutes(other) == old(self).minutes(other),
            !minutes_in_bounds(minutes as int) ==> outcome == Err::<(), ConfigError>(
                ConfigError::OutOfBounds { minutes },
            ) && *final(self) == *old(self),
    {
        proof {
            use_type_invariant(&*self);
        }
        if minutes < MIN_MINUTES || minutes > MAX_MINUTES {
            return Err(ConfigError::OutOfBounds { minutes });
        }
        match kind {
            DurationType::Focus => {
                self.focus_duration = minutes;
            },
            DurationType::Break => {
                self.break_duration = minutes;
            },
            DurationType::LongBreak => {
                self.long_break_duration = minutes;
            },
        }
        Ok(())
    }

    /// Switches the completion chime off or on.
    pub fn set_mute(&mut self, mute: bool)
        ensures
            final(self).muted() == mute,
            final(self).font() == old(self).font(),
            forall|kind: DurationType| final(self).minutes(kind) == old(self).minutes(kind),
    {
        proof {
            use_type_invariant(&*self);
        }
        self.mute = mute;
    }

    /// Chooses the font of the countdown digits.
    pub fn set_style(&mut self, style: TextStyle)
        ensures
            final(self).font() == style,
            final(self).muted() == old(self).muted(),
            forall|kind: DurationType| final(self).minutes(kind) == old(self).minutes(kind),
    {
        proof {
            use_type_invariant(&*self);
        }
        self.style = style;
    }

    /// The three durations of a preset, focus, break and long break: 25, 5
    /// and 10 minutes for preset 1, 50, 10 and 20 for preset 2.
    pub open spec fn preset_minutes(code: u32) -> Option<(int, int, int)> {
        if code == 1 {
            Some((25, 5, 10))
        } else if code == 2 {
            Some((50, 10, 20))
        } else {
            None
        }
    }

    /// Takes the durations of a preset. A code that names no preset is
    /// refused and leaves the configuration as it was.
    pub fn apply_preset(&mut self, code: u32) -> (known: bool)
        ensures
            known == SessionConfig::preset_minutes(code) is Some,
            final(self).muted() == old(self).muted(),
            final(self).font() == old(self).font(),
            SessionConfig::preset_minutes(code) matches Some(preset) ==> {
                &&& final(self).minutes(DurationType::Focus) == preset.0
                &&& final(self).minutes(DurationType::Break) == preset.1
                &&& final(self).minutes(DurationType::LongBreak) == preset.2
            },
            !known ==> *final(self) == *old(self),
    {
        proof {
            use_type_invariant(&*self);
        }
        match code {
            1 => {
                *self = Self {
                    focus_duration: 25,
                    break_duration: 5,
                    long_break_duration: 10,
                    mute: self.mute,
                    style: self.style,
                };
                true
            },
            2 => {
                *self = Self {
                    focus_duration: 50,
                    break_duration: 10,
                    long_break_duration: 20,
                    mute: self.mute,
                    style: self.style,
                };
                true
            },
            _ => false,
        }
    }
}

} // verus!
