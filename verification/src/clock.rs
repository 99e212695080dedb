//! The interval clock: the wall-clock window of an interval, as the two
//! labels that a frame shows, read from the local clock when the interval
//! opens.

use vstd::prelude::*;
use vstd::string::*;
use chrono::TimeZone;
use crate::config::DurationType;
use crate::config::SessionConfig;
use crate::text::digit_value;
use crate::text::is_digit_char;

verus! {

/// chrono's date and time without a zone. The library holds instants in it,
/// in UTC, and never looks inside.
#[verifier::external_type_specification]
#[verifier::external_body]
pub struct ExNaiveDateTime(chrono::NaiveDateTime);

/// chrono's span of time.
#[verifier::external_type_specification]
#[verifier::external_body]
pub struct ExTimeDelta(chrono::TimeDelta);

/// Largest number of seconds, either way, that a span of whole seconds can
/// hold.
pub const MAX_SPAN_SECONDS: i64 = 9_223_372_036_854_775;

/// Whether a span of `minutes` minutes can be held.
pub open spec fn span_fits(minutes: int) -> bool {
    -MAX_SPAN_SECONDS <= minutes * 60 <= MAX_SPAN_SECONDS
}

/// The span that chrono makes of a number of minutes: what
/// `TimeDelta::try_minutes` gives where it gives one.
pub uninterp spec fn span_of(minutes: int) -> chrono::TimeDelta;

/// The instant that chrono finds a span after another, or nothing where the
/// calendar ends before it: what `NaiveDateTime::checked_add_signed` gives.
pub uninterp spec fn end_of(start: chrono::NaiveDateTime, span: chrono::TimeDelta) -> Option<
    chrono::NaiveDateTime,
>;

/// Whether an interval of `minutes` minutes that opens at `start` ends
/// within the calendar.
pub open spec fn ends_in_calendar(start: chrono::NaiveDateTime, minutes: int) -> bool {
    end_of(start, span_of(minutes)) is Some
}

/// Whether `opened` is how opening a window of `minutes` minutes turns out
/// at some instant: there is a window exactly where the interval, opened
/// then, ends within the calendar.
pub open spec fn opened_at_some_instant(minutes: int, opened: bool) -> bool {
    exists|now: chrono::NaiveDateTime| opened == #[trigger] ends_in_calendar(now, minutes)
}

/// Whether `label` is a time of day on the 24-hour clock, written `HH:MM`:
/// two digits of an hour from 00 to 23, a colon and two digits of a minute
/// from 00 to 59.
pub open spec fn is_clock_label(label: Seq<char>) -> bool {
    &&& label.len() == 5
    &&& is_digit_char(label[0])
    &&& is_digit_char(label[1])
    &&& label[2] == ':'
    &&& is_digit_char(label[3])
    &&& is_digit_char(label[4])
    &&& 10 * digit_value(label[0]) + digit_value(label[1]) <= 23
    &&& 10 * digit_value(label[3]) + digit_value(label[4]) <= 59
}

/// Why no window could be opened.
#[derive(Clone, Copy, Debug, PartialEq, Eq, Structural)]
pub enum ClockError {
    /// The interval is longer than any span of time that can be held.
    SpanOutOfRange { minutes: i64 },
    /// The interval ends after the last instant that the calendar can hold.
    EndOutOfRange,
}

/// `Local::now()` of chrono: the present instant, handed over as its date
/// and time in UTC. Nothing is claimed of it. It fails only on a state of
/// the machine: a system clock that stands before 1970 or beyond the
/// calendar, or zone data with an offset of a day or more.
#[verifier::external_body]
fn time_now() -> chrono::NaiveDateTime {
    chrono::Local::now().naive_utc()
}

/// `TimeDelta::try_minutes` of chrono: a span of that many minutes. It
/// refuses a number whose seconds (sixty times as many) lie beyond
/// `MAX_SPAN_SECONDS` either way, and nothing else. The span it gives
/// depends on the number alone.
#[verifier::external_body]
fn minutes_span(minutes: i64) -> (span: Option<chrono::TimeDelta>)
    ensures
        span is Some <==> span_fits(minutes as int),
        span matches Some(s) ==> s == span_of(minutes as int),
{
    chrono::TimeDelta::try_minutes(minutes)
}

/// `NaiveDateTime::checked_add_signed` of chrono: the instant that lies
/// `span` after `start`, or nothing where the calendar ends before it. The
/// answer depends on the two alone.
#[verifier::external_body]
fn instant_after(start: &chrono::NaiveDateTime, span: chrono::TimeDelta) -> (end: Option<
    chrono::NaiveDateTime,
>)
    ensures
        end == end_of(*start, span),
{
    start.checked_add_signed(span)
}

/// `DateTime::format` of chrono with the pattern `%H:%M`, on the instant
/// taken in the local time zone: the hour of the day in two digits, a colon,
/// the minute in two digits. Which hour and minute depends on the zone of
/// the machine, so only the shape is claimed. Every instant has a place in
/// the local zone; the call fails only where the zone data of the machine
/// is broken.
#[verifier::external_body]
fn clock_label(instant: &chrono::NaiveDateTime) -> (label: String)
    ensures
        is_clock_label(label@),
{
    chrono::Local.from_utc_datetime(instant).format("%H:%M").to_string()
}

/// Whether a text is a time of day written `HH:MM`.
pub fn is_label(text: &str) -> (valid: bool)
    ensures
        valid == is_clock_label(text@),
{
    if text.unicode_len() != 5 {
        return false;
    }
    let h1 = text.get_char(0) as u32;
    let h0 = text.get_char(1) as u32;
    let colon = text.get_char(2);
    let m1 = text.get_char(3) as u32;
    let m0 = text.get_char(4) as u32;
    if h1 < 48 || h1 > 57 || h0 < 48 || h0 > 57 || m1 < 48 || m1 > 57 || m0 < 48 || m0 > 57 {
        return false;
    }
    colon == ':' && 10 * (h1 - 48) + (h0 - 48) <= 23 && 10 * (m1 - 48) + (m0 - 48) <= 59
}

/// The wall-clock window of an interval: when it opened and when it will
/// end, each as a time of day written `HH:MM`, with the minutes that the
/// interval was opened for. Taken once, when the interval opens, and shown
/// unchanged in every frame of its countdown.
#[derive(Debug)]
pub struct IntervalWindow {
    start_label: String,
    end_label: String,
    minutes: i64,
}

impl IntervalWindow {
    /// The label of the instant at which the interval opened.
    pub closed spec fn start(&self) -> Seq<char> {
        self.start_label@
    }

    /// The label of the instant at which the interval ends.
    pub closed spec fn end(&self) -> Seq<char> {
        self.end_label@
    }

    /// The minutes of the interval that the window was opened for.
    pub closed spec fn span(&self) -> int {
        self.minutes as int
    }

    #[verifier::type_invariant]
    pub open spec fn wf(&self) -> bool {
        is_clock_label(self.start()) && is_clock_label(self.end())
    }

    /// A window of `minutes` minutes with the given labels, if each is a
    /// time of day written `HH:MM`.
    pub fn new(start_label: String, end_label: String, minutes: i64) -> (window: Option<Self>)
        ensures
            window is Some <==> is_clock_label(start_label@) && is_clock_label(end_label@),
            window matches Some(w) ==> w.start() == start_label@ && w.end() == end_label@
                && w.span() == minutes,
    {
        if is_label(start_label.as_str()) && is_label(end_label.as_str()) {
            Some(Self { start_label, end_label, minutes })
        } else {
            None
        }
    }

    /// The minutes of the interval that the window was opened for.
    pub fn minutes(&self) -> (minutes: i64)
        ensures
            minutes == self.span(),
    {
        self.minutes
    }

    /// The label of the instant at which the interval opened.
    pub fn start_label(&self) -> (label: &str)
        ensures
            label@ == self.start(),
            is_clock_label(label@),
    {
        proof {
            use_type_invariant(self);
        }
        self.start_label.as_str()
    }

    /// The label of the instant at which the interval ends.
    pub fn end_label(&self) -> (label: &str)
        ensures
            label@ == self.end(),
            is_clock_label(label@),
    {
        proof {
            use_type_invariant(self);
        }
        self.end_label.as_str()
    }
}

/// What the clock's answers make of an interval of `minutes` minutes: the
/// window with the two labels where the end could be told, and no window
/// where the calendar ends before the interval does.
pub open spec fn window_of(
    start_label: Seq<char>,
    end_label: Option<Seq<char>>,
    minutes: int,
    outcome: Result<IntervalWindow, ClockError>,
) -> bool {
    match end_label {
        Some(end) => outcome matches Ok(w) && w.start() == start_label && w.end() == end
            && w.span() == minutes,
        None => outcome == Err::<IntervalWindow, ClockError>(ClockError::EndOutOfRange),
    }
}

/// Makes the window of an interval of `minutes` minutes from the labels that
/// the clock gave for its start and, where it has one, for its end.
pub fn window_between(start_label: String, end_label: Option<String>, minutes: i64) -> (window:
    Result<IntervalWindow, ClockError>)
    requires
        is_clock_label(start_label@),
        end_label matches Some(end) ==> is_clock_label(end@),
    ensures
        window_of(
            start_label@,
            match end_label {
                Some(end) => Some(end@),
                None => None,
            },
            minutes as int,
            window,
        ),
{
    match end_label {
        Some(end_label) => Ok(IntervalWindow { start_label, end_label, minutes }),
        None => Err(ClockError::EndOutOfRange),
    }
}

/// The window of an interval of `minutes` minutes that opens at the instant
/// `start`, given in UTC; the labels are in the local time of the machine.
/// There is a window exactly where the minutes are a span that can be held
/// (no more than `MAX_SPAN_SECONDS` seconds either way) and the interval
/// ends within the calendar; each of the two faults has its own error, the
/// span's before the calendar's.
pub fn window_from(start: &chrono::NaiveDateTime, minutes: i64) -> (window: Result<
    IntervalWindow,
    ClockError,
>)
    ensures
        window is Ok <==> span_fits(minutes as int) && ends_in_calendar(*start, minutes as int),
        !span_fits(minutes as int) ==> window == Err::<IntervalWindow, ClockError>(
            ClockError::SpanOutOfRange { minutes },
        ),
        span_fits(minutes as int) && !ends_in_calendar(*start, minutes as int) ==> window
            == Err::<IntervalWindow, ClockError>(ClockError::EndOutOfRange),
        window matches Ok(w) ==> w.span() == minutes && is_clock_label(w.start())
            && is_clock_label(w.end()),
{
    let span = match minutes_span(minutes) {
        Some(span) => span,
        None => {
            return Err(ClockError::SpanOutOfRange { minutes });
        },
    };
    let start_label = clock_label(start);
    let end_label = match instant_after(start, span) {
        Some(end) => Some(clock_label(&end)),
        None => None,
    };
    window_between(start_label, end_label, minutes)
}

impl SessionConfig {
    /// Opens the window of an interval of the given kind now: from the
    /// present instant to the one that lies the configured minutes later.
    /// Every configured duration is a span that can be held, so the window
    /// is there exactly where the interval, opened at the instant that the
    /// clock gave, ends within the calendar.
    pub fn get_session_duration(&self, duration_type: DurationType) -> (window: Result<
        IntervalWindow,
        ClockError,
    >)
        ensures
            opened_at_some_instant(self.minutes(duration_type), window is Ok),
            window matches Err(e) ==> e == ClockError::EndOutOfRange,
            window matches Ok(w) ==> w.span() == self.minutes(duration_type) && is_clock_label(
                w.start(),
            ) && is_clock_label(w.end()),
    {
        let minutes = self.duration(duration_type);
        let start = time_now();
        let window = window_from(&start, minutes);
        assert((window is Ok) == ends_in_calendar(start, minutes as int));
        window
    }
}

} // verus!
