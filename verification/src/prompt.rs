//! The setup dialogue: what is asked before a run starts, and how the
//! answers are read.

use vstd::prelude::*;
use vstd::string::*;
use crate::config::minutes_in_bounds;
use crate::config::DurationType;
use crate::config::SessionConfig;
use crate::config::MAX_MINUTES;
use crate::config::MIN_MINUTES;
use crate::glyph::line_texts;
use crate::text::decimal_string;
use crate::text::decimal_text;
use crate::text::parse_integer;
use crate::text::parsed_integer;
use crate::text::trim;
use crate::text::trimmed;
use crate::text::IntegerError;

verus! {

/// Why an answer was not taken as a duration.
#[derive(Clone, Copy, Debug, PartialEq, Eq, Structural)]
pub enum InputError {
    /// The answer, without the white space around it, is no whole number.
    NotANumber { reason: IntegerError },
    /// The answer is a number outside the bounds of a duration.
    OutOfRange { minutes: i64 },
}

/// What an answer to the question for a duration comes to: the number that
/// it writes, white space around it set aside, where that is a duration
/// within bounds.
pub open spec fn duration_of_input(input: Seq<char>) -> Result<i64, InputError> {
    match parsed_integer(trimmed(input)) {
        Ok(minutes) => if minutes_in_bounds(minutes as int) {
            Ok(minutes)
        } else {
            Err(InputError::OutOfRange { minutes })
        },
        Err(reason) => Err(InputError::NotANumber { reason }),
    }
}

/// What is said of an answer that was not taken.
pub open spec fn message_text(error: InputError) -> Seq<char> {
    match error {
        InputError::NotANumber { reason: IntegerError::Empty } =>
            "cannot parse integer from empty string"@,
        InputError::NotANumber { reason: IntegerError::InvalidDigit } =>
            "invalid digit found in string"@,
        InputError::NotANumber { reason: IntegerError::PosOverflow } =>
            "number too large to fit in target type"@,
        InputError::NotANumber { reason: IntegerError::NegOverflow } =>
            "number too small to fit in target type"@,
        InputError::OutOfRange { .. } => "invalid range was found"@,
    }
}

/// The question for a duration: its name, then the bounds.
pub open spec fn duration_question(name: Seq<char>) -> Seq<char> {
    name + " ("@ + decimal_text(MIN_MINUTES as nat) + "-"@ + decimal_text(MAX_MINUTES as nat)
        + " minutes): "@
}

/// Whether an answer says yes to starting: `y` or `Y`, white space around
/// it set aside.
pub open spec fn is_confirmation(input: Seq<char>) -> bool {
    trimmed(input) == seq!['y'] || trimmed(input) == seq!['Y']
}

/// The name under which a duration is asked for.
pub open spec fn duration_name(kind: DurationType) -> Seq<char> {
    match kind {
        DurationType::Focus => "Focus duration"@,
        DurationType::Break => "Short break duration"@,
        DurationType::LongBreak => "Long break duration"@,
    }
}

/// One line of the summary: a name, the minutes, the unit.
pub open spec fn summary_line(name: Seq<char>, minutes: nat) -> Seq<char> {
    name + decimal_text(minutes) + " mins"@
}

/// The summary of the settings that is shown before a run starts.
pub open spec fn summary(config: SessionConfig) -> Seq<Seq<char>> {
    seq![
        summary_line("Focus duration: "@, config.minutes(DurationType::Focus) as nat),
        summary_line("Break duration: "@, config.minutes(DurationType::Break) as nat),
        summary_line("Long Break duration: "@, config.minutes(DurationType::LongBreak) as nat),
        if config.muted() {
            "Chime: disabled"@
        } else {
            "Chime: enabled"@
        },
    ]
}

impl InputError {
    /// What to say of the answer that was not taken.
    pub fn message(&self) -> (text: &'static str)
        ensures
            text@ == message_text(*self),
    {
        match self {
            InputError::NotANumber { reason } => match reason {
                IntegerError::Empty => "cannot parse integer from empty string",
                IntegerError::InvalidDigit => "invalid digit found in string",
                IntegerError::PosOverflow => "number too large to fit in target type",
                IntegerError::NegOverflow => "number too small to fit in target type",
            },
            InputError::OutOfRange { .. } => "invalid range was found",
        }
    }
}

/// Reads an answer to the question for a duration.
pub fn parse_duration(input: &str) -> (minutes: Result<i64, InputError>)
    ensures
        minutes == duration_of_input(input@),
{
    match parse_integer(trim(input)) {
        Ok(minutes) => if MIN_MINUTES <= minutes && minutes <= MAX_MINUTES {
            Ok(minutes)
        } else {
            Err(InputError::OutOfRange { minutes })
        },
        Err(reason) => Err(InputError::NotANumber { reason }),
    }
}

/// The name under which a duration is asked for.
pub fn duration_label(kind: DurationType) -> (name: &'static str)
    ensures
        name@ == duration_name(kind),
{
    match kind {
        DurationType::Focus => "Focus duration",
        DurationType::Break => "Short break duration",
        DurationType::LongBreak => "Long break duration",
    }
}

/// The question for a duration of the given name.
pub fn duration_prompt(name: &str) -> (question: String)
    ensures
        question@ == duration_question(name@),
{
    let mut question = String::from_str(name);
    question.append(" (");
    question.append(decimal_string(MIN_MINUTES as u64).as_str());
    question.append("-");
    question.append(decimal_string(MAX_MINUTES as u64).as_str());
    question.append(" minutes): ");
    question
}

/// The question that is asked after the summary.
pub fn start_question() -> (question: &'static str)
    ensures
        question@ == "Start the session? (y/N): "@,
{
    "Start the session? (y/N): "
}

/// Whether an answer to the question after the summary says yes.
pub fn is_start_confirmation(input: &str) -> (yes: bool)
    ensures
        yes == is_confirmation(input@),
{
    let answer = trim(input);
    if answer.unicode_len() != 1 {
        return false;
    }
    let c = answer.get_char(0);
    assert(answer@ =~= seq![c]);
    c == 'y' || c == 'Y'
}

/// One line of the summary.
fn summary_entry(name: &str, minutes: i64) -> (line: String)
    requires
        minutes >= 0,
    ensures
        line@ == summary_line(name@, minutes as nat),
{
    let mut line = String::from_str(name);
    line.append(decimal_string(minutes as u64).as_str());
    line.append(" mins");
    line
}

/// The summary of the settings, line by line.
pub fn summary_lines(config: &SessionConfig) -> (lines: Vec<String>)
    ensures
        line_texts(lines@) == summary(*config),
{
    let mut lines: Vec<String> = Vec::new();
    lines.push(summary_entry("Focus duration: ", config.duration(DurationType::Focus)));
    lines.push(summary_entry("Break duration: ", config.duration(DurationType::Break)));
    lines.push(summary_entry("Long Break duration: ", config.duration(DurationType::LongBreak)));
    lines.push(
        String::from_str(
            if config.mute() {
                "Chime: disabled"
            } else {
                "Chime: enabled"
            },
        ),
    );
    assert(line_texts(lines@) =~= summary(*config));
    lines
}

} // verus!
