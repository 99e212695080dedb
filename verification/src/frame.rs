//! The frames of the countdown: what is drawn at every tick, line by line.
//!
//! A frame opens with the sequence that clears the screen. Then come the row
//! of progress through the round, the interval with its length, its window
//! on the wall clock, and the minutes that remain in big digits. A consumer
//! prints the lines in order, each followed by a line break.

use vstd::prelude::*;
use vstd::string::*;
use colored::Colorize;
use crate::clock::IntervalWindow;
use crate::config::DurationType;
use crate::config::SessionConfig;
use crate::config::TextStyle;
use crate::engine::EngineState;
use crate::engine::Timer;
use crate::glyph::glyph;
use crate::glyph::glyph_height;
use crate::glyph::glyph_rows;
use crate::glyph::is_digit;
use crate::glyph::line_height;
use crate::glyph::line_texts;
use crate::glyph::merge_row;
use crate::glyph::merged_row;
use crate::glyph::row_texts;
use crate::glyph::univers_rows;
use crate::glyph::yuanqing_rows;
use crate::glyph::RenderError;
use crate::schedule::Phase;
use crate::schedule::Position;
use crate::schedule::Reading;
use crate::text::decimal_string;
use crate::text::decimal_text;

verus! {

/// The mark of a session that is yet to come.
pub const OPEN_SQUARE: char = '\u{25fb}';

/// The mark of the session that comes next, shown while the break before it
/// is under way.
pub const CLOSED_SQUARE: char = '\u{25fc}';

/// The mark of the first session of a round.
pub const RED_BOOK: char = '\u{1f4d5}';

/// The mark of the second session of a round.
pub const GREEN_BOOK: char = '\u{1f4d7}';

/// The mark of the third session of a round.
pub const BLUE_BOOK: char = '\u{1f4d8}';

/// The mark of the fourth session of a round.
pub const ORANGE_BOOK: char = '\u{1f4d9}';

/// What a frame begins with: clear the screen, then move to its top left
/// corner.
pub open spec fn clear_screen() -> Seq<char> {
    "\x1B[2J\x1B[1;1H"@
}

/// The book that marks the session in the given slot of a round.
pub open spec fn book_icon(slot: int) -> char {
    if slot % 4 == 0 {
        RED_BOOK
    } else if slot % 4 == 1 {
        GREEN_BOOK
    } else if slot % 4 == 2 {
        BLUE_BOOK
    } else {
        ORANGE_BOOK
    }
}

/// The mark in one of the four slots of the progress row. The sessions of
/// the round up to the current one show their book; the others an open
/// square, but for the first of them during a break, which shows the closed
/// square.
pub open spec fn slot_icon(position: Position, slot: int) -> char {
    if slot <= position.session {
        book_icon(slot)
    } else if position.phase == Phase::Break && slot == position.session + 1 {
        CLOSED_SQUARE
    } else {
        OPEN_SQUARE
    }
}

/// The marks of the first `slots` slots, each followed by a space.
pub open spec fn progress_icons(position: Position, slots: nat) -> Seq<char>
    decreases slots,
{
    if slots == 0 {
        Seq::empty()
    } else {
        progress_icons(position, (slots - 1) as nat) + seq![
            slot_icon(position, slots - 1),
            ' ',
        ]
    }
}

/// The progress row: the four marks, then the round and the session, the
/// session counted from 1, as in `(r2.3)`.
pub open spec fn progress_row(position: Position) -> Seq<char> {
    progress_icons(position, 4) + " (r"@ + decimal_text(position.round) + "."@ + decimal_text(
        position.session + 1,
    ) + ")"@
}

/// How an interval of the given kind is called on the screen.
pub open spec fn title(kind: DurationType) -> Seq<char> {
    match kind {
        DurationType::Focus => "focus"@,
        DurationType::Break => "short break"@,
        DurationType::LongBreak => "long break"@,
    }
}

/// The line that names the interval and its configured length.
pub open spec fn interval_line(kind: DurationType, minutes: nat) -> Seq<char> {
    title(kind) + ": "@ + decimal_text(minutes) + " mins"@
}

/// The line that shows the window of the interval on the wall clock.
pub open spec fn window_line(start: Seq<char>, end: Seq<char>) -> Seq<char> {
    "("@ + start + " - "@ + end + ")"@
}

/// A text between the sequence that switches the foreground to bright blue
/// and the one that resets it.
pub open spec fn bright_blue(text: Seq<char>) -> Seq<char> {
    "\x1B[94m"@ + text + "\x1B[0m"@
}

/// Whether a text holds the escape character.
pub open spec fn has_escape(text: Seq<char>) -> bool {
    text.contains('\x1B')
}

/// Whether `tinted` is what the terminal colours make of `plain`: the text
/// itself where colours are off, the text in bright blue where they are on.
pub open spec fn is_tint_of(tinted: Seq<char>, plain: Seq<char>) -> bool {
    tinted == plain || tinted == bright_blue(plain)
}

/// Whether `line` sets the rows `left` and `right` side by side, each
/// tinted.
pub open spec fn is_tinted_line(line: Seq<char>, left: Seq<char>, right: Seq<char>) -> bool {
    exists|l: Seq<char>, r: Seq<char>|
        is_tint_of(l, left) && is_tint_of(r, right) && line == #[trigger] merged_row(l, r)
}

/// Whether `lines` are the frame of the given reading: the order and the
/// content of every line.
pub open spec fn is_frame(
    lines: Seq<Seq<char>>,
    config: SessionConfig,
    reading: Reading,
    start: Seq<char>,
    end: Seq<char>,
) -> bool {
    let kind = reading.position.kind();
    let font = config.font();
    let height = line_height(font) as int;
    &&& lines.len() == height + 7
    &&& lines[0] == clear_screen()
    &&& lines[1] == progress_row(reading.position)
    &&& lines[2] == Seq::<char>::empty()
    &&& lines[3] == interval_line(kind, config.minutes(kind) as nat)
    &&& lines[4] == window_line(start, end)
    &&& lines[5] == Seq::<char>::empty()
    &&& forall|i: int|
        0 <= i < height ==> is_tinted_line(
            #[trigger] lines[6 + i],
            glyph_rows(font, reading.remaining / 10)[i],
            glyph_rows(font, reading.remaining % 10)[i],
        )
    &&& lines[6 + height] == Seq::<char>::empty()
}

/// `bright_blue` of the colored crate, written out as text. The crate
/// decides from the environment and the terminal whether to colour: the
/// result is the text unchanged, or the text between the bright blue
/// sequence and the reset. It rewrites reset sequences inside the text, so
/// this is claimed only of a text without an escape character.
#[verifier::external_body]
fn tint(text: &str) -> (tinted: String)
    ensures
        !has_escape(text@) ==> is_tint_of(tinted@, text@),
{
    text.bright_blue().to_string()
}

/// No row of the tall font holds an escape character.
proof fn lemma_univers_rows_are_plain(digit: int, i: int)
    requires
        is_digit(digit),
        0 <= i < 8,
    ensures
        !has_escape(univers_rows(digit)[i]),
{
    reveal_strlit("   ,a8888a,   ");
    reveal_strlit(" ,8P\"'  `\"Y8, ");
    reveal_strlit(",8P        Y8,");
    reveal_strlit("88          88");
    reveal_strlit("`8b        d8'");
    reveal_strlit(" `8ba,  ,ad8' ");
    reveal_strlit("   \"Y8888P\"   ");
    reveal_strlit("    88");
    reveal_strlit("  ,d88");
    reveal_strlit("888888");
    reveal_strlit(" ad888888b,");
    reveal_strlit("d8\"     \"88");
    reveal_strlit("        a8P");
    reveal_strlit("     ,d8P\" ");
    reveal_strlit("   a8P\"    ");
    reveal_strlit(" a8P'      ");
    reveal_strlit("d8\"        ");
    reveal_strlit("88888888888");
    reveal_strlit("     aad8\" ");
    reveal_strlit("     \"\"Y8, ");
    reveal_strlit("        \"8b");
    reveal_strlit("Y8,     a88");
    reveal_strlit(" \"Y888888P'");
    reveal_strlit("        ,d8  ");
    reveal_strlit("      ,d888  ");
    reveal_strlit("    ,d8\" 88  ");
    reveal_strlit("  ,d8\"   88  ");
    reveal_strlit(",d8\"     88  ");
    reveal_strlit("8888888888888");
    reveal_strlit("         88  ");
    reveal_strlit("8888888888 ");
    reveal_strlit("88         ");
    reveal_strlit("88  ____   ");
    reveal_strlit("88a8PPPP8b,");
    reveal_strlit("PP\"     `8b");
    reveal_strlit("         d8");
    reveal_strlit("Y8a     a8P");
    reveal_strlit(" \"Y88888P\" ");
    reveal_strlit("  ad8888ba,");
    reveal_strlit(" 8P'    \"Y8");
    reveal_strlit("d8         ");
    reveal_strlit("88,dd888bb,");
    reveal_strlit("88P'    `8b");
    reveal_strlit("88       d8");
    reveal_strlit("88a     a8P");
    reveal_strlit("888888888888");
    reveal_strlit("        ,8P'");
    reveal_strlit("       d8\"  ");
    reveal_strlit("     ,8P'   ");
    reveal_strlit("    d8\"     ");
    reveal_strlit("  ,8P'      ");
    reveal_strlit(" d8\"        ");
    reveal_strlit("8P'         ");
    reveal_strlit(" ad88888ba ");
    reveal_strlit("d8\"     \"8b");
    reveal_strlit(" \"Y8aaa8P\" ");
    reveal_strlit(" ,d8\"\"\"8b, ");
    reveal_strlit("8P       88");
    reveal_strlit("Y8,    ,d88");
    reveal_strlit(" \"PPPPPP\"88");
    reveal_strlit("         8P");
    reveal_strlit("8b,    a8P ");
    reveal_strlit("`\"Y8888P'  ");
}

/// No row of the compact font holds an escape character.
proof fn lemma_yuanqing_rows_are_plain(digit: int, i: int)
    requires
        is_digit(digit),
        0 <= i < 5,
    ensures
        !has_escape(yuanqing_rows(digit)[i]),
{
    reveal_strlit("000000");
    reveal_strlit("00  00");
    reveal_strlit("1111  ");
    reveal_strlit("  11  ");
    reveal_strlit("111111");
    reveal_strlit("222222");
    reveal_strlit("     2");
    reveal_strlit("2     ");
    reveal_strlit("333333");
    reveal_strlit("    33");
    reveal_strlit("44  44");
    reveal_strlit("444444");
    reveal_strlit("    44");
    reveal_strlit("555555");
    reveal_strlit("55    ");
    reveal_strlit("    55");
    reveal_strlit("666666");
    reveal_strlit("66    ");
    reveal_strlit("66  66");
    reveal_strlit("777777");
    reveal_strlit("    77");
    reveal_strlit("888888");
    reveal_strlit("88  88");
    reveal_strlit("999999");
    reveal_strlit("99  99");
    reveal_strlit("    99");
}

/// No row of any glyph holds an escape character: the tint of a row is the
/// row itself or the row in bright blue.
pub proof fn lemma_glyph_rows_are_plain(style: TextStyle, digit: int, i: int)
    requires
        is_digit(digit),
        0 <= i < line_height(style),
    ensures
        !has_escape(glyph_rows(style, digit)[i]),
{
    match style {
        TextStyle::Univers => lemma_univers_rows_are_plain(digit, i),
        TextStyle::Yuanqing => lemma_yuanqing_rows_are_plain(digit, i),
    }
}

/// The mark in one slot of the progress row, with the space that follows it.
fn slot_text(state: &EngineState, slot: u8) -> (text: &'static str)
    requires
        slot < 4,
    ensures
        text@ == seq![slot_icon(state@, slot as int), ' '],
{
    proof {
        reveal_strlit("\u{1f4d5} ");
        reveal_strlit("\u{1f4d7} ");
        reveal_strlit("\u{1f4d8} ");
        reveal_strlit("\u{1f4d9} ");
        reveal_strlit("\u{25fb} ");
        reveal_strlit("\u{25fc} ");
    }
    let session = state.session_index();
    let text = if slot <= session {
        match slot {
            0 => "\u{1f4d5} ",
            1 => "\u{1f4d7} ",
            2 => "\u{1f4d8} ",
            _ => "\u{1f4d9} ",
        }
    } else if state.current_phase() == Phase::Break && slot == session + 1 {
        "\u{25fc} "
    } else {
        "\u{25fb} "
    };
    assert(text@ =~= seq![slot_icon(state@, slot as int), ' ']);
    text
}

/// The progress row of a state.
pub fn progress_line(state: &EngineState) -> (line: String)
    ensures
        line@ == progress_row(state@),
{
    let mut line = String::new();
    let mut slot: u8 = 0;
    while slot < 4
        invariant
            slot <= 4,
            line@ == progress_icons(state@, slot as nat),
        decreases 4 - slot,
    {
        line.append(slot_text(state, slot));
        slot += 1;
    }
    line.append(" (r");
    line.append(decimal_string(state.round_number()).as_str());
    line.append(".");
    line.append(decimal_string(state.session_index() as u64 + 1).as_str());
    line.append(")");
    line
}

/// The line that names an interval and its length.
pub fn interval_label(kind: DurationType, minutes: u64) -> (line: String)
    ensures
        line@ == interval_line(kind, minutes as nat),
{
    let mut line = String::from_str(
        match kind {
            DurationType::Focus => "focus",
            DurationType::Break => "short break",
            DurationType::LongBreak => "long break",
        },
    );
    line.append(": ");
    line.append(decimal_string(minutes).as_str());
    line.append(" mins");
    line
}

/// The line that shows a window.
pub fn window_label(window: &IntervalWindow) -> (line: String)
    ensures
        line@ == window_line(window.start(), window.end()),
{
    let mut line = String::from_str("(");
    line.append(window.start_label());
    line.append(" - ");
    line.append(window.end_label());
    line.append(")");
    line
}

/// Two digits side by side in big glyphs, as `render` sets them, with each
/// glyph row tinted before the two are joined.
pub fn tinted_digits(left: i64, right: i64, style: &TextStyle) -> (lines: Result<
    Vec<String>,
    RenderError,
>)
    ensures
        is_digit(left as int) && is_digit(right as int) <==> lines is Ok,
        lines matches Ok(l) ==> l@.len() == line_height(*style) && forall|i: int|
            0 <= i < l@.len() ==> is_tinted_line(
                (#[trigger] l@[i])@,
                glyph_rows(*style, left as int)[i],
                glyph_rows(*style, right as int)[i],
            ),
        lines matches Err(e) ==> e == (RenderError::DigitOutOfRange {
            digit: if is_digit(left as int) {
                right
            } else {
                left
            },
        }),
{
    let left_rows = match glyph(style, left) {
        Ok(rows) => rows,
        Err(e) => {
            return Err(e);
        },
    };
    let right_rows = match glyph(style, right) {
        Ok(rows) => rows,
        Err(e) => {
            return Err(e);
        },
    };
    let height = glyph_height(style);
    let mut lines: Vec<String> = Vec::new();
    let mut i: usize = 0;
    while i < height
        invariant
            i <= height,
            height == line_height(*style),
            is_digit(left as int),
            is_digit(right as int),
            left_rows@.len() == height,
            right_rows@.len() == height,
            row_texts(left_rows@) == glyph_rows(*style, left as int),
            row_texts(right_rows@) == glyph_rows(*style, right as int),
            lines@.len() == i,
            forall|j: int|
                0 <= j < i ==> is_tinted_line(
                    (#[trigger] lines@[j])@,
                    glyph_rows(*style, left as int)[j],
                    glyph_rows(*style, right as int)[j],
                ),
        decreases height - i,
    {
        assert(row_texts(left_rows@)[i as int] == left_rows@[i as int]@);
        assert(row_texts(right_rows@)[i as int] == right_rows@[i as int]@);
        proof {
            lemma_glyph_rows_are_plain(*style, left as int, i as int);
            lemma_glyph_rows_are_plain(*style, right as int, i as int);
        }
        let left_tinted = tint(left_rows[i]);
        let right_tinted = tint(right_rows[i]);
        let line = merge_row(left_tinted.as_str(), right_tinted.as_str());
        assert(line@ == merged_row(left_tinted@, right_tinted@));
        lines.push(line);
        i += 1;
    }
    Ok(lines)
}

impl Timer {
    /// The frame of the present reading, for an interval with the given
    /// window. The minutes that remain never need more than two digits, so
    /// there is always a frame.
    pub fn frame(&self, window: &IntervalWindow) -> (lines: Vec<String>)
        ensures
            is_frame(
                line_texts(lines@),
                self.settings(),
                self.reading(),
                window.start(),
                window.end(),
            ),
    {
        let config = self.config();
        let state = self.state();
        let remaining = self.remaining_minutes();
        let kind = state.interval_kind();
        let style = config.style();
        let mut lines: Vec<String> = Vec::new();
        lines.push(String::from_str("\x1B[2J\x1B[1;1H"));
        lines.push(progress_line(&state));
        lines.push(String::new());
        lines.push(interval_label(kind, config.duration(kind) as u64));
        lines.push(window_label(window));
        lines.push(String::new());
        let ghost head = lines@;
        let digits = tinted_digits(remaining / 10, remaining % 10, &style);
        let mut digits = digits.unwrap();
        let ghost rows = digits@;
        lines.append(&mut digits);
        lines.push(String::new());
        proof {
            let texts = line_texts(lines@);
            let height = line_height(style) as int;
            assert(lines@ =~= (head + rows).push(lines@[6 + height]));
            assert forall|i: int| 0 <= i < height implies is_tinted_line(
                #[trigger] texts[6 + i],
                glyph_rows(style, self.reading().remaining / 10)[i],
                glyph_rows(style, self.reading().remaining % 10)[i],
            ) by {
                assert(lines@[6 + i] == rows[i]);
            }
        }
        lines
    }
}

} // verus!
