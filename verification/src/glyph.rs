//! The big digits: two fonts of ten glyphs each, and the renderer that sets
//! two glyphs side by side.

use vstd::prelude::*;
use vstd::string::*;
use crate::config::TextStyle;

verus! {

/// Why two digits were not rendered.
#[derive(Clone, Copy, Debug, PartialEq, Eq, Structural)]
pub enum RenderError {
    /// A digit was not one of 0 to 9; `digit` is the first such, the left one
    /// before the right.
    DigitOutOfRange { digit: i64 },
}

/// Rows of every glyph of a font.
pub open spec fn line_height(style: TextStyle) -> nat {
    match style {
        TextStyle::Yuanqing => 5,
        TextStyle::Univers => 8,
    }
}

/// What a list of rows reads as.
pub open spec fn row_texts(rows: Seq<&'static str>) -> Seq<Seq<char>> {
    Seq::new(rows.len(), |i: int| rows[i]@)
}

/// What a list of lines reads as.
pub open spec fn line_texts(lines: Seq<String>) -> Seq<Seq<char>> {
    Seq::new(lines.len(), |i: int| lines[i]@)
}

/// The ten glyphs of the tall font, row by row.
pub open spec fn univers_rows(digit: int) -> Seq<Seq<char>> {
    if digit == 0 {
        seq![
            "   ,a8888a,   "@,
            " ,8P\"'  `\"Y8, "@,
            ",8P        Y8,"@,
            "88          88"@,
            "88          88"@,
            "`8b        d8'"@,
            " `8ba,  ,ad8' "@,
            "   \"Y8888P\"   "@,
        ]
    } else if digit == 1 {
        seq![
            "    88"@,
            "  ,d88"@,
            "888888"@,
            "    88"@,
            "    88"@,
            "    88"@,
            "    88"@,
            "    88"@,
        ]
    } else if digit == 2 {
        seq![
            " ad888888b,"@,
            "d8\"     \"88"@,
            "        a8P"@,
            "     ,d8P\" "@,
            "   a8P\"    "@,
            " a8P'      "@,
            "d8\"        "@,
            "88888888888"@,
        ]
    } else if digit == 3 {
        seq![
            " ad888888b,"@,
            "d8\"     \"88"@,
            "        a8P"@,
            "     aad8\" "@,
            "     \"\"Y8, "@,
            "        \"8b"@,
            "Y8,     a88"@,
            " \"Y888888P'"@,
        ]
    } else if digit == 4 {
        seq![
            "        ,d8  "@,
            "      ,d888  "@,
            "    ,d8\" 88  "@,
            "  ,d8\"   88  "@,
            ",d8\"     88  "@,
            "8888888888888"@,
            "         88  "@,
            "         88  "@,
        ]
    } else if digit == 5 {
        seq![
            "8888888888 "@,
            "88         "@,
            "88  ____   "@,
            "88a8PPPP8b,"@,
            "PP\"     `8b"@,
            "         d8"@,
            "Y8a     a8P"@,
            " \"Y88888P\" "@,
        ]
    } else if digit == 6 {
        seq![
            "  ad8888ba,"@,
            " 8P'    \"Y8"@,
            "d8         "@,
            "88,dd888bb,"@,
            "88P'    `8b"@,
            "88       d8"@,
            "88a     a8P"@,
            " \"Y88888P\" "@,
        ]
    } else if digit == 7 {
        seq![
            "888888888888"@,
            "        ,8P'"@,
            "       d8\"  "@,
            "     ,8P'   "@,
            "    d8\"     "@,
            "  ,8P'      "@,
            " d8\"        "@,
            "8P'         "@,
        ]
    } else if digit == 8 {
        seq![
            " ad88888ba "@,
            "d8\"     \"8b"@,
            "Y8a     a8P"@,
            " \"Y8aaa8P\" "@,
            " ,d8\"\"\"8b, "@,
            "d8\"     \"8b"@,
            "Y8a     a8P"@,
            " \"Y88888P\" "@,
        ]
    } else if digit == 9 {
        seq![
            " ad88888ba "@,
            "d8\"     \"88"@,
            "8P       88"@,
            "Y8,    ,d88"@,
            " \"PPPPPP\"88"@,
            "         8P"@,
            "8b,    a8P "@,
            "`\"Y8888P'  "@,
        ]
    } else {
        Seq::empty()
    }
}

/// The ten glyphs of the compact font, row by row.
pub open spec fn yuanqing_rows(digit: int) -> Seq<Seq<char>> {
    if digit == 0 {
        seq![
            "000000"@,
            "00  00"@,
            "00  00"@,
            "00  00"@,
            "000000"@,
        ]
    } else if digit == 1 {
        seq![
            "1111  "@,
            "  11  "@,
            "  11  "@,
            "  11  "@,
            "111111"@,
        ]
    } else if digit == 2 {
        seq![
            "222222"@,
            "     2"@,
            "222222"@,
            "2     "@,
            "222222"@,
        ]
    } else if digit == 3 {
        seq![
            "333333"@,
            "    33"@,
            "333333"@,
            "    33"@,
            "333333"@,
        ]
    } else if digit == 4 {
        seq![
            "44  44"@,
            "44  44"@,
            "444444"@,
            "    44"@,
            "    44"@,
        ]
    } else if digit == 5 {
        seq![
            "555555"@,
            "55    "@,
            "555555"@,
            "    55"@,
            "555555"@,
        ]
    } else if digit == 6 {
        seq![
            "666666"@,
            "66    "@,
            "666666"@,
            "66  66"@,
            "666666"@,
        ]
    } else if digit == 7 {
        seq![
            "777777"@,
            "    77"@,
            "    77"@,
            "    77"@,
            "    77"@,
        ]
    } else if digit == 8 {
        seq![
            "888888"@,
            "88  88"@,
            "888888"@,
            "88  88"@,
            "888888"@,
        ]
    } else if digit == 9 {
        seq![
            "999999"@,
            "99  99"@,
            "999999"@,
            "    99"@,
            "999999"@,
        ]
    } else {
        Seq::empty()
    }
}

/// The rows of the glyph of `digit` in the font `style`, top row first.
pub open spec fn glyph_rows(style: TextStyle, digit: int) -> Seq<Seq<char>> {
    match style {
        TextStyle::Univers => univers_rows(digit),
        TextStyle::Yuanqing => yuanqing_rows(digit),
    }
}

/// One line of two glyph rows side by side: a space, the left row, two
/// spaces, the right row.
pub open spec fn merged_row(left: Seq<char>, right: Seq<char>) -> Seq<char> {
    seq![' '] + left + seq![' ', ' '] + right
}

/// The lines that show `left` and `right` side by side in the font `style`.
pub open spec fn rendered(style: TextStyle, left: int, right: int) -> Seq<Seq<char>> {
    Seq::new(
        line_height(style),
        |i: int| merged_row(glyph_rows(style, left)[i], glyph_rows(style, right)[i]),
    )
}

/// Whether `digit` has a glyph.
pub open spec fn is_digit(digit: int) -> bool {
    0 <= digit <= 9
}

/// All ten glyphs of a font have the same number of rows, the font's line
/// height.
pub proof fn lemma_glyphs_share_height(style: TextStyle, digit: int)
    requires
        is_digit(digit),
    ensures
        glyph_rows(style, digit).len() == line_height(style),
{
}

/// The glyph of `digit` in the tall font.
fn univers_glyph(digit: i64) -> (rows: Vec<&'static str>)
    requires
        0 <= digit <= 9,
    ensures
        row_texts(rows@) == univers_rows(digit as int),
{
    let rows = match digit {
        0 => vec![
            "   ,a8888a,   ",
            " ,8P\"'  `\"Y8, ",
            ",8P        Y8,",
            "88          88",
            "88          88",
            "`8b        d8'",
            " `8ba,  ,ad8' ",
            "   \"Y8888P\"   ",
        ],
        1 => vec![
            "    88",
            "  ,d88",
            "888888",
            "    88",
            "    88",
            "    88",
            "    88",
            "    88",
        ],
        2 => vec![
            " ad888888b,",
            "d8\"     \"88",
            "        a8P",
            "     ,d8P\" ",
            "   a8P\"    ",
            " a8P'      ",
            "d8\"        ",
            "88888888888",
        ],
        3 => vec![
            " ad888888b,",
            "d8\"     \"88",
            "        a8P",
            "     aad8\" ",
            "     \"\"Y8, ",
            "        \"8b",
            "Y8,     a88",
            " \"Y888888P'",
        ],
        4 => vec![
            "        ,d8  ",
            "      ,d888  ",
            "    ,d8\" 88  ",
            "  ,d8\"   88  ",
            ",d8\"     88  ",
            "8888888888888",
            "         88  ",
            "         88  ",
        ],
        5 => vec![
            "8888888888 ",
            "88         ",
            "88  ____   ",
            "88a8PPPP8b,",
            "PP\"     `8b",
            "         d8",
            "Y8a     a8P",
            " \"Y88888P\" ",
        ],
        6 => vec![
            "  ad8888ba,",
            " 8P'    \"Y8",
            "d8         ",
            "88,dd888bb,",
            "88P'    `8b",
            "88       d8",
            "88a     a8P",
            " \"Y88888P\" ",
        ],
        7 => vec![
            "888888888888",
            "        ,8P'",
            "       d8\"  ",
            "     ,8P'   ",
            "    d8\"     ",
            "  ,8P'      ",
            " d8\"        ",
            "8P'         ",
        ],
        8 => vec![
            " ad88888ba ",
            "d8\"     \"8b",
            "Y8a     a8P",
            " \"Y8aaa8P\" ",
            " ,d8\"\"\"8b, ",
            "d8\"     \"8b",
            "Y8a     a8P",
            " \"Y88888P\" ",
        ],
        _ => vec![
            " ad88888ba ",
            "d8\"     \"88",
            "8P       88",
            "Y8,    ,d88",
            " \"PPPPPP\"88",
            "         8P",
            "8b,    a8P ",
            "`\"Y8888P'  ",
        ],
    };
    assert(row_texts(rows@) =~= univers_rows(digit as int));
    rows
}

/// The glyph of `digit` in the compact font.
fn yuanqing_glyph(digit: i64) -> (rows: Vec<&'static str>)
    requires
        0 <= digit <= 9,
    ensures
        row_texts(rows@) == yuanqing_rows(digit as int),
{
    let rows = match digit {
        0 => vec![
            "000000",
            "00  00",
            "00  00",
            "00  00",
            "000000",
        ],
        1 => vec![
            "1111  ",
            "  11  ",
            "  11  ",
            "  11  ",
            "111111",
        ],
        2 => vec![
            "222222",
            "     2",
            "222222",
            "2     ",
            "222222",
        ],
        3 => vec![
            "333333",
            "    33",
            "333333",
            "    33",
            "333333",
        ],
        4 => vec![
            "44  44",
            "44  44",
            "444444",
            "    44",
            "    44",
        ],
        5 => vec![
            "555555",
            "55    ",
            "555555",
            "    55",
            "555555",
        ],
        6 => vec![
            "666666",
            "66    ",
            "666666",
            "66  66",
            "666666",
        ],
        7 => vec![
            "777777",
            "    77",
            "    77",
            "    77",
            "    77",
        ],
        8 => vec![
            "888888",
            "88  88",
            "888888",
            "88  88",
            "888888",
        ],
        _ => vec![
            "999999",
            "99  99",
            "999999",
            "    99",
            "999999",
        ],
    };
    assert(row_texts(rows@) =~= yuanqing_rows(digit as int));
    rows
}

/// The number of rows of every glyph of a font.
pub fn glyph_height(style: &TextStyle) -> (height: usize)
    ensures
        height == line_height(*style),
{
    match style {
        TextStyle::Yuanqing => 5,
        TextStyle::Univers => 8,
    }
}

/// Looks a digit up in the glyph table of a font. Only 0 to 9 have a glyph;
/// any other number is refused.
pub fn glyph(style: &TextStyle, digit: i64) -> (rows: Result<Vec<&'static str>, RenderError>)
    ensures
        is_digit(digit as int) ==> rows is Ok,
        rows matches Ok(r) ==> is_digit(digit as int) && r@.len() == line_height(*style)
            && row_texts(r@) == glyph_rows(*style, digit as int),
        rows matches Err(e) ==> e == (RenderError::DigitOutOfRange { digit }),
{
    if digit < 0 || digit > 9 {
        return Err(RenderError::DigitOutOfRange { digit });
    }
    proof {
        lemma_glyphs_share_height(*style, digit as int);
    }
    let rows = match style {
        TextStyle::Univers => univers_glyph(digit),
        TextStyle::Yuanqing => yuanqing_glyph(digit),
    };
    assert(row_texts(rows@).len() == rows@.len());
    Ok(rows)
}

/// Sets two glyph rows side by side in one line.
pub fn merge_row(left: &str, right: &str) -> (line: String)
    ensures
        line@ == merged_row(left@, right@),
{
    let mut line = String::from_str(" ");
    proof {
        reveal_strlit(" ");
        reveal_strlit("  ");
    }
    assert(line@ =~= seq![' ']);
    line.append(left);
    line.append("  ");
    assert("  "@ =~= seq![' ', ' ']);
    line.append(right);
    line
}

/// What rendering `left` and `right` in the font `style` comes to: the lines
/// of the two glyphs side by side where both are digits, and otherwise the
/// refusal of the first that is not, the left one before the right.
pub open spec fn is_rendering(
    style: TextStyle,
    left: i64,
    right: i64,
    outcome: Result<Vec<String>, RenderError>,
) -> bool {
    if !is_digit(left as int) {
        outcome matches Err(e) && e == (RenderError::DigitOutOfRange { digit: left })
    } else if !is_digit(right as int) {
        outcome matches Err(e) && e == (RenderError::DigitOutOfRange { digit: right })
    } else {
        outcome matches Ok(lines) && line_texts(lines@) == rendered(
            style,
            left as int,
            right as int,
        )
    }
}

/// Rendering depends on the digits and the font alone: two renderings of the
/// same digits in the same font show the same lines, as many as the font is
/// high, or are the same refusal; and they are a refusal exactly where one
/// of the two is no digit.
pub proof fn lemma_render_is_deterministic(
    style: TextStyle,
    left: i64,
    right: i64,
    first: Result<Vec<String>, RenderError>,
    second: Result<Vec<String>, RenderError>,
)
    requires
        is_rendering(style, left, right, first),
        is_rendering(style, left, right, second),
    ensures
        first is Err <==> !is_digit(left as int) || !is_digit(right as int),
        first is Err <==> second is Err,
        first matches Err(e) ==> second == Err::<Vec<String>, RenderError>(e),
        first matches Ok(a) ==> second matches Ok(b) && line_texts(a@) == line_texts(b@)
            && a@.len() == line_height(style),
{
    if let Ok(a) = first {
        assert(line_texts(a@).len() == a@.len());
    }
}

/// Renders two digits side by side in big glyphs: as many lines as the font
/// is high, each made of the two glyphs' rows of that height. A digit that
/// is not one of 0 to 9 is refused.
pub fn render(left: i64, right: i64, style: &TextStyle) -> (lines: Result<Vec<String>, RenderError>)
    ensures
        lines is Ok <==> is_digit(left as int) && is_digit(right as int),
        is_rendering(*style, left, right, lines),
{
    let left_rows = match glyph(style, left) {
        Ok(rows) => rows,
        Err(e) => {
            return Err(e);
        },
    };
    let right_rows = match glyph(style, right) {
        Ok(rows) => rows,
        Err(e) => {
            return Err(e);
        },
    };
    let height = glyph_height(style);
    let mut lines: Vec<String> = Vec::new();
    let mut i: usize = 0;
    while i < height
        invariant
            i <= height,
            height == line_height(*style),
            left_rows@.len() == height,
            right_rows@.len() == height,
            row_texts(left_rows@) == glyph_rows(*style, left as int),
            row_texts(right_rows@) == glyph_rows(*style, right as int),
            lines@.len() == i,
            forall|j: int|
                0 <= j < i ==> (#[trigger] lines@[j])@ == rendered(
                    *style,
                    left as int,
                    right as int,
                )[j],
        decreases height - i,
    {
        assert(row_texts(left_rows@)[i as int] == left_rows@[i as int]@);
        assert(row_texts(right_rows@)[i as int] == right_rows@[i as int]@);
        let line = merge_row(left_rows[i], right_rows[i]);
        lines.push(line);
        i += 1;
    }
    assert(line_texts(lines@) =~= rendered(*style, left as int, right as int));
    Ok(lines)
}

} // verus!
