use pomosh::config::TextStyle;
use pomosh::glyph::glyph;
use pomosh::glyph::glyph_height;
use pomosh::glyph::merge_row;
use pomosh::glyph::render;
use pomosh::glyph::RenderError;

fn tall_font() -> Vec<&'static str> {
    vec![
        "   ,a8888a,   \n ,8P\"'  `\"Y8, \n,8P        Y8,\n88          88\n88          88\n`8b        d8'\n `8ba,  ,ad8' \n   \"Y8888P\"   ",
        "    88\n  ,d88\n888888\n    88\n    88\n    88\n    88\n    88",
        " ad888888b,\nd8\"     \"88\n        a8P\n     ,d8P\" \n   a8P\"    \n a8P'      \nd8\"        \n88888888888",
        " ad888888b,\nd8\"     \"88\n        a8P\n     aad8\" \n     \"\"Y8, \n        \"8b\nY8,     a88\n \"Y888888P'",
        "        ,d8  \n      ,d888  \n    ,d8\" 88  \n  ,d8\"   88  \n,d8\"     88  \n8888888888888\n         88  \n         88  ",
        "8888888888 \n88         \n88  ____   \n88a8PPPP8b,\nPP\"     `8b\n         d8\nY8a     a8P\n \"Y88888P\" ",
        "  ad8888ba,\n 8P'    \"Y8\nd8         \n88,dd888bb,\n88P'    `8b\n88       d8\n88a     a8P\n \"Y88888P\" ",
        "888888888888\n        ,8P'\n       d8\"  \n     ,8P'   \n    d8\"     \n  ,8P'      \n d8\"        \n8P'         ",
        " ad88888ba \nd8\"     \"8b\nY8a     a8P\n \"Y8aaa8P\" \n ,d8\"\"\"8b, \nd8\"     \"8b\nY8a     a8P\n \"Y88888P\" ",
        " ad88888ba \nd8\"     \"88\n8P       88\nY8,    ,d88\n \"PPPPPP\"88\n         8P\n8b,    a8P \n`\"Y8888P'  ",
    ]
}

fn compact_font() -> Vec<&'static str> {
    vec![
        "000000\n00  00\n00  00\n00  00\n000000",
        "1111  \n  11  \n  11  \n  11  \n111111",
        "222222\n     2\n222222\n2     \n222222",
        "333333\n    33\n333333\n    33\n333333",
        "44  44\n44  44\n444444\n    44\n    44",
        "555555\n55    \n555555\n    55\n555555",
        "666666\n66    \n666666\n66  66\n666666",
        "777777\n    77\n    77\n    77\n    77",
        "888888\n88  88\n888888\n88  88\n888888",
        "999999\n99  99\n999999\n    99\n999999",
    ]
}

#[test]
fn the_fonts_are_five_and_eight_rows_high() {
    assert_eq!(glyph_height(&TextStyle::Yuanqing), 5);
    assert_eq!(glyph_height(&TextStyle::Univers), 8);
}

#[test]
fn every_glyph_of_the_tall_font_reads_as_drawn() {
    let font = tall_font();
    for digit in 0..10usize {
        let rows = glyph(&TextStyle::Univers, digit as i64).unwrap();
        assert_eq!(rows.len(), 8);
        assert_eq!(rows.join("\n"), font[digit]);
    }
}

#[test]
fn every_glyph_of_the_compact_font_reads_as_drawn() {
    let font = compact_font();
    for digit in 0..10usize {
        let rows = glyph(&TextStyle::Yuanqing, digit as i64).unwrap();
        assert_eq!(rows.len(), 5);
        assert_eq!(rows.join("\n"), font[digit]);
    }
}

#[test]
fn the_rows_of_a_glyph_are_equally_wide() {
    for style in [TextStyle::Univers, TextStyle::Yuanqing] {
        for digit in 0..10 {
            let rows = glyph(&style, digit).unwrap();
            for row in &rows {
                assert_eq!(row.len(), rows[0].len());
            }
        }
    }
}

#[test]
fn glyph_refuses_what_is_no_digit() {
    for style in [TextStyle::Univers, TextStyle::Yuanqing] {
        for digit in [-1, 10, 11, 100, i64::MAX, i64::MIN] {
            assert_eq!(glyph(&style, digit), Err(RenderError::DigitOutOfRange { digit }));
        }
    }
}

#[test]
fn merge_row_sets_a_space_before_and_two_between() {
    assert_eq!(merge_row("ab", "cd"), " ab  cd");
    assert_eq!(merge_row("", ""), "   ");
    assert_eq!(merge_row("x", ""), " x  ");
}

#[test]
fn render_one_and_two_in_the_compact_font() {
    let lines = render(1, 2, &TextStyle::Yuanqing).unwrap();
    assert_eq!(
        lines,
        vec![
            " 1111    222222",
            "   11         2",
            "   11    222222",
            "   11    2     ",
            " 111111  222222",
        ]
    );
}

#[test]
fn render_four_and_one_in_the_tall_font() {
    let lines = render(4, 1, &TextStyle::Univers).unwrap();
    assert_eq!(
        lines,
        vec![
            "         ,d8        88",
            "       ,d888      ,d88",
            "     ,d8\" 88    888888",
            "   ,d8\"   88        88",
            " ,d8\"     88        88",
            " 8888888888888      88",
            "          88        88",
            "          88        88",
        ]
    );
}

#[test]
fn render_gives_as_many_lines_as_the_font_is_high() {
    for left in 0..10 {
        for right in 0..10 {
            assert_eq!(render(left, right, &TextStyle::Yuanqing).unwrap().len(), 5);
            assert_eq!(render(left, right, &TextStyle::Univers).unwrap().len(), 8);
        }
    }
}

#[test]
fn render_joins_the_rows_of_the_two_glyphs() {
    for style in [TextStyle::Univers, TextStyle::Yuanqing] {
        for left in 0..10 {
            for right in 0..10 {
                let lines = render(left, right, &style).unwrap();
                let a = glyph(&style, left).unwrap();
                let b = glyph(&style, right).unwrap();
                for i in 0..lines.len() {
                    assert_eq!(lines[i], format!(" {}  {}", a[i], b[i]));
                }
            }
        }
    }
}

#[test]
fn render_twice_gives_the_same_lines() {
    for style in [TextStyle::Univers, TextStyle::Yuanqing] {
        for left in 0..10 {
            for right in 0..10 {
                assert_eq!(render(left, right, &style), render(left, right, &style));
            }
        }
        assert_eq!(render(12, 3, &style), render(12, 3, &style));
    }
}

#[test]
fn render_refuses_the_first_number_that_is_no_digit() {
    let style = TextStyle::Univers;
    assert_eq!(render(10, 3, &style), Err(RenderError::DigitOutOfRange { digit: 10 }));
    assert_eq!(render(3, 10, &style), Err(RenderError::DigitOutOfRange { digit: 10 }));
    assert_eq!(render(-1, 12, &style), Err(RenderError::DigitOutOfRange { digit: -1 }));
    assert_eq!(render(0, -5, &style), Err(RenderError::DigitOutOfRange { digit: -5 }));
    assert!(render(9, 9, &style).is_ok());
    assert!(render(0, 0, &style).is_ok());
}
