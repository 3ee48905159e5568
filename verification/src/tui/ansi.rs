//! Escape sequences for the terminal.

use crate::text::{chars_to_string, decimal, extend_str, push_decimal, str_chars};
use vstd::prelude::*;

verus! {

/// The character that begins every escape sequence.
pub const ESC: &'static str = "\x1b";

/// The colours that text can be set in.
#[derive(Debug, Clone, Copy, PartialEq, Eq, Structural)]
pub enum Color {
    Reset,
    Black,
    DarkGrey,
    Red,
    DarkRed,
    Green,
    DarkGreen,
    Yellow,
    DarkYellow,
    Blue,
    DarkBlue,
    Magenta,
    DarkMagenta,
    Cyan,
    DarkCyan,
    White,
    Grey,
    Rgb { r: u8, g: u8, b: u8 },
    AnsiValue(u8),
}

/// Erases from the cursor to the end of the line.
pub fn clear_line() -> (out: String)
    ensures
        out@ == ESC@ + "[K"@,
{
    let mut out = str_chars(ESC);
    extend_str(&mut out, "[K");
    chars_to_string(&out)
}

/// Moves the cursor to the first column.
pub fn carriage_return() -> (out: String)
    ensures
        out@ == "\r"@,
{
    "\r".to_owned()
}

pub open spec fn spec_move_to(row: u16, col: u16) -> Seq<char> {
    ESC@ + "["@ + decimal(row as nat) + ";"@ + decimal(col as nat) + "H"@
}

/// Moves the cursor to the given row and column, both counted from 1.
pub fn move_to(row: u16, col: u16) -> (out: String)
    ensures
        out@ == spec_move_to(row, col),
{
    let mut out = str_chars(ESC);
    extend_str(&mut out, "[");
    push_decimal(&mut out, row as u64);
    extend_str(&mut out, ";");
    push_decimal(&mut out, col as u64);
    extend_str(&mut out, "H");
    chars_to_string(&out)
}

pub fn hide_cursor() -> (out: String)
    ensures
        out@ == ESC@ + "[?25l"@,
{
    let mut out = str_chars(ESC);
    extend_str(&mut out, "[?25l");
    chars_to_string(&out)
}

pub fn show_cursor() -> (out: String)
    ensures
        out@ == ESC@ + "[?25h"@,
{
    let mut out = str_chars(ESC);
    extend_str(&mut out, "[?25h");
    chars_to_string(&out)
}

/// Ends every colour and style.
pub fn reset() -> (out: String)
    ensures
        out@ == ESC@ + "[0m"@,
{
    let mut out = str_chars(ESC);
    extend_str(&mut out, "[0m");
    chars_to_string(&out)
}

/// The code of a colour that has one of its own.
pub open spec fn spec_color_code(color: Color) -> nat {
    match color {
        Color::Black => 30,
        Color::DarkGrey => 90,
        Color::Red => 31,
        Color::DarkRed => 91,
        Color::Green => 32,
        Color::DarkGreen => 92,
        Color::Yellow => 33,
        Color::DarkYellow => 93,
        Color::Blue => 34,
        Color::DarkBlue => 94,
        Color::Magenta => 35,
        Color::DarkMagenta => 95,
        Color::Cyan => 36,
        Color::DarkCyan => 96,
        Color::White => 37,
        Color::Grey => 90,
        _ => 39,
    }
}

pub open spec fn spec_set_fg(color: Color) -> Seq<char> {
    match color {
        Color::Rgb { r, g, b } => ESC@ + "[38;2;"@ + decimal(r as nat) + ";"@ + decimal(g as nat)
            + ";"@ + decimal(b as nat) + "m"@,
        Color::AnsiValue(value) => ESC@ + "[38;5;"@ + decimal(value as nat) + "m"@,
        _ => ESC@ + "["@ + decimal(spec_color_code(color)) + "m"@,
    }
}

fn color_code(color: Color) -> (code: u64)
    ensures
        code == spec_color_code(color),
{
    match color {
        Color::Black => 30,
        Color::DarkGrey => 90,
        Color::Red => 31,
        Color::DarkRed => 91,
        Color::Green => 32,
        Color::DarkGreen => 92,
        Color::Yellow => 33,
        Color::DarkYellow => 93,
        Color::Blue => 34,
        Color::DarkBlue => 94,
        Color::Magenta => 35,
        Color::DarkMagenta => 95,
        Color::Cyan => 36,
        Color::DarkCyan => 96,
        Color::White => 37,
        Color::Grey => 90,
        _ => 39,
    }
}

/// Sets the colour of the text that follows.
pub fn set_fg(color: Color) -> (out: String)
    ensures
        out@ == spec_set_fg(color),
{
    let mut out = str_chars(ESC);
    match color {
        Color::Rgb { r, g, b } => {
            extend_str(&mut out, "[38;2;");
            push_decimal(&mut out, r as u64);
            extend_str(&mut out, ";");
            push_decimal(&mut out, g as u64);
            extend_str(&mut out, ";");
            push_decimal(&mut out, b as u64);
            extend_str(&mut out, "m");
        },
        Color::AnsiValue(value) => {
            extend_str(&mut out, "[38;5;");
            push_decimal(&mut out, value as u64);
            extend_str(&mut out, "m");
        },
        _ => {
            extend_str(&mut out, "[");
            push_decimal(&mut out, color_code(color));
            extend_str(&mut out, "m");
        },
    }
    chars_to_string(&out)
}

} // verus!
