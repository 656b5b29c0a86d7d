use vstd::prelude::*;
use crate::types::Color;

verus! {

/// The character of a decimal digit `d < 10`.
pub open spec fn digit_char(d: nat) -> char {
    if d == 0 {
        '0'
    } else if d == 1 {
        '1'
    } else if d == 2 {
        '2'
    } else if d == 3 {
        '3'
    } else if d == 4 {
        '4'
    } else if d == 5 {
        '5'
    } else if d == 6 {
        '6'
    } else if d == 7 {
        '7'
    } else if d == 8 {
        '8'
    } else {
        '9'
    }
}

/// `n` written in decimal, without leading zeros.
pub open spec fn decimal(n: nat) -> Seq<char>
    decreases n,
{
    if n < 10 {
        seq![digit_char(n)]
    } else {
        decimal(n / 10).push(digit_char(n % 10))
    }
}

/// A control sequence: `ESC [` followed by `body`.
pub open spec fn csi(body: Seq<char>) -> Seq<char> {
    seq!['\x1b', '['] + body
}

/// Moves the cursor to column `x`, row `y` (both counted from 1).
pub open spec fn goto_text(x: nat, y: nat) -> Seq<char> {
    csi(decimal(y) + seq![';'] + decimal(x) + seq!['H'])
}

/// Sets a 24-bit color; `layer` is 38 for the foreground and 48 for the background.
pub open spec fn rgb_text(layer: nat, c: Color) -> Seq<char> {
    csi(decimal(layer) + seq![';', '2', ';'] + decimal(c.r as nat) + seq![';'] + decimal(
        c.g as nat,
    ) + seq![';'] + decimal(c.b as nat) + seq!['m'])
}

pub open spec fn reset_text() -> Seq<char> {
    csi(seq!['m'])
}

pub open spec fn save_cursor_text() -> Seq<char> {
    csi(seq!['s'])
}

pub open spec fn restore_cursor_text() -> Seq<char> {
    csi(seq!['u'])
}

pub open spec fn show_cursor_text() -> Seq<char> {
    csi(seq!['?', '2', '5', 'h'])
}

pub open spec fn bold_text() -> Seq<char> {
    csi(seq!['1', 'm'])
}

pub open spec fn underline_text() -> Seq<char> {
    csi(seq!['4', 'm'])
}

pub open spec fn invert_text() -> Seq<char> {
    csi(seq!['7', 'm'])
}

/// Relies on termion's `From<cursor::Goto> for String`: `ESC [ y ; x H` in decimal.
#[verifier::external_body]
pub(crate) fn goto_code(x: u16, y: u16) -> (r: String)
    ensures
        r@ == goto_text(x as nat, y as nat),
{
    String::from(termion::cursor::Goto(x, y))
}

/// Relies on termion's `color::Rgb::fg_string`: `ESC [ 38;2;r;g;b m` in decimal.
#[verifier::external_body]
pub(crate) fn fg_code(c: Color) -> (r: String)
    ensures
        r@ == rgb_text(38, c),
{
    termion::color::Rgb(c.r, c.g, c.b).fg_string()
}

/// Relies on termion's `color::Rgb::bg_string`: `ESC [ 48;2;r;g;b m` in decimal.
#[verifier::external_body]
pub(crate) fn bg_code(c: Color) -> (r: String)
    ensures
        r@ == rgb_text(48, c),
{
    termion::color::Rgb(c.r, c.g, c.b).bg_string()
}

/// Relies on termion's `style::Reset`, which displays as `ESC [ m`.
#[verifier::external_body]
pub(crate) fn reset_code() -> (r: String)
    ensures
        r@ == reset_text(),
{
    format!("{}", termion::style::Reset)
}

/// Relies on termion's `cursor::Save`, which displays as `ESC [ s`.
#[verifier::external_body]
pub(crate) fn save_cursor_code() -> (r: String)
    ensures
        r@ == save_cursor_text(),
{
    format!("{}", termion::cursor::Save)
}

/// Relies on termion's `cursor::Restore`, which displays as `ESC [ u`.
#[verifier::external_body]
pub(crate) fn restore_cursor_code() -> (r: String)
    ensures
        r@ == restore_cursor_text(),
{
    format!("{}", termion::cursor::Restore)
}

/// Relies on termion's `cursor::Show`, which displays as `ESC [ ? 25 h`.
#[verifier::external_body]
pub(crate) fn show_cursor_code() -> (r: String)
    ensures
        r@ == show_cursor_text(),
{
    format!("{}", termion::cursor::Show)
}

/// Relies on termion's `style::Bold`, which displays as `ESC [ 1 m`.
#[verifier::external_body]
pub(crate) fn bold_code() -> (r: String)
    ensures
        r@ == bold_text(),
{
    format!("{}", termion::style::Bold)
}

/// Relies on termion's `style::Underline`, which displays as `ESC [ 4 m`.
#[verifier::external_body]
pub(crate) fn underline_code() -> (r: String)
    ensures
        r@ == underline_text(),
{
    format!("{}", termion::style::Underline)
}

/// Relies on termion's `style::Invert`, which displays as `ESC [ 7 m`.
#[verifier::external_body]
pub(crate) fn invert_code() -> (r: String)
    ensures
        r@ == invert_text(),
{
    format!("{}", termion::style::Invert)
}

/// Relies on std's `From<char> for String`: a string of that one character.
#[verifier::external_body]
pub(crate) fn char_text(c: char) -> (r: String)
    ensures
        r@ == seq![c],
{
    String::from(c)
}

} // verus!
