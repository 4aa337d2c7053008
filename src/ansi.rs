//! The terminal control sequences that the field uses, as crossterm encodes
//! them: each is a Control Sequence Introducer (`ESC [`) followed by its
//! parameters and final byte.

use crossterm::Command;
use vstd::prelude::*;

verus! {

/// The Control Sequence Introducer, `ESC [`.
pub open spec fn csi() -> Seq<u8> {
    seq![0x1bu8, 0x5bu8]
}

/// The decimal digits of `n`, most significant first, in ASCII.
pub open spec fn decimal(n: nat) -> Seq<u8>
    decreases n,
{
    if n < 10 {
        seq![(0x30 + n) as u8]
    } else {
        decimal(n / 10).push((0x30 + n % 10) as u8)
    }
}

/// Moves the cursor to column `x`, row `y` (both from zero): the sequence
/// carries the row, then the column, each counted from one.
pub open spec fn move_to_spec(x: u16, y: u16) -> Seq<u8> {
    csi() + decimal(y as nat + 1) + seq![0x3bu8] + decimal(x as nat + 1) + seq![0x48u8]
}

/// Resizes the terminal to `w` columns and `h` rows.
pub open spec fn set_size_spec(w: u16, h: u16) -> Seq<u8> {
    csi() + seq![0x38u8, 0x3bu8] + decimal(h as nat) + seq![0x3bu8] + decimal(w as nat) + seq![0x74u8]
}

/// Clears the whole screen: `ESC [ 2 J`.
pub open spec fn clear_all_spec() -> Seq<u8> {
    csi() + seq![0x32u8, 0x4au8]
}

/// Sets the foreground to green of the 256-colour palette: `ESC [ 38;5;10 m`.
pub open spec fn green_foreground_spec() -> Seq<u8> {
    csi() + seq![0x33u8, 0x38u8, 0x3bu8, 0x35u8, 0x3bu8, 0x31u8, 0x30u8, 0x6du8]
}

/// Turns blinking off: `ESC [ 25 m`.
pub open spec fn no_blink_spec() -> Seq<u8> {
    csi() + seq![0x32u8, 0x35u8, 0x6du8]
}

/// Hides the cursor: `ESC [ ? 25 l`.
pub open spec fn hide_cursor_spec() -> Seq<u8> {
    csi() + seq![0x3fu8, 0x32u8, 0x35u8, 0x6cu8]
}

/// Turns automatic line wrapping off: `ESC [ ? 7 l`.
pub open spec fn disable_line_wrap_spec() -> Seq<u8> {
    csi() + seq![0x3fu8, 0x37u8, 0x6cu8]
}

/// Relies on `crossterm::cursor::MoveTo::write_ansi`, which writes
/// `ESC [ {y + 1} ; {x + 1} H` (and overflows at the largest `u16`).
#[verifier::external_body]
pub(crate) fn move_to_code(x: u16, y: u16) -> (r: Vec<u8>)
    requires
        x < u16::MAX,
        y < u16::MAX,
    ensures
        r@ == move_to_spec(x, y),
{
    let mut s = String::new();
    let _ = crossterm::cursor::MoveTo(x, y).write_ansi(&mut s);
    s.into_bytes()
}

/// Relies on `crossterm::terminal::SetSize::write_ansi`, which writes
/// `ESC [ 8 ; {rows} ; {columns} t`.
#[verifier::external_body]
pub(crate) fn set_size_code(w: u16, h: u16) -> (r: Vec<u8>)
    ensures
        r@ == set_size_spec(w, h),
{
    let mut s = String::new();
    let _ = crossterm::terminal::SetSize(w, h).write_ansi(&mut s);
    s.into_bytes()
}

/// Relies on `crossterm::terminal::Clear(ClearType::All)::write_ansi`, which
/// writes `ESC [ 2 J`.
#[verifier::external_body]
pub(crate) fn clear_all_code() -> (r: Vec<u8>)
    ensures
        r@ == clear_all_spec(),
{
    let mut s = String::new();
    let _ = crossterm::terminal::Clear(crossterm::terminal::ClearType::All).write_ansi(&mut s);
    s.into_bytes()
}

/// Relies on `crossterm::style::SetForegroundColor(Color::Green)::write_ansi`,
/// which writes `ESC [ 38;5;10 m`.
#[verifier::external_body]
pub(crate) fn green_foreground_code() -> (r: Vec<u8>)
    ensures
        r@ == green_foreground_spec(),
{
    let mut s = String::new();
    let _ = crossterm::style::SetForegroundColor(crossterm::style::Color::Green).write_ansi(&mut s);
    s.into_bytes()
}

/// Relies on `crossterm::style::SetAttribute(Attribute::NoBlink)::write_ansi`,
/// which writes the attribute's SGR value: `ESC [ 25 m`.
#[verifier::external_body]
pub(crate) fn no_blink_code() -> (r: Vec<u8>)
    ensures
        r@ == no_blink_spec(),
{
    let mut s = String::new();
    let _ = crossterm::style::SetAttribute(crossterm::style::Attribute::NoBlink).write_ansi(&mut s);
    s.into_bytes()
}

/// Relies on `crossterm::cursor::Hide::write_ansi`, which writes `ESC [ ? 25 l`.
#[verifier::external_body]
pub(crate) fn hide_cursor_code() -> (r: Vec<u8>)
    ensures
        r@ == hide_cursor_spec(),
{
    let mut s = String::new();
    let _ = crossterm::cursor::Hide.write_ansi(&mut s);
    s.into_bytes()
}

/// Relies on `crossterm::terminal::DisableLineWrap::write_ansi`, which writes
/// `ESC [ ? 7 l`.
#[verifier::external_body]
pub(crate) fn disable_line_wrap_code() -> (r: Vec<u8>)
    ensures
        r@ == disable_line_wrap_spec(),
{
    let mut s = String::new();
    let _ = crossterm::terminal::DisableLineWrap.write_ansi(&mut s);
    s.into_bytes()
}

} // verus!
