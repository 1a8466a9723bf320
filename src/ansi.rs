//! The terminal control sequences a frame uses, produced by crossterm's
//! commands, and their exact text.
use vstd::prelude::*;
use crossterm::Command;

verus! {

/// Which part of the screen a clear command erases.
#[derive(Clone, Copy, Debug, PartialEq, Eq, Structural)]
pub enum ClearKind {
    /// The whole screen.
    All,
    /// From the cursor to the end of its line.
    UntilNewLine,
}

pub open spec fn esc() -> char {
    '\x1b'
}

pub open spec fn hide_code() -> Seq<char> {
    seq![esc(), '[', '?', '2', '5', 'l']
}

pub open spec fn show_code() -> Seq<char> {
    seq![esc(), '[', '?', '2', '5', 'h']
}

pub open spec fn clear_code(kind: ClearKind) -> Seq<char> {
    match kind {
        ClearKind::All => seq![esc(), '[', '2', 'J'],
        ClearKind::UntilNewLine => seq![esc(), '[', 'K'],
    }
}

pub open spec fn digit(d: int) -> char {
    seq!['0', '1', '2', '3', '4', '5', '6', '7', '8', '9'][d]
}

/// The decimal digits of `n`, without leading zeros.
pub open spec fn decimal(n: nat) -> Seq<char>
    decreases n,
{
    if n < 10 {
        seq![digit(n as int)]
    } else {
        decimal(n / 10).push(digit((n % 10) as int))
    }
}

/// Moves the cursor to zero-based `column` and `row`; the sequence itself
/// counts from one and names the row first.
pub open spec fn move_to_code(column: nat, row: nat) -> Seq<char> {
    seq![esc(), '['] + decimal(row + 1) + seq![';'] + decimal(column + 1) + seq!['H']
}

/// Relies on `write_ansi` of crossterm's `cursor::Hide`: it writes `CSI ? 25 l`.
#[verifier::external_body]
pub(crate) fn hide_cursor() -> (r: String)
    ensures
        r@ == hide_code(),
{
    let mut s = String::new();
    let _ = crossterm::cursor::Hide.write_ansi(&mut s);
    s
}

/// Relies on `write_ansi` of crossterm's `cursor::Show`: it writes `CSI ? 25 h`.
#[verifier::external_body]
pub(crate) fn show_cursor() -> (r: String)
    ensures
        r@ == show_code(),
{
    let mut s = String::new();
    let _ = crossterm::cursor::Show.write_ansi(&mut s);
    s
}

/// Relies on `write_ansi` of crossterm's `terminal::Clear`: `CSI 2 J` for
/// `ClearType::All`, `CSI K` for `ClearType::UntilNewLine`.
#[verifier::external_body]
pub(crate) fn clear(kind: ClearKind) -> (r: String)
    ensures
        r@ == clear_code(kind),
{
    let t = match kind {
        ClearKind::All => crossterm::terminal::ClearType::All,
        ClearKind::UntilNewLine => crossterm::terminal::ClearType::UntilNewLine,
    };
    let mut s = String::new();
    let _ = crossterm::terminal::Clear(t).write_ansi(&mut s);
    s
}

/// Relies on `write_ansi` of crossterm's `cursor::MoveTo(column, row)`: it
/// writes `CSI {row + 1} ; {column + 1} H` in decimal, adding in `u16`.
#[verifier::external_body]
pub(crate) fn move_to(column: u16, row: u16) -> (r: String)
    requires
        column < u16::MAX,
        row < u16::MAX,
    ensures
        r@ == move_to_code(column as nat, row as nat),
{
    let mut s = String::new();
    let _ = crossterm::cursor::MoveTo(column, row).write_ansi(&mut s);
    s
}

} // verus!
