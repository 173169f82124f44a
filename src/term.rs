//! Text for the terminal: decimal numbers and the control sequences that
//! clear the screen, place the cursor and hide it.

use vstd::prelude::*;

verus! {

/// The character of the decimal digit `d`.
pub open spec fn digit_char(d: int) -> char {
    if d == 0 {
        '0'
    } else if d == 1 {
        '1'
    } else if d == 2 {
        '2'
    } else if d == 3 {
        '3'
    } else if d == 4 {
        '4'
    } else if d == 5 {
        '5'
    } else if d == 6 {
        '6'
    } else if d == 7 {
        '7'
    } else if d == 8 {
        '8'
    } else {
        '9'
    }
}

/// `n` in decimal, without leading zeros.
pub open spec fn dec(n: nat) -> Seq<char>
    decreases n,
{
    if n < 10 {
        seq![digit_char(n as int)]
    } else {
        dec(n / 10).push(digit_char((n % 10) as int))
    }
}

/// The sequence that moves the cursor to column `col` and row `row`, both
/// counted from one.
pub open spec fn goto_seq(col: u16, row: u16) -> Seq<char> {
    seq!['\x1b', '['] + dec(row as nat) + seq![';'] + dec(col as nat) + seq!['H']
}

/// The sequence that hides the cursor.
pub open spec fn hide_seq() -> Seq<char> {
    seq!['\x1b', '[', '?', '2', '5', 'l']
}

/// The sequence that clears the whole screen.
pub open spec fn clear_seq() -> Seq<char> {
    seq!['\x1b', '[', '2', 'J']
}

/// Relies on std's `Display` for `u64`: the number in decimal.
#[verifier::external_body]
pub(crate) fn decimal(n: u64) -> (r: String)
    ensures
        r@ == dec(n as nat),
{
    format!("{}", n)
}

/// Relies on termion's `cursor::Goto`, which prints `ESC [ row ; col H` and
/// asserts in debug builds that the position is not `(0, 0)`.
#[verifier::external_body]
pub(crate) fn goto_code(col: u16, row: u16) -> (r: String)
    requires
        col != 0 || row != 0,
    ensures
        r@ == goto_seq(col, row),
{
    format!("{}", termion::cursor::Goto(col, row))
}

/// Relies on termion's `cursor::Hide`, which prints `ESC [ ? 2 5 l`.
#[verifier::external_body]
pub(crate) fn hide_code() -> (r: String)
    ensures
        r@ == hide_seq(),
{
    format!("{}", termion::cursor::Hide)
}

/// Relies on termion's `clear::All`, which prints `ESC [ 2 J`.
#[verifier::external_body]
pub(crate) fn clear_code() -> (r: String)
    ensures
        r@ == clear_seq(),
{
    format!("{}", termion::clear::All)
}

/// Hundredths in the magnitude of the fixed-point value `a`, rounded to the
/// nearest, halves up.
pub open spec fn hundredths(a: int) -> int {
    (crate::vec2::abs(a) * 100 + crate::vec2::SCALE / 2) / (crate::vec2::SCALE as int)
}

/// The fixed-point value `a` in decimal with two places after the point.
pub open spec fn two_places(a: int) -> Seq<char> {
    let m = hundredths(a);
    (if a < 0 { seq!['-'] } else { Seq::<char>::empty() }) + dec((m / 100) as nat) + seq!['.']
        + dec(((m % 100) / 10) as nat) + dec((m % 10) as nat)
}

/// The fixed-point value `a` in decimal with two places after the point.
pub(crate) fn two_places_text(a: i64) -> (r: String)
    ensures
        r@ == two_places(a as int),
{
    let wide: i128 = a as i128;
    let ua: u128 = if wide < 0 { (-wide) as u128 } else { wide as u128 };
    assert(ua * 100 + 500_000 <= 0x1_0000_0000_0000_0000_0000) by (nonlinear_arith)
        requires
            ua <= 0x8000_0000_0000_0000,
    ;
    let m128: u128 = (ua * 100 + 500_000) / 1_000_000;
    assert(m128 <= ua * 100 + 500_000) by (nonlinear_arith)
        requires
            m128 == (ua * 100 + 500_000) / 1_000_000,
    ;
    assert(m128 * 1_000_000 <= ua * 100 + 500_000) by (nonlinear_arith)
        requires
            m128 == (ua * 100 + 500_000) / 1_000_000,
    ;
    assert(m128 <= 0x10_0000_0000_0000);
    let m: u64 = m128 as u64;
    let mut out = String::new();
    if a < 0 {
        out.append("-");
        proof {
            reveal_strlit("-");
        }
    }
    let whole = decimal(m / 100);
    out.append(whole.as_str());
    out.append(".");
    proof {
        reveal_strlit(".");
    }
    let tenths = decimal((m % 100) / 10);
    out.append(tenths.as_str());
    let last = decimal(m % 10);
    out.append(last.as_str());
    assert(out@ =~= two_places(a as int));
    out
}

} // verus!
