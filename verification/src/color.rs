//! An 8-bit-per-channel RGBA color and its plain-text rendering.

use vstd::prelude::*;
use vstd::string::StringExecFns;

verus! {

/// The decimal digit character for a value in `0 ..= 9`.
pub open spec fn dec_digit(d: int) -> char {
    if d == 0 {
        '0'
    } else if d == 1 {
        '1'
    } else if d == 2 {
        '2'
    } else if d == 3 {
        '3'
    } else if d == 4 {
        '4'
    } else if d == 5 {
        '5'
    } else if d == 6 {
        '6'
    } else if d == 7 {
        '7'
    } else if d == 8 {
        '8'
    } else {
        '9'
    }
}

/// The usual base-ten rendering of a non-negative integer, most
/// significant digit first and without leading zeros.
pub open spec fn dec_seq(n: int) -> Seq<char>
    decreases n,
{
    if n < 10 {
        seq![dec_digit(n)]
    } else {
        dec_seq(n / 10) + seq![dec_digit(n % 10)]
    }
}

/// A color with four 8-bit channels.
#[derive(Debug, Clone, Copy, PartialEq, Eq, Structural)]
pub struct RGBAColor {
    pub red: u8,
    pub green: u8,
    pub blue: u8,
    pub alpha: u8,
}

/// The `"red green blue"` rendering of a color: the three channels in
/// decimal, separated by single spaces, with no trailing space.
pub open spec fn rgb_chars(c: RGBAColor) -> Seq<char> {
    dec_seq(c.red as int) + seq![' '] + dec_seq(c.green as int) + seq![' '] + dec_seq(
        c.blue as int,
    )
}

/// Appends the single decimal digit `d` to `s`.
fn append_digit(s: &mut String, d: u8)
    requires
        d < 10,
    ensures
        final(s)@ == old(s)@ + seq![dec_digit(d as int)],
{
    proof {
        reveal_strlit("0");
        reveal_strlit("1");
        reveal_strlit("2");
        reveal_strlit("3");
        reveal_strlit("4");
        reveal_strlit("5");
        reveal_strlit("6");
        reveal_strlit("7");
        reveal_strlit("8");
        reveal_strlit("9");
    }
    match d {
        0 => s.append("0"),
        1 => s.append("1"),
        2 => s.append("2"),
        3 => s.append("3"),
        4 => s.append("4"),
        5 => s.append("5"),
        6 => s.append("6"),
        7 => s.append("7"),
        8 => s.append("8"),
        _ => s.append("9"),
    }
    assert(final(s)@ =~= old(s)@ + seq![dec_digit(d as int)]);
}

/// Appends the decimal rendering of `n` to `s`.
pub fn append_decimal(s: &mut String, n: usize)
    ensures
        final(s)@ == old(s)@ + dec_seq(n as int),
    decreases n,
{
    if n >= 10 {
        append_decimal(s, n / 10);
        append_digit(s, (n % 10) as u8);
        assert(final(s)@ =~= old(s)@ + dec_seq(n as int));
    } else {
        append_digit(s, n as u8);
    }
}

impl RGBAColor {
    /// Builds a color from its four channels.
    pub fn new(red: u8, green: u8, blue: u8, alpha: u8) -> (c: Self)
        ensures
            c == (RGBAColor { red, green, blue, alpha }),
    {
        Self { red, green, blue, alpha }
    }

    /// The `"red green blue"` decimal rendering of the color.
    pub fn format_string(&self) -> (s: String)
        ensures
            s@ == rgb_chars(*self),
    {
        let mut s = String::new();
        append_decimal(&mut s, self.red as usize);
        proof {
            reveal_strlit(" ");
        }
        s.append(" ");
        append_decimal(&mut s, self.green as usize);
        s.append(" ");
        append_decimal(&mut s, self.blue as usize);
        assert(s@ =~= rgb_chars(*self));
        s
    }
}

impl Default for RGBAColor {
    /// The all-zero color: black with a fully transparent alpha channel.
    fn default() -> (c: Self)
        ensures
            c == (RGBAColor { red: 0, green: 0, blue: 0, alpha: 0 }),
    {
        Self { red: 0, green: 0, blue: 0, alpha: 0 }
    }
}

impl From<(u8, u8, u8, u8)> for RGBAColor {
    /// Reads the four channels from a tuple.
    fn from(value: (u8, u8, u8, u8)) -> (c: Self) {
        Self::new(value.0, value.1, value.2, value.3)
    }
}

impl vstd::std_specs::convert::FromSpecImpl<(u8, u8, u8, u8)> for RGBAColor {
    open spec fn obeys_from_spec() -> bool {
        true
    }

    open spec fn from_spec(value: (u8, u8, u8, u8)) -> Self {
        RGBAColor { red: value.0, green: value.1, blue: value.2, alpha: value.3 }
    }
}

impl From<(u8, u8, u8)> for RGBAColor {
    /// Reads the three color channels from a tuple; alpha is fully opaque.
    fn from(value: (u8, u8, u8)) -> (c: Self) {
        Self::new(value.0, value.1, value.2, 255)
    }
}

impl vstd::std_specs::convert::FromSpecImpl<(u8, u8, u8)> for RGBAColor {
    open spec fn obeys_from_spec() -> bool {
        true
    }

    open spec fn from_spec(value: (u8, u8, u8)) -> Self {
        RGBAColor { red: value.0, green: value.1, blue: value.2, alpha: 255 }
    }
}

} // verus!
