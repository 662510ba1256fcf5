//! Colors and image-format tags.

use vstd::arithmetic::div_mod::lemma_div_denominator;
use vstd::prelude::*;
use vstd::string::StringExecFns;

verus! {

/// A tag naming an image format; no behavior is attached.
#[derive(Clone, Copy, Debug, PartialEq, Eq, Structural)]
pub enum ImageType {
    Png,
    Jpeg,
    Tiff,
}

/// A color: either three 8-bit channels, or no payload at all.
#[derive(Clone, Copy, Debug, PartialEq, Eq, Structural)]
pub enum Color {
    Rgb(u8, u8, u8),
    Transparent,
}

/// The channel triple of an `Rgb` color; `None` for `Transparent`.
pub fn rgb_channels(c: &Color) -> (res: Option<(u8, u8, u8)>)
    ensures
        res == (match *c {
            Color::Rgb(r, g, b) => Some((r, g, b)),
            Color::Transparent => None::<(u8, u8, u8)>,
        }),
{
    match *c {
        Color::Rgb(r, g, b) => Some((r, g, b)),
        Color::Transparent => None,
    }
}

/// The character for the decimal digit `d`.
pub open spec fn digit_char(d: int) -> char
    recommends
        0 <= d < 10,
{
    if d == 0 {
        '0'
    } else if d == 1 {
        '1'
    } else if d == 2 {
        '2'
    } else if d == 3 {
        '3'
    } else if d == 4 {
        '4'
    } else if d == 5 {
        '5'
    } else if d == 6 {
        '6'
    } else if d == 7 {
        '7'
    } else if d == 8 {
        '8'
    } else {
        '9'
    }
}

/// The decimal representation of `n`, most significant digit first,
/// with no leading zero except for `n == 0` itself.
pub open spec fn dec_seq(n: int) -> Seq<char>
    recommends
        0 <= n,
    decreases n,
{
    if n < 10 {
        seq![digit_char(n)]
    } else {
        dec_seq(n / 10).push(digit_char(n % 10))
    }
}

/// The one-character string for the decimal digit `d`.
fn digit_str(d: u8) -> (res: &'static str)
    requires
        d < 10,
    ensures
        res@ == seq![digit_char(d as int)],
{
    proof {
        reveal_strlit("0");
        reveal_strlit("1");
        reveal_strlit("2");
        reveal_strlit("3");
        reveal_strlit("4");
        reveal_strlit("5");
        reveal_strlit("6");
        reveal_strlit("7");
        reveal_strlit("8");
        reveal_strlit("9");
    }
    let res: &'static str = match d {
        0 => "0",
        1 => "1",
        2 => "2",
        3 => "3",
        4 => "4",
        5 => "5",
        6 => "6",
        7 => "7",
        8 => "8",
        _ => "9",
    };
    proof {
        assert(res@ =~= seq![digit_char(d as int)]);
    }
    res
}

/// The decimal representation of `n` as a string.
pub fn u8_decimal(n: u8) -> (res: String)
    ensures
        res@ == dec_seq(n as int),
{
    let mut s = String::new();
    if n >= 100 {
        s.append(digit_str(n / 100));
    }
    if n >= 10 {
        s.append(digit_str((n / 10) % 10));
    }
    s.append(digit_str(n % 10));
    proof {
        let m = n as int;
        if n >= 100 {
            lemma_div_denominator(m, 10, 10);
            assert(dec_seq(m) == dec_seq(m / 10).push(digit_char(m % 10)));
            assert(dec_seq(m / 10) == dec_seq(m / 10 / 10).push(digit_char(m / 10 % 10)));
            assert(dec_seq(m / 100) == seq![digit_char(m / 100)]);
            assert(s@ =~= dec_seq(m));
        } else if n >= 10 {
            assert(dec_seq(m) == dec_seq(m / 10).push(digit_char(m % 10)));
            assert(dec_seq(m / 10) == seq![digit_char(m / 10)]);
            assert(s@ =~= dec_seq(m));
        } else {
            assert(s@ =~= dec_seq(m));
        }
    }
    s
}

/// The printable label of a color: the three channels in decimal,
/// separated by `/`, or the fixed text for the no-payload variant.
pub open spec fn color_label_spec(c: Color) -> Seq<char> {
    match c {
        Color::Rgb(r, g, b) => dec_seq(r as int) + seq!['/'] + dec_seq(g as int) + seq!['/']
            + dec_seq(b as int),
        Color::Transparent => "No Color"@,
    }
}

/// Formats a color as its label: `255/0/0` style for `Rgb`, the fixed
/// `No Color` text for `Transparent`.
pub fn color_label(c: &Color) -> (res: String)
    ensures
        res@ == color_label_spec(*c),
{
    match *c {
        Color::Rgb(r, g, b) => {
            let mut s = u8_decimal(r);
            s.append("/");
            let sg = u8_decimal(g);
            s.append(sg.as_str());
            s.append("/");
            let sb = u8_decimal(b);
            s.append(sb.as_str());
            proof {
                reveal_strlit("/");
                assert(s@ =~= color_label_spec(*c));
            }
            s
        },
        Color::Transparent => String::from_str("No Color"),
    }
}

} // verus!
