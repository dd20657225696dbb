use colored::Colorize;
use vstd::prelude::*;

verus! {

/// A terminal foreground colour.
#[derive(Clone, Copy, Debug, PartialEq, Eq, Structural)]
pub enum Hue {
    Red,
    Green,
    Yellow,
    Blue,
    Purple,
    Magenta,
    Cyan,
}

/// The second digit of the colour's SGR code `3x` (purple and magenta share one).
pub open spec fn hue_digit(h: Hue) -> char {
    match h {
        Hue::Red => '1',
        Hue::Green => '2',
        Hue::Yellow => '3',
        Hue::Blue => '4',
        Hue::Purple => '5',
        Hue::Magenta => '5',
        Hue::Cyan => '6',
    }
}

/// The escape sequence that switches the foreground to `h`.
pub open spec fn sgr(h: Hue) -> Seq<char> {
    seq!['\x1b', '[', '3', hue_digit(h), 'm']
}

/// The escape sequence that resets all attributes.
pub open spec fn reset() -> Seq<char> {
    seq!['\x1b', '[', '0', 'm']
}

/// `r` is `s` drawn in `h`: opened by `h`'s sequence, closed by a reset, and,
/// where `s` holds no reset of its own, nothing but `s` in between.
pub open spec fn painted(r: Seq<char>, s: Seq<char>, h: Hue) -> bool {
    &&& r.len() >= sgr(h).len() + reset().len()
    &&& r.subrange(0, sgr(h).len() as int) == sgr(h)
    &&& r.subrange(r.len() - reset().len(), r.len() as int) == reset()
    &&& (!crate::text::holds(s, reset()) ==> r == sgr(h) + s + reset())
    &&& forall|i: int|
        0 <= i < r.len() ==> s.contains(#[trigger] r[i]) || sgr(h).contains(r[i])
            || reset().contains(r[i])
}

/// `r` is `s` either as it is (colouring is off) or drawn in `h`.
pub open spec fn shaded(r: Seq<char>, s: Seq<char>, h: Hue) -> bool {
    r == s || painted(r, s, h)
}

/// Relies on colored's `Colorize::color` and the `Display` of the
/// `ColoredString` it returns: with colouring off (no terminal, `NO_COLOR`,
/// `CLICOLOR=0`) the text as it is; with it on, the colour's escape sequence,
/// the text with each inner reset followed by that sequence again, and a reset.
/// colored decides once per process unless a caller flips its override.
#[verifier::external_body]
pub(crate) fn paint(s: &str, h: Hue) -> (r: String)
    ensures
        shaded(r@, s@, h),
{
    let c = match h {
        Hue::Red => colored::Color::Red,
        Hue::Green => colored::Color::Green,
        Hue::Yellow => colored::Color::Yellow,
        Hue::Blue => colored::Color::Blue,
        Hue::Purple => colored::Color::Magenta,
        Hue::Magenta => colored::Color::Magenta,
        Hue::Cyan => colored::Color::Cyan,
    };
    s.color(c).to_string()
}

} // verus!
