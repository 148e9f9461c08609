//! Quantized colours and their text.

use crate::decimal::{decimal, push_decimal};
use vstd::prelude::*;
use vstd::string::StringExecFns;

verus! {

/// A colour of three 8-bit channels.
#[derive(Debug, Copy, Clone, PartialEq, Eq, Structural)]
pub struct Color {
    pub r: u8,
    pub g: u8,
    pub b: u8,
}

/// The channel value nearest to `x`: `x` itself inside `0..=255`, else the
/// end of that range on the side of `x`.
pub open spec fn narrow(x: int) -> u8 {
    if x < 0 {
        0u8
    } else if x > 255 {
        255u8
    } else {
        x as u8
    }
}

fn narrow_channel(x: i64) -> (c: u8)
    ensures
        c == narrow(x as int),
{
    if x < 0 {
        0
    } else if x > 255 {
        255
    } else {
        x as u8
    }
}

impl Color {
    /// The colour with the given channels, taken as they are.
    pub fn new(r: u8, g: u8, b: u8) -> (color: Self)
        ensures
            color == (Color { r, g, b }),
    {
        Self { r, g, b }
    }

    /// The colour of three scaled intensities, each brought into `0..=255`:
    /// an intensity below the range gives 0, one above it gives 255.
    pub fn saturating(r: i64, g: i64, b: i64) -> (color: Self)
        ensures
            color == (Color { r: narrow(r as int), g: narrow(g as int), b: narrow(b as int) }),
    {
        Self { r: narrow_channel(r), g: narrow_channel(g), b: narrow_channel(b) }
    }

    /// The text of the colour: its three channels in decimal, in the order
    /// red, green, blue, with one space between two of them.
    pub open spec fn text(self) -> Seq<char> {
        decimal(self.r as nat) + seq![' '] + decimal(self.g as nat) + seq![' '] + decimal(
            self.b as nat,
        )
    }

    /// Writes the colour as one line of a pixel stream, without the line's end.
    pub fn to_text(&self) -> (line: String)
        ensures
            line@ == self.text(),
    {
        let mut line = String::new();
        self.push_text(&mut line);
        line
    }

    /// Appends the colour's text to `out`.
    pub fn push_text(&self, out: &mut String)
        ensures
            final(out)@ == old(out)@ + self.text(),
    {
        proof {
            reveal_strlit(" ");
        }
        push_decimal(out, self.r as u32);
        out.append(" ");
        push_decimal(out, self.g as u32);
        out.append(" ");
        push_decimal(out, self.b as u32);
        assert(out@ =~= old(out)@ + self.text());
    }
}

} // verus!
