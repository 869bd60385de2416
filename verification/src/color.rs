//! Immutable 24-bit colors: three 8-bit channels, packing to and from a
//! `0xRRGGBB` word, and brightness scaling by a fixed-point factor.

use vstd::prelude::*;
use crate::fixed::{div_trunc, fx_tdiv};
use vstd::arithmetic::div_mod::{
    lemma_div_multiples_vanish_fancy, lemma_fundamental_div_mod, lemma_small_mod,
};

verus! {

#[derive(Clone, Copy, Debug, PartialEq, Eq, Structural)]
pub struct Color {
    pub r: u8,
    pub g: u8,
    pub b: u8,
}

pub open spec fn color_to_hex_spec(c: Color) -> int {
    (c.r as int) * 0x10000 + (c.g as int) * 0x100 + (c.b as int)
}

pub open spec fn color_from_hex_spec(h: int) -> Color {
    Color {
        r: ((h / 0x10000) % 0x100) as u8,
        g: ((h / 0x100) % 0x100) as u8,
        b: (h % 0x100) as u8,
    }
}

/// One channel scaled by a fixed-point brightness factor, clamped to the
/// channel range; a negative factor darkens to zero.
pub open spec fn scale_channel_spec(ch: int, l: int) -> int {
    let lm = if l > 0 { l } else { 0 };
    let q = div_trunc(ch * lm, 65536);
    if q > 255 {
        255
    } else {
        q
    }
}

pub open spec fn color_scale_spec(c: Color, l: int) -> Color {
    Color {
        r: scale_channel_spec(c.r as int, l) as u8,
        g: scale_channel_spec(c.g as int, l) as u8,
        b: scale_channel_spec(c.b as int, l) as u8,
    }
}

impl Color {
    pub fn new(r: u8, g: u8, b: u8) -> (c: Color)
        ensures
            c == (Color { r, g, b }),
    {
        Color { r, g, b }
    }

    /// Pack the channels into a `0xRRGGBB` word.
    pub fn to_hex(&self) -> (h: u32)
        ensures
            h as int == color_to_hex_spec(*self),
            h < 0x1000000,
    {
        (self.r as u32) * 0x10000 + (self.g as u32) * 0x100 + (self.b as u32)
    }

    /// Unpack a `0xRRGGBB` word; bits above the low 24 are ignored.
    pub fn from_hex(h: u32) -> (c: Color)
        ensures
            c == color_from_hex_spec(h as int),
    {
        let r: u32 = (h / 0x10000) % 0x100;
        let g: u32 = (h / 0x100) % 0x100;
        let b: u32 = h % 0x100;
        Color { r: r as u8, g: g as u8, b: b as u8 }
    }

    /// Scale every channel by the fixed-point factor `l`, saturating at the
    /// channel maximum; a factor of `FX_ONE` leaves the color unchanged
    /// only up to the truncation of fractions.
    pub fn scale(&self, l: i64) -> (c: Color)
        ensures
            c == color_scale_spec(*self, l as int),
    {
        let lm: i64 = if l > 0 {
            l
        } else {
            0
        };
        Color {
            r: scale_channel(self.r, lm),
            g: scale_channel(self.g, lm),
            b: scale_channel(self.b, lm),
        }
    }
}

fn scale_channel(ch: u8, lm: i64) -> (r: u8)
    requires
        lm >= 0,
    ensures
        r as int == scale_channel_spec(ch as int, lm as int),
{
    proof {
        crate::fixed::lemma_mul_bound(ch as int, lm as int, 255, 0x8000_0000_0000_0000);
    }
    let p: i128 = (ch as i128) * (lm as i128);
    let q: i128 = fx_tdiv(p, 65536);
    if q > 255 {
        255
    } else {
        q as u8
    }
}

/// Unpacking a packed color recovers the original channels exactly.
pub proof fn lemma_hex_round_trip(c: Color)
    ensures
        color_from_hex_spec(color_to_hex_spec(c)) == c,
{
    let h = color_to_hex_spec(c);
    assert(h / 0x10000 == c.r as int) by {
        assert((c.g as int) * 0x100 + (c.b as int) < 0x10000);
        assert(h == 0x10000 * (c.r as int) + ((c.g as int) * 0x100 + c.b as int));
        lemma_div_multiples_vanish_fancy(
            c.r as int,
            (c.g as int) * 0x100 + (c.b as int),
            0x10000,
        );
    }
    assert((c.r as int) % 0x100 == c.r as int) by {
        lemma_small_mod(c.r as nat, 0x100);
    }
    assert(h / 0x100 == (c.r as int) * 0x100 + c.g as int) by {
        assert(h == 0x100 * ((c.r as int) * 0x100 + c.g as int) + c.b as int);
        lemma_div_multiples_vanish_fancy(
            (c.r as int) * 0x100 + (c.g as int),
            (c.b as int),
            0x100,
        );
    }
    assert(((c.r as int) * 0x100 + c.g as int) % 0x100 == c.g as int) by {
        lemma_fundamental_div_mod((c.r as int) * 0x100 + c.g as int, 0x100);
        lemma_div_multiples_vanish_fancy(c.r as int, c.g as int, 0x100);
    }
    assert(h % 0x100 == c.b as int) by {
        lemma_fundamental_div_mod(h, 0x100);
        lemma_div_multiples_vanish_fancy(
            (c.r as int) * 0x10000 / 0x100 + (c.g as int),
            (c.b as int),
            0x100,
        );
        assert(h == 0x100 * ((c.r as int) * 0x100 + c.g as int) + c.b as int);
    }
}

/// Packing the channels recovered from a 24-bit word gives that word back.
pub proof fn lemma_hex_round_trip_word(h: int)
    requires
        0 <= h < 0x1000000,
    ensures
        color_to_hex_spec(color_from_hex_spec(h)) == h,
{
    lemma_fundamental_div_mod(h, 0x100);
    lemma_fundamental_div_mod(h / 0x100, 0x100);
    assert(h / 0x100 / 0x100 == h / 0x10000) by {
        vstd::arithmetic::div_mod::lemma_div_denominator(h, 0x100, 0x100);
    }
    assert(h / 0x10000 < 0x100) by {
        vstd::arithmetic::div_mod::lemma_div_is_ordered(h, 0xffffff, 0x10000);
    }
    assert(h / 0x10000 >= 0) by {
        vstd::arithmetic::div_mod::lemma_div_pos_is_pos(h, 0x10000);
    }
    lemma_small_mod((h / 0x10000) as nat, 0x100);
}

} // verus!
