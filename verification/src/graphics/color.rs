//! A 32-bit colour as a bare word, red in the lowest byte and alpha in the
//! highest.

use crate::color::{reverse_bytes, swap_word};
use vstd::prelude::*;

verus! {

/// A colour: its word, red in the lowest byte and alpha in the highest.
#[derive(Clone, Copy, Debug, PartialEq, Eq, Structural)]
pub struct Color(pub u32);

impl Color {
    /// Opaque black.
    pub fn black() -> (c: Color)
        ensures
            c.0 == reverse_bytes(0x000000ff),
    {
        Color::from_rgba(0x000000ff)
    }

    /// Opaque white.
    pub fn white() -> (c: Color)
        ensures
            c.0 == reverse_bytes(0xffffffff),
    {
        Color::from_rgba(0xffffffff)
    }

    /// Opaque red.
    pub fn red() -> (c: Color)
        ensures
            c.0 == reverse_bytes(0xff0000ff),
    {
        Color::from_rgba(0xff0000ff)
    }

    /// Opaque green.
    pub fn green() -> (c: Color)
        ensures
            c.0 == reverse_bytes(0x00ff00ff),
    {
        Color::from_rgba(0x00ff00ff)
    }

    /// Opaque blue.
    pub fn blue() -> (c: Color)
        ensures
            c.0 == reverse_bytes(0x0000ffff),
    {
        Color::from_rgba(0x0000ffff)
    }

    /// The colour that `x` gives, read as red, green, blue, alpha from the
    /// highest byte down.
    pub fn from_rgba(x: u32) -> (c: Color)
        ensures
            c.0 == reverse_bytes(x),
    {
        Color(swap_word(x))
    }

    /// The opaque colour that the low 24 bits of `x` give, read as red,
    /// green, blue from the highest of those three bytes down.
    pub fn from_rgb(x: u32) -> (c: Color)
        ensures
            c.0 == reverse_bytes((x << 8) | 0xff),
            c.0 >> 24 == 0xff,
            c.0 & 0xff == (x >> 16) & 0xff,
            (c.0 >> 8) & 0xff == (x >> 8) & 0xff,
            (c.0 >> 16) & 0xff == x & 0xff,
    {
        let w: u32 = swap_word((x << 8) | 0xff);
        assert({
            &&& w >> 24 == 0xff
            &&& w & 0xff == (x >> 16) & 0xff
            &&& (w >> 8) & 0xff == (x >> 8) & 0xff
            &&& (w >> 16) & 0xff == x & 0xff
        }) by (bit_vector)
            requires
                w == ((((x << 8) | 0xff) & 0xff) << 24) | ((((x << 8) | 0xff) & 0xff00) << 8) | ((((x
                    << 8) | 0xff) >> 8) & 0xff00) | (((x << 8) | 0xff) >> 24),
        ;
        Color(w)
    }

    /// The red channel.
    pub fn r(&self) -> (v: u8)
        ensures
            v == self.0 & 0xff,
    {
        let w: u32 = self.0;
        assert(w & 0xff < 256) by (bit_vector);
        (w & 0xff) as u8
    }

    /// The green channel.
    pub fn g(&self) -> (v: u8)
        ensures
            v == (self.0 >> 8) & 0xff,
    {
        let w: u32 = self.0;
        assert((w >> 8) & 0xff < 256) by (bit_vector);
        ((w >> 8) & 0xff) as u8
    }

    /// The blue channel.
    pub fn b(&self) -> (v: u8)
        ensures
            v == (self.0 >> 16) & 0xff,
    {
        let w: u32 = self.0;
        assert((w >> 16) & 0xff < 256) by (bit_vector);
        ((w >> 16) & 0xff) as u8
    }

    /// The alpha channel.
    pub fn a(&self) -> (v: u8)
        ensures
            v == self.0 >> 24,
    {
        let w: u32 = self.0;
        assert(w >> 24 < 256) by (bit_vector);
        (w >> 24) as u8
    }
}

} // verus!
