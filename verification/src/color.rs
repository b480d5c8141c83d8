//! A 32-bit colour with four 8-bit channels.
//!
//! The value is kept as one word in the order the graphics engine reads:
//! red in the lowest byte, then green, blue, and alpha in the highest.

use vstd::prelude::*;

verus! {

/// The word `x` with its four bytes in reverse order.
pub open spec fn reverse_bytes(x: u32) -> u32 {
    ((x & 0xff) << 24) | ((x & 0xff00) << 8) | ((x >> 8) & 0xff00) | (x >> 24)
}

/// The word whose bytes, from the highest down, are `r`, `g`, `b`, `a`.
pub open spec fn rgba_word(r: u8, g: u8, b: u8, a: u8) -> u32 {
    ((r as u32) << 24) | ((g as u32) << 16) | ((b as u32) << 8) | (a as u32)
}

/// The word whose bytes, from the highest down, are `a`, `b`, `g`, `r`.
pub open spec fn abgr_word(r: u8, g: u8, b: u8, a: u8) -> u32 {
    ((a as u32) << 24) | ((b as u32) << 16) | ((g as u32) << 8) | (r as u32)
}

/// Reverses the bytes of a word.
pub fn swap_word(x: u32) -> (y: u32)
    ensures
        y == reverse_bytes(x),
{
    ((x & 0xff) << 24) | ((x & 0xff00) << 8) | ((x >> 8) & 0xff00) | (x >> 24)
}

/// A colour of four 8-bit channels.
#[derive(Clone, Copy, Debug, PartialEq, Eq, Structural)]
pub struct Color32(u32);

impl Color32 {
    /// The colour as one word, alpha in the highest byte and red in the lowest.
    pub closed spec fn word(self) -> u32 {
        self.0
    }

    /// The colour as one word, red in the highest byte and alpha in the
    /// lowest.
    pub open spec fn rgba(self) -> u32 {
        reverse_bytes(self.word())
    }

    /// The colour whose word, alpha in the highest byte, is `x`.
    pub closed spec fn of_abgr(x: u32) -> Color32 {
        Color32(x)
    }

    /// The colour whose word, red in the highest byte, is `x`.
    pub open spec fn of_rgba(x: u32) -> Color32 {
        Color32::of_abgr(reverse_bytes(x))
    }

    /// The opaque colour whose red, green and blue are the low three bytes
    /// of `x`, red the highest of them.
    pub open spec fn of_rgb(x: u32) -> Color32 {
        Color32::of_rgba((x << 8) | 0xff)
    }

    /// The colour of a word has that word.
    pub proof fn lemma_word(x: u32)
        ensures
            Color32::of_abgr(x).word() == x,
    {
    }

    /// The red channel.
    pub open spec fn channel_r(self) -> u8 {
        (self.word() & 0xff) as u8
    }

    /// The green channel.
    pub open spec fn channel_g(self) -> u8 {
        ((self.word() >> 8) & 0xff) as u8
    }

    /// The blue channel.
    pub open spec fn channel_b(self) -> u8 {
        ((self.word() >> 16) & 0xff) as u8
    }

    /// The alpha channel.
    pub open spec fn channel_a(self) -> u8 {
        ((self.word() >> 24) & 0xff) as u8
    }

    /// The colour that `x` gives, read as red, green, blue, alpha from the
    /// highest byte down.
    pub fn from_rgba(x: u32) -> (c: Color32)
        ensures
            c == Color32::of_rgba(x),
            c.word() == reverse_bytes(x),
            x == rgba_word(c.channel_r(), c.channel_g(), c.channel_b(), c.channel_a()),
    {
        let w: u32 = swap_word(x);
        assert(x == rgba_word(
            (w & 0xff) as u8,
            ((w >> 8) & 0xff) as u8,
            ((w >> 16) & 0xff) as u8,
            ((w >> 24) & 0xff) as u8,
        )) by (bit_vector)
            requires
                w == ((x & 0xff) << 24) | ((x & 0xff00) << 8) | ((x >> 8) & 0xff00) | (x >> 24),
        ;
        Color32(w)
    }

    /// The colour that `x` gives, read as alpha, blue, green, red from the
    /// highest byte down.
    pub fn from_abgr(x: u32) -> (c: Color32)
        ensures
            c == Color32::of_abgr(x),
            c.word() == x,
            x == abgr_word(c.channel_r(), c.channel_g(), c.channel_b(), c.channel_a()),
    {
        assert(x == abgr_word(
            (x & 0xff) as u8,
            ((x >> 8) & 0xff) as u8,
            ((x >> 16) & 0xff) as u8,
            ((x >> 24) & 0xff) as u8,
        )) by (bit_vector);
        Color32(x)
    }

    /// The opaque colour that the low 24 bits of `x` give, read as red,
    /// green, blue from the highest of those three bytes down. The highest
    /// byte of `x` is not read.
    pub fn from_rgb(x: u32) -> (c: Color32)
        ensures
            c == Color32::of_rgb(x),
            c.channel_a() == 0xff,
            c.channel_r() == ((x >> 16) & 0xff) as u8,
            c.channel_g() == ((x >> 8) & 0xff) as u8,
            c.channel_b() == (x & 0xff) as u8,
            c.word() == reverse_bytes((x << 8) | 0xff),
    {
        let w: u32 = swap_word((x << 8) | 0xff);
        assert({
            &&& ((w >> 24) & 0xff) as u8 == 0xffu8
            &&& (w & 0xff) as u8 == ((x >> 16) & 0xff) as u8
            &&& ((w >> 8) & 0xff) as u8 == ((x >> 8) & 0xff) as u8
            &&& ((w >> 16) & 0xff) as u8 == (x & 0xff) as u8
        }) by (bit_vector)
            requires
                w == ((((x << 8) | 0xff) & 0xff) << 24) | ((((x << 8) | 0xff) & 0xff00) << 8) | ((((x
                    << 8) | 0xff) >> 8) & 0xff00) | (((x << 8) | 0xff) >> 24),
        ;
        Color32(w)
    }

    /// The colour as a word with red in the highest byte and alpha in the
    /// lowest.
    pub fn as_rgba(&self) -> (x: u32)
        ensures
            x == self.rgba(),
            x == rgba_word(self.channel_r(), self.channel_g(), self.channel_b(), self.channel_a()),
    {
        let w: u32 = self.0;
        let x: u32 = swap_word(w);
        assert(x == rgba_word(
            (w & 0xff) as u8,
            ((w >> 8) & 0xff) as u8,
            ((w >> 16) & 0xff) as u8,
            ((w >> 24) & 0xff) as u8,
        )) by (bit_vector)
            requires
                x == ((w & 0xff) << 24) | ((w & 0xff00) << 8) | ((w >> 8) & 0xff00) | (w >> 24),
        ;
        x
    }

    /// The colour as a word with alpha in the highest byte and red in the
    /// lowest.
    pub fn as_abgr(&self) -> (x: u32)
        ensures
            x == self.word(),
            x == abgr_word(self.channel_r(), self.channel_g(), self.channel_b(), self.channel_a()),
    {
        let x: u32 = self.0;
        assert(x == abgr_word(
            (x & 0xff) as u8,
            ((x >> 8) & 0xff) as u8,
            ((x >> 16) & 0xff) as u8,
            ((x >> 24) & 0xff) as u8,
        )) by (bit_vector);
        x
    }

    /// The red channel.
    pub fn r(&self) -> (v: u8)
        ensures
            v == self.channel_r(),
    {
        (self.0 & 0xff) as u8
    }

    /// The green channel.
    pub fn g(&self) -> (v: u8)
        ensures
            v == self.channel_g(),
    {
        ((self.0 >> 8) & 0xff) as u8
    }

    /// The blue channel.
    pub fn b(&self) -> (v: u8)
        ensures
            v == self.channel_b(),
    {
        ((self.0 >> 16) & 0xff) as u8
    }

    /// The alpha channel.
    pub fn a(&self) -> (v: u8)
        ensures
            v == self.channel_a(),
    {
        ((self.0 >> 24) & 0xff) as u8
    }

    /// Opaque black.
    pub fn black() -> (c: Color32)
        ensures
            c == Color32::of_rgba(0x000000ff),
    {
        Color32::from_rgba(0x000000ff)
    }

    /// Opaque white.
    pub fn white() -> (c: Color32)
        ensures
            c == Color32::of_rgba(0xffffffff),
    {
        Color32::from_rgba(0xffffffff)
    }

    /// Opaque red.
    pub fn red() -> (c: Color32)
        ensures
            c == Color32::of_rgba(0xff0000ff),
    {
        Color32::from_rgba(0xff0000ff)
    }

    /// Opaque green.
    pub fn green() -> (c: Color32)
        ensures
            c == Color32::of_rgba(0x00ff00ff),
    {
        Color32::from_rgba(0x00ff00ff)
    }

    /// Opaque blue.
    pub fn blue() -> (c: Color32)
        ensures
            c == Color32::of_rgba(0x0000ffff),
    {
        Color32::from_rgba(0x0000ffff)
    }

    /// Opaque yellow.
    pub fn yellow() -> (c: Color32)
        ensures
            c == Color32::of_rgba(0xffff00ff),
    {
        Color32::from_rgba(0xffff00ff)
    }

    /// Opaque cyan.
    pub fn cyan() -> (c: Color32)
        ensures
            c == Color32::of_rgba(0x00ffffff),
    {
        Color32::from_rgba(0x00ffffff)
    }

    /// Opaque magenta.
    pub fn magenta() -> (c: Color32)
        ensures
            c == Color32::of_rgba(0xff00ffff),
    {
        Color32::from_rgba(0xff00ffff)
    }

    /// Opaque purple.
    pub fn purple() -> (c: Color32)
        ensures
            c == Color32::of_rgba(0x800080ff),
    {
        Color32::from_rgba(0x800080ff)
    }

    /// Opaque orange.
    pub fn orange() -> (c: Color32)
        ensures
            c == Color32::of_rgba(0xffa500ff),
    {
        Color32::from_rgba(0xffa500ff)
    }

    /// Opaque brown.
    pub fn brown() -> (c: Color32)
        ensures
            c == Color32::of_rgba(0xa52a2aff),
    {
        Color32::from_rgba(0xa52a2aff)
    }

    /// Opaque pink.
    pub fn pink() -> (c: Color32)
        ensures
            c == Color32::of_rgba(0xffc0cbff),
    {
        Color32::from_rgba(0xffc0cbff)
    }

    /// Opaque gray.
    pub fn gray() -> (c: Color32)
        ensures
            c == Color32::of_rgba(0x808080ff),
    {
        Color32::from_rgba(0x808080ff)
    }

    /// Opaque light gray.
    pub fn light_gray() -> (c: Color32)
        ensures
            c == Color32::of_rgba(0xd3d3d3ff),
    {
        Color32::from_rgba(0xd3d3d3ff)
    }

    /// Opaque dark gray.
    pub fn dark_gray() -> (c: Color32)
        ensures
            c == Color32::of_rgba(0x404040ff),
    {
        Color32::from_rgba(0x404040ff)
    }

    /// Black with no opacity at all.
    pub fn transparent() -> (c: Color32)
        ensures
            c == Color32::of_rgba(0x00000000),
    {
        Color32::from_rgba(0x00000000)
    }
}

/// Reversing the bytes of a word twice gives the word back.
pub proof fn lemma_reverse_bytes_involutive(x: u32)
    ensures
        reverse_bytes(reverse_bytes(x)) == x,
{
    assert(reverse_bytes(reverse_bytes(x)) == x) by (bit_vector);
}

/// A colour made from a word in red-first order gives that word back in
/// red-first order.
pub proof fn lemma_rgba_round_trip(c: u32)
    ensures
        Color32::of_rgba(c).rgba() == c,
{
    Color32::lemma_word(reverse_bytes(c));
    lemma_reverse_bytes_involutive(c);
}

/// A colour made from a word in alpha-first order gives that word back in
/// alpha-first order.
pub proof fn lemma_abgr_round_trip(c: u32)
    ensures
        Color32::of_abgr(c).word() == c,
{
    Color32::lemma_word(c);
}

/// A colour made from red, green and blue is opaque, and its red, green and
/// blue are the three low bytes that it was made from, red the highest.
pub proof fn lemma_rgb_channels(x: u32)
    ensures
        Color32::of_rgb(x).channel_a() == 0xff,
        Color32::of_rgb(x).channel_r() == ((x >> 16) & 0xff) as u8,
        Color32::of_rgb(x).channel_g() == ((x >> 8) & 0xff) as u8,
        Color32::of_rgb(x).channel_b() == (x & 0xff) as u8,
{
    let w: u32 = reverse_bytes((x << 8) | 0xff);
    Color32::lemma_word(w);
    assert({
        &&& ((w >> 24) & 0xff) as u8 == 0xffu8
        &&& (w & 0xff) as u8 == ((x >> 16) & 0xff) as u8
        &&& ((w >> 8) & 0xff) as u8 == ((x >> 8) & 0xff) as u8
        &&& ((w >> 16) & 0xff) as u8 == (x & 0xff) as u8
    }) by (bit_vector)
        requires
            w == ((((x << 8) | 0xff) & 0xff) << 24) | ((((x << 8) | 0xff) & 0xff00) << 8) | ((((x
                << 8) | 0xff) >> 8) & 0xff00) | (((x << 8) | 0xff) >> 24),
    ;
}

} // verus!
