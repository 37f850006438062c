//! The pixel model: typed pixels of one, three or four channels, and the
//! integer forms of the two luminance formulas the engine uses.

use vstd::prelude::*;

verus! {

/// An RGB pixel.
#[derive(Debug, Clone, Copy, PartialEq, Eq, Structural)]
pub struct Rgb<T> {
    pub r: T,
    pub g: T,
    pub b: T,
}

/// An RGBA pixel.
#[derive(Debug, Clone, Copy, PartialEq, Eq, Structural)]
pub struct Rgba<T> {
    pub r: T,
    pub g: T,
    pub b: T,
    pub a: T,
}

/// A grey pixel.
#[derive(Debug, Clone, Copy, PartialEq, Eq, Structural)]
pub struct Luma<T> {
    pub l: T,
}

/// 8-bit RGB.
pub type Rgb8 = Rgb<u8>;

/// 8-bit RGBA, the canonical pixel of the engine.
pub type Rgba8 = Rgba<u8>;

/// 8-bit grey.
pub type Luma8 = Luma<u8>;

/// 16-bit RGB.
pub type Rgb16 = Rgb<u16>;

/// 16-bit RGBA.
pub type Rgba16 = Rgba<u16>;

/// 16-bit grey.
pub type Luma16 = Luma<u16>;

/// Relative luminance by the weights 0.2126, 0.7152 and 0.0722, rounded
/// down.
pub open spec fn luminance_of(r: int, g: int, b: int) -> int {
    (2126 * r + 7152 * g + 722 * b) / 10000
}

/// Grey value by the weights 0.299, 0.587 and 0.114, rounded to the nearest
/// integer.
pub open spec fn luma_of(r: int, g: int, b: int) -> int {
    (299 * r + 587 * g + 114 * b + 500) / 1000
}

/// The luminance of 8-bit channels is an 8-bit value, and that of a grey
/// colour is the grey itself.
pub proof fn lemma_luminance_range(r: u8, g: u8, b: u8)
    ensures
        0 <= luminance_of(r as int, g as int, b as int) <= 255,
        r == g && g == b ==> luminance_of(r as int, g as int, b as int) == r,
{
}

/// The grey value of 8-bit channels is an 8-bit value, and that of a grey
/// colour is the grey itself.
pub proof fn lemma_luma_range(r: u8, g: u8, b: u8)
    ensures
        0 <= luma_of(r as int, g as int, b as int) <= 255,
        r == g && g == b ==> luma_of(r as int, g as int, b as int) == r,
{
}

/// Computes `luminance_of` on 8-bit channels.
pub fn luminance_u8(r: u8, g: u8, b: u8) -> (y: u8)
    ensures
        y == luminance_of(r as int, g as int, b as int),
{
    proof {
        lemma_luminance_range(r, g, b);
    }
    let sum: u32 = 2126 * (r as u32) + 7152 * (g as u32) + 722 * (b as u32);
    (sum / 10000) as u8
}

/// Computes `luminance_of` on 16-bit channels.
pub fn luminance_u16(r: u16, g: u16, b: u16) -> (y: u16)
    ensures
        y == luminance_of(r as int, g as int, b as int),
{
    let sum: u32 = 2126 * (r as u32) + 7152 * (g as u32) + 722 * (b as u32);
    (sum / 10000) as u16
}

/// Computes `luma_of` on 8-bit channels.
pub fn luma_u8(r: u8, g: u8, b: u8) -> (y: u8)
    ensures
        y == luma_of(r as int, g as int, b as int),
{
    proof {
        lemma_luma_range(r, g, b);
    }
    let sum: u32 = 299 * (r as u32) + 587 * (g as u32) + 114 * (b as u32) + 500;
    (sum / 1000) as u8
}

/// A pixel: a fixed number of channels of one sample type.
pub trait Pixel: Copy + Sized {
    /// The type of one channel.
    type Subpixel: Copy;

    /// The number of channels: one, three or four.
    spec fn spec_channel_count() -> nat;

    /// Whether the last channel is alpha.
    spec fn spec_has_alpha() -> bool;

    /// The channels of the pixel, in order. This is the model of a pixel.
    spec fn channels(&self) -> Seq<Self::Subpixel>;

    /// The number of channels.
    fn channel_count() -> (n: u8)
        ensures
            n == Self::spec_channel_count(),
            n == 1 || n == 3 || n == 4,
    ;

    /// Whether the last channel is alpha.
    fn has_alpha() -> (b: bool)
        ensures
            b == Self::spec_has_alpha(),
            b ==> Self::spec_channel_count() == 4,
    ;

    /// The width of one channel in bits.
    fn bits_per_channel() -> (bits: u8)
        ensures
            bits == 8 || bits == 16,
    ;

    /// Builds a pixel from the leading channels of `channels`.
    fn from_channels(channels: &[Self::Subpixel]) -> (p: Self)
        requires
            channels@.len() >= Self::spec_channel_count(),
        ensures
            p.channels() == channels@.subrange(0, Self::spec_channel_count() as int),
    ;

    /// The channels of the pixel, in order.
    fn to_channels(&self) -> (v: Vec<Self::Subpixel>)
        ensures
            v@ == self.channels(),
            v@.len() == Self::spec_channel_count(),
    ;

    /// The luminance of the pixel.
    fn luminance(&self) -> Self::Subpixel;
}

impl Pixel for Rgb<u8> {
    type Subpixel = u8;

    open spec fn spec_channel_count() -> nat {
        3
    }

    open spec fn spec_has_alpha() -> bool {
        false
    }

    open spec fn channels(&self) -> Seq<u8> {
        seq![self.r, self.g, self.b]
    }

    fn channel_count() -> (n: u8) {
        3
    }

    fn has_alpha() -> (b: bool) {
        false
    }

    fn bits_per_channel() -> (bits: u8) {
        8
    }

    fn from_channels(channels: &[u8]) -> (p: Self) {
        let p = Rgb { r: channels[0], g: channels[1], b: channels[2] };
        assert(p.channels() =~= channels@.subrange(0, 3));
        p
    }

    fn to_channels(&self) -> (v: Vec<u8>) {
        let v = vec![self.r, self.g, self.b];
        assert(v@ =~= self.channels());
        v
    }

    fn luminance(&self) -> (y: u8)
        ensures
            y == luminance_of(self.r as int, self.g as int, self.b as int),
    {
        luminance_u8(self.r, self.g, self.b)
    }
}

impl Pixel for Rgba<u8> {
    type Subpixel = u8;

    open spec fn spec_channel_count() -> nat {
        4
    }

    open spec fn spec_has_alpha() -> bool {
        true
    }

    open spec fn channels(&self) -> Seq<u8> {
        seq![self.r, self.g, self.b, self.a]
    }

    fn channel_count() -> (n: u8) {
        4
    }

    fn has_alpha() -> (b: bool) {
        true
    }

    fn bits_per_channel() -> (bits: u8) {
        8
    }

    fn from_channels(channels: &[u8]) -> (p: Self) {
        let p = Rgba { r: channels[0], g: channels[1], b: channels[2], a: channels[3] };
        assert(p.channels() =~= channels@.subrange(0, 4));
        p
    }

    fn to_channels(&self) -> (v: Vec<u8>) {
        let v = vec![self.r, self.g, self.b, self.a];
        assert(v@ =~= self.channels());
        v
    }

    fn luminance(&self) -> (y: u8)
        ensures
            y == luminance_of(self.r as int, self.g as int, self.b as int),
    {
        luminance_u8(self.r, self.g, self.b)
    }
}

impl Pixel for Luma<u8> {
    type Subpixel = u8;

    open spec fn spec_channel_count() -> nat {
        1
    }

    open spec fn spec_has_alpha() -> bool {
        false
    }

    open spec fn channels(&self) -> Seq<u8> {
        seq![self.l]
    }

    fn channel_count() -> (n: u8) {
        1
    }

    fn has_alpha() -> (b: bool) {
        false
    }

    fn bits_per_channel() -> (bits: u8) {
        8
    }

    fn from_channels(channels: &[u8]) -> (p: Self) {
        let p = Luma { l: channels[0] };
        assert(p.channels() =~= channels@.subrange(0, 1));
        p
    }

    fn to_channels(&self) -> (v: Vec<u8>) {
        let v = vec![self.l];
        assert(v@ =~= self.channels());
        v
    }

    fn luminance(&self) -> (y: u8)
        ensures
            y == self.l,
    {
        self.l
    }
}

impl Pixel for Rgb<u16> {
    type Subpixel = u16;

    open spec fn spec_channel_count() -> nat {
        3
    }

    open spec fn spec_has_alpha() -> bool {
        false
    }

    open spec fn channels(&self) -> Seq<u16> {
        seq![self.r, self.g, self.b]
    }

    fn channel_count() -> (n: u8) {
        3
    }

    fn has_alpha() -> (b: bool) {
        false
    }

    fn bits_per_channel() -> (bits: u8) {
        16
    }

    fn from_channels(channels: &[u16]) -> (p: Self) {
        let p = Rgb { r: channels[0], g: channels[1], b: channels[2] };
        assert(p.channels() =~= channels@.subrange(0, 3));
        p
    }

    fn to_channels(&self) -> (v: Vec<u16>) {
        let v = vec![self.r, self.g, self.b];
        assert(v@ =~= self.channels());
        v
    }

    fn luminance(&self) -> (y: u16)
        ensures
            y == luminance_of(self.r as int, self.g as int, self.b as int),
    {
        luminance_u16(self.r, self.g, self.b)
    }
}

impl Pixel for Rgba<u16> {
    type Subpixel = u16;

    open spec fn spec_channel_count() -> nat {
        4
    }

    open spec fn spec_has_alpha() -> bool {
        true
    }

    open spec fn channels(&self) -> Seq<u16> {
        seq![self.r, self.g, self.b, self.a]
    }

    fn channel_count() -> (n: u8) {
        4
    }

    fn has_alpha() -> (b: bool) {
        true
    }

    fn bits_per_channel() -> (bits: u8) {
        16
    }

    fn from_channels(channels: &[u16]) -> (p: Self) {
        let p = Rgba { r: channels[0], g: channels[1], b: channels[2], a: channels[3] };
        assert(p.channels() =~= channels@.subrange(0, 4));
        p
    }

    fn to_channels(&self) -> (v: Vec<u16>) {
        let v = vec![self.r, self.g, self.b, self.a];
        assert(v@ =~= self.channels());
        v
    }

    fn luminance(&self) -> (y: u16)
        ensures
            y == luminance_of(self.r as int, self.g as int, self.b as int),
    {
        luminance_u16(self.r, self.g, self.b)
    }
}

impl Pixel for Luma<u16> {
    type Subpixel = u16;

    open spec fn spec_channel_count() -> nat {
        1
    }

    open spec fn spec_has_alpha() -> bool {
        false
    }

    open spec fn channels(&self) -> Seq<u16> {
        seq![self.l]
    }

    fn channel_count() -> (n: u8) {
        1
    }

    fn has_alpha() -> (b: bool) {
        false
    }

    fn bits_per_channel() -> (bits: u8) {
        16
    }

    fn from_channels(channels: &[u16]) -> (p: Self) {
        let p = Luma { l: channels[0] };
        assert(p.channels() =~= channels@.subrange(0, 1));
        p
    }

    fn to_channels(&self) -> (v: Vec<u16>) {
        let v = vec![self.l];
        assert(v@ =~= self.channels());
        v
    }

    fn luminance(&self) -> (y: u16)
        ensures
            y == self.l,
    {
        self.l
    }
}

/// An RGBA pixel is told by its channels: two with the same channels are
/// the same pixel.
pub proof fn lemma_channels_determine_pixel(p: Rgba<u8>, q: Rgba<u8>)
    requires
        p.channels() == q.channels(),
    ensures
        p == q,
{
    assert(p.channels()[0] == q.channels()[0]);
    assert(p.channels()[1] == q.channels()[1]);
    assert(p.channels()[2] == q.channels()[2]);
    assert(p.channels()[3] == q.channels()[3]);
}

} // verus!
