//! Lengths and colours.
use vstd::prelude::*;

verus! {

/// The number of stored units in one whole unit of any fractional quantity.
pub const MILLI: i32 = 1000;

/// A length in device-independent pixels, in thousandths of a pixel.
#[derive(Clone, Copy, Debug, PartialEq, Eq, Structural)]
pub struct Pixels(pub i32);

/// A length relative to the root font size, in thousandths of it.
#[derive(Clone, Copy, Debug, PartialEq, Eq, Structural)]
pub struct Rems(pub i32);

/// A length that does not depend on the enclosing box.
#[derive(Clone, Copy, Debug, PartialEq, Eq, Structural)]
pub enum AbsoluteLength {
    Pixels(Pixels),
    Rems(Rems),
}

/// A length that is known once the enclosing box and the font are known.
#[derive(Clone, Copy, Debug, PartialEq, Eq, Structural)]
pub enum DefiniteLength {
    Absolute(AbsoluteLength),
    /// A fraction of the enclosing box along one axis, in thousandths.
    Fraction(i32),
}

/// A length, or the request that the layout solver choose one.
#[derive(Clone, Copy, Debug, PartialEq, Eq, Structural)]
pub enum Length {
    Definite(DefiniteLength),
    Auto,
}

/// A colour as hue, saturation, lightness and alpha, each in thousandths of
/// its full range (the hue in thousandths of a full turn).
#[derive(Clone, Copy, Debug, PartialEq, Eq, Structural)]
pub struct Hsla {
    pub h: i32,
    pub s: i32,
    pub l: i32,
    pub a: i32,
}

/// A point in pixels.
#[derive(Clone, Copy, Debug, PartialEq, Eq, Structural)]
pub struct Point {
    pub x: Pixels,
    pub y: Pixels,
}

/// The largest whole number of pixels that `px` accepts.
pub const MAX_WHOLE_PIXELS: i32 = 2_000_000;

/// A length of `whole` pixels.
pub fn px(whole: i32) -> (r: Pixels)
    requires
        -MAX_WHOLE_PIXELS <= whole <= MAX_WHOLE_PIXELS,
    ensures
        r.0 == whole * MILLI,
{
    Pixels(whole * MILLI)
}

/// A length of `milli` thousandths of the root font size.
pub fn rems(milli: i32) -> (r: Rems)
    ensures
        r.0 == milli,
{
    Rems(milli)
}

/// The fraction `milli` / 1000 of the enclosing box.
pub fn relative(milli: i32) -> (r: DefiniteLength)
    ensures
        r == DefiniteLength::Fraction(milli),
{
    DefiniteLength::Fraction(milli)
}

/// A colour from its four channels, each in thousandths.
pub fn hsla(h: i32, s: i32, l: i32, a: i32) -> (r: Hsla)
    ensures
        r == (Hsla { h, s, l, a }),
{
    Hsla { h, s, l, a }
}

/// A point from its two coordinates.
pub fn point(x: Pixels, y: Pixels) -> (r: Point)
    ensures
        r == (Point { x, y }),
{
    Point { x, y }
}

impl Pixels {
    /// The same length as an absolute length.
    pub fn absolute(self) -> (r: AbsoluteLength)
        ensures
            r == AbsoluteLength::Pixels(self),
    {
        AbsoluteLength::Pixels(self)
    }
}

impl Rems {
    /// The same length as an absolute length.
    pub fn absolute(self) -> (r: AbsoluteLength)
        ensures
            r == AbsoluteLength::Rems(self),
    {
        AbsoluteLength::Rems(self)
    }
}

impl AbsoluteLength {
    /// The same length as a definite length.
    pub fn definite(self) -> (r: DefiniteLength)
        ensures
            r == DefiniteLength::Absolute(self),
    {
        DefiniteLength::Absolute(self)
    }
}

impl DefiniteLength {
    /// The same length as a length that is not left to the layout solver.
    pub fn length(self) -> (r: Length)
        ensures
            r == Length::Definite(self),
    {
        Length::Definite(self)
    }
}

/// Fully transparent black.
pub fn transparent_black() -> (r: Hsla)
    ensures
        r == (Hsla { h: 0, s: 0, l: 0, a: 0 }),
{
    hsla(0, 0, 0, 0)
}

/// Opaque black.
pub fn black() -> (r: Hsla)
    ensures
        r == (Hsla { h: 0, s: 0, l: 0, a: MILLI }),
{
    hsla(0, 0, 0, MILLI)
}

} // verus!
