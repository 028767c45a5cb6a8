//! Colors on a fixed-point intensity scale, and the palettes built from them.
//!
//! A channel holds an intensity as a signed count of steps of `1 / ONE`, so
//! that `0` is no intensity, `ONE` is full intensity and `HALF` is the exact
//! middle. A channel may hold a value outside `0..=ONE`; the blending
//! operations bring their inputs into that range before they use them.

use vstd::prelude::*;

verus! {

/// Full intensity, and the blend factor that reaches the target.
pub const ONE: i32 = 16_777_216;

/// Mid-gray intensity.
pub const HALF: i32 = 8_388_608;

/// The blend factor used where a caller gives none: a quarter.
pub const DEFAULT_MUTE: i32 = 4_194_304;

/// The level in `0..=ONE` nearest to `x`.
pub open spec fn clamp_unit(x: int) -> int {
    if x < 0 {
        0
    } else if x > ONE {
        ONE as int
    } else {
        x
    }
}

/// The level a fraction `t / ONE` of the way from `a` to `b`, all three
/// clamped first. The distance moved is rounded toward zero, so the result
/// never passes `b` and reaches it only where `t` is `ONE` or `a` is `b`.
pub open spec fn lerp_unit(a: int, b: int, t: int) -> int {
    let a = clamp_unit(a);
    let b = clamp_unit(b);
    let t = clamp_unit(t);
    if a <= b {
        a + (t * (b - a)) / (ONE as int)
    } else {
        a - (t * (a - b)) / (ONE as int)
    }
}

/// The level that stands for the 8-bit intensity `v`, rounded to the nearest step.
pub open spec fn level_of_byte(v: int) -> int {
    (v * ONE + 127) / 255
}

/// A color as four levels: red, green, blue and opacity.
#[derive(Clone, Copy, Debug, PartialEq, Eq, Structural)]
pub struct Color {
    /// Red.
    pub r: i32,
    /// Green.
    pub g: i32,
    /// Blue.
    pub b: i32,
    /// Opacity.
    pub a: i32,
}

/// Blending operations on a color.
pub trait ColorManipExt: Sized {
    /// The color faded toward mid-gray by `t`, or by `DEFAULT_MUTE` where
    /// `t` is `None`.
    spec fn muted(self, t: Option<i32>) -> Self;

    /// The color blended toward `other` by `t`.
    spec fn blended(self, other: Self, t: i32) -> Self;

    /// Fades the color toward mid-gray.
    #[must_use]
    fn mute(self, t: Option<i32>) -> (c: Self)
        ensures
            c == self.muted(t),
    ;

    /// Blends the color toward another.
    #[must_use]
    fn lerp(self, other: Self, t: i32) -> (c: Self)
        ensures
            c == self.blended(other, t),
    ;
}

impl Color {
    /// Opaque black.
    pub open spec fn black() -> Color {
        Color { r: 0, g: 0, b: 0, a: ONE }
    }

    /// Opaque white.
    pub open spec fn white() -> Color {
        Color { r: ONE, g: ONE, b: ONE, a: ONE }
    }

    /// Whether red, green and blue all lie in the unit range.
    pub open spec fn rgb_in_unit(self) -> bool {
        &&& 0 <= self.r <= ONE
        &&& 0 <= self.g <= ONE
        &&& 0 <= self.b <= ONE
    }

    /// The opaque color with the given 8-bit red, green and blue.
    pub open spec fn of_rgb8(r: u8, g: u8, b: u8) -> Color {
        Color {
            r: level_of_byte(r as int) as i32,
            g: level_of_byte(g as int) as i32,
            b: level_of_byte(b as int) as i32,
            a: ONE,
        }
    }

    /// Builds an opaque color from 8-bit red, green and blue.
    pub fn from_rgb8(r: u8, g: u8, b: u8) -> (c: Color)
        ensures
            c == Color::of_rgb8(r, g, b),
            c.rgb_in_unit(),
    {
        Color { r: byte_level(r), g: byte_level(g), b: byte_level(b), a: ONE }
    }
}

impl ColorManipExt for Color {
    /// Red, green and blue are blended toward `HALF`; opacity is kept.
    open spec fn muted(self, t: Option<i32>) -> Color {
        let t = match t {
            Some(t) => t as int,
            None => DEFAULT_MUTE as int,
        };
        Color {
            r: lerp_unit(self.r as int, HALF as int, t) as i32,
            g: lerp_unit(self.g as int, HALF as int, t) as i32,
            b: lerp_unit(self.b as int, HALF as int, t) as i32,
            a: self.a,
        }
    }

    /// Every channel, opacity included, is blended toward that of `other`.
    open spec fn blended(self, other: Color, t: i32) -> Color {
        Color {
            r: lerp_unit(self.r as int, other.r as int, t as int) as i32,
            g: lerp_unit(self.g as int, other.g as int, t as int) as i32,
            b: lerp_unit(self.b as int, other.b as int, t as int) as i32,
            a: lerp_unit(self.a as int, other.a as int, t as int) as i32,
        }
    }

    fn mute(self, t: Option<i32>) -> (c: Color)
        ensures
            c.a == self.a,
            c.rgb_in_unit(),
    {
        let t: i32 = match t {
            Some(t) => t,
            None => DEFAULT_MUTE,
        };
        Color {
            r: lerp(self.r, HALF, t),
            g: lerp(self.g, HALF, t),
            b: lerp(self.b, HALF, t),
            a: self.a,
        }
    }

    fn lerp(self, other: Color, t: i32) -> (c: Color)
        ensures
            c.rgb_in_unit(),
            0 <= c.a <= ONE,
    {
        Color {
            r: lerp(self.r, other.r, t),
            g: lerp(self.g, other.g, t),
            b: lerp(self.b, other.b, t),
            a: lerp(self.a, other.a, t),
        }
    }
}

/// Brings one level into the unit range.
fn clamp(x: i32) -> (r: i32)
    ensures
        r == clamp_unit(x as int),
{
    if x < 0 {
        0
    } else if x > ONE {
        ONE
    } else {
        x
    }
}

/// Blends one channel.
fn lerp(a: i32, b: i32, t: i32) -> (r: i32)
    ensures
        r == lerp_unit(a as int, b as int, t as int),
        0 <= r <= ONE,
{
    let a: i32 = clamp(a);
    let b: i32 = clamp(b);
    let t: i32 = clamp(t);
    if a <= b {
        proof {
            lemma_scaled_distance(t as int, (b - a) as int);
        }
        let moved: u64 = (t as u64 * (b - a) as u64) / (ONE as u64);
        a + moved as i32
    } else {
        proof {
            lemma_scaled_distance(t as int, (a - b) as int);
        }
        let moved: u64 = (t as u64 * (a - b) as u64) / (ONE as u64);
        a - moved as i32
    }
}

/// Converts one 8-bit intensity.
fn byte_level(v: u8) -> (r: i32)
    ensures
        r == level_of_byte(v as int),
        0 <= r <= ONE,
{
    assert(0 <= v * ONE <= 255 * ONE) by (nonlinear_arith)
        requires
            0 <= v <= 255,
    ;
    let scaled: u64 = v as u64 * ONE as u64 + 127;
    (scaled / 255) as i32
}

/// The colors of one rendered element, by the role each plays.
#[derive(Clone, Copy, Debug, PartialEq, Eq, Structural)]
pub struct Palette {
    /// Color of the border.
    pub border: Color,
    /// Color of the background.
    pub background: Color,
    /// Color of what is drawn on the background.
    pub foreground: Color,
    /// Color of text.
    pub text: Color,
}

impl Palette {
    /// This palette with each of its four colors muted by `t`.
    pub open spec fn muted(self, t: Option<i32>) -> Palette {
        Palette {
            border: self.border.muted(t),
            background: self.background.muted(t),
            foreground: self.foreground.muted(t),
            text: self.text.muted(t),
        }
    }

    /// Mutes every color of the palette by `t`, or by the default factor.
    #[must_use]
    pub fn mute(self, t: Option<i32>) -> (p: Palette)
        ensures
            p == self.muted(t),
    {
        Palette {
            border: self.border.mute(t),
            background: self.background.mute(t),
            foreground: self.foreground.mute(t),
            text: self.text.mute(t),
        }
    }
}

/// The two most contrasting colors of an element. A light theme paints the
/// background `bright` and the content `dim`; a dark theme swaps them.
/// Nothing demands that `bright` is the brighter of the two.
#[derive(Clone, Copy, Debug, PartialEq, Eq, Structural)]
pub struct ContrastPalette {
    /// The brighter color.
    pub bright: Color,
    /// The dimmer color.
    pub dim: Color,
}

impl ContrastPalette {
    /// White on black.
    pub open spec fn mono() -> ContrastPalette {
        ContrastPalette { bright: Color::white(), dim: Color::black() }
    }

    /// This palette with `dim` muted by `t` and `bright` kept.
    pub open spec fn with_muted_dim(self, t: Option<i32>) -> ContrastPalette {
        ContrastPalette { bright: self.bright, dim: self.dim.muted(t) }
    }

    /// This palette with its two colors swapped.
    pub open spec fn inverted(self) -> ContrastPalette {
        ContrastPalette { bright: self.dim, dim: self.bright }
    }

    /// The black and white palette.
    #[must_use]
    pub fn monochrome() -> (p: ContrastPalette)
        ensures
            p == ContrastPalette::mono(),
    {
        ContrastPalette {
            bright: Color { r: ONE, g: ONE, b: ONE, a: ONE },
            dim: Color { r: 0, g: 0, b: 0, a: ONE },
        }
    }

    /// Mutes the dim color by `t`, or by the default factor.
    #[must_use]
    pub fn mute_dim(self, t: Option<i32>) -> (p: ContrastPalette)
        ensures
            p == self.with_muted_dim(t),
    {
        ContrastPalette { bright: self.bright, dim: self.dim.mute(t) }
    }

    /// Swaps the bright and the dim color.
    #[must_use]
    pub fn invert(self) -> (p: ContrastPalette)
        ensures
            p == self.inverted(),
    {
        ContrastPalette { bright: self.dim, dim: self.bright }
    }
}

impl Default for ContrastPalette {
    fn default() -> (p: ContrastPalette)
        ensures
            p == ContrastPalette::mono(),
    {
        ContrastPalette::monochrome()
    }
}

/// The palettes of a theme: a primary and a secondary channel, each at rest
/// and highlighted.
#[derive(Clone, Copy, Debug, PartialEq, Eq, Structural)]
pub struct ThemePalette {
    /// Primary colors at rest.
    pub mute: Palette,
    /// Primary colors of a hovered or highlighted element.
    pub mute_highlight: Palette,
    /// Secondary colors at rest.
    pub alt: Palette,
    /// Secondary colors of a hovered or highlighted element.
    pub alt_highlight: Palette,
}

/// Scaling a distance by a factor in the unit range, rounding down, never
/// lengthens it: the factor one keeps all of it, the factor zero nothing, and
/// every factor below one less than all of it.
pub proof fn lemma_scaled_distance(t: int, d: int)
    requires
        0 <= t <= ONE,
        0 <= d,
    ensures
        0 <= (t * d) / (ONE as int) <= d,
        t == ONE ==> (t * d) / (ONE as int) == d,
        t == 0 ==> (t * d) / (ONE as int) == 0,
        t < ONE && d > 0 ==> (t * d) / (ONE as int) < d,
{
    let one = ONE as int;
    let p = t * d;
    let q = p / one;
    assert(0 <= p <= one * d && (t < one && d > 0 ==> p < one * d) && (t == 0 ==> p == 0) && (t
        == one ==> p == one * d)) by (nonlinear_arith)
        requires
            p == t * d,
            0 <= t <= one,
            0 <= d,
    ;
    assert(0 <= q <= d && (p < one * d ==> q < d) && (p == one * d ==> q == d) && (p == 0 ==> q
        == 0)) by (nonlinear_arith)
        requires
            q == p / one,
            0 <= p <= one * d,
            one == 16_777_216,
            0 <= d,
    ;
}

/// A blend never leaves the unit range, and lies between its clamped ends.
pub proof fn lemma_lerp_between(a: int, b: int, t: int)
    ensures
        0 <= lerp_unit(a, b, t) <= ONE,
        clamp_unit(a) <= clamp_unit(b) ==> clamp_unit(a) <= lerp_unit(a, b, t) <= clamp_unit(b),
        clamp_unit(b) <= clamp_unit(a) ==> clamp_unit(b) <= lerp_unit(a, b, t) <= clamp_unit(a),
{
    let ca = clamp_unit(a);
    let cb = clamp_unit(b);
    let d = if ca <= cb {
        cb - ca
    } else {
        ca - cb
    };
    lemma_scaled_distance(clamp_unit(t), d);
}

/// A blend by zero stays at the clamped start.
pub proof fn lemma_lerp_by_zero(a: int, b: int)
    ensures
        lerp_unit(a, b, 0) == clamp_unit(a),
{
    let ca = clamp_unit(a);
    let cb = clamp_unit(b);
    if ca <= cb {
        lemma_scaled_distance(0, cb - ca);
    } else {
        lemma_scaled_distance(0, ca - cb);
    }
}

/// A blend by one lands on the clamped target.
pub proof fn lemma_lerp_by_one(a: int, b: int)
    ensures
        lerp_unit(a, b, ONE as int) == clamp_unit(b),
{
    let ca = clamp_unit(a);
    let cb = clamp_unit(b);
    if ca <= cb {
        lemma_scaled_distance(ONE as int, cb - ca);
    } else {
        lemma_scaled_distance(ONE as int, ca - cb);
    }
}

/// A blend by less than one reaches its target only where it started there.
pub proof fn lemma_lerp_stops_short(a: int, b: int, t: int)
    requires
        t < ONE,
    ensures
        lerp_unit(a, b, t) == clamp_unit(b) <==> clamp_unit(a) == clamp_unit(b),
{
    let ca = clamp_unit(a);
    let cb = clamp_unit(b);
    if ca <= cb {
        lemma_scaled_distance(clamp_unit(t), cb - ca);
    } else {
        lemma_scaled_distance(clamp_unit(t), ca - cb);
    }
}

/// Muting keeps the opacity, whatever the factor.
pub proof fn lemma_mute_keeps_alpha(c: Color, t: Option<i32>)
    ensures
        c.muted(t).a == c.a,
{
}

/// Muting by zero changes nothing in a color whose red, green and blue lie in
/// the unit range.
pub proof fn lemma_mute_by_zero(c: Color)
    requires
        c.rgb_in_unit(),
    ensures
        c.muted(Some(0)) == c,
{
    lemma_lerp_by_zero(c.r as int, HALF as int);
    lemma_lerp_by_zero(c.g as int, HALF as int);
    lemma_lerp_by_zero(c.b as int, HALF as int);
}

/// Muting by one sets red, green and blue to mid-gray exactly.
pub proof fn lemma_mute_by_one(c: Color)
    ensures
        c.muted(Some(ONE)).r == HALF,
        c.muted(Some(ONE)).g == HALF,
        c.muted(Some(ONE)).b == HALF,
{
    lemma_lerp_by_one(c.r as int, HALF as int);
    lemma_lerp_by_one(c.g as int, HALF as int);
    lemma_lerp_by_one(c.b as int, HALF as int);
}

/// Muting by less than one leaves a channel off mid-gray unless it was there
/// already: a softened color never turns exactly gray.
pub proof fn lemma_mute_stops_short(c: Color, t: i32)
    requires
        t < ONE,
    ensures
        c.muted(Some(t)).r == HALF <==> clamp_unit(c.r as int) == HALF,
        c.muted(Some(t)).g == HALF <==> clamp_unit(c.g as int) == HALF,
        c.muted(Some(t)).b == HALF <==> clamp_unit(c.b as int) == HALF,
{
    lemma_lerp_stops_short(c.r as int, HALF as int, t as int);
    lemma_lerp_stops_short(c.g as int, HALF as int, t as int);
    lemma_lerp_stops_short(c.b as int, HALF as int, t as int);
    lemma_lerp_between(c.r as int, HALF as int, t as int);
    lemma_lerp_between(c.g as int, HALF as int, t as int);
    lemma_lerp_between(c.b as int, HALF as int, t as int);
}

/// Inverting a contrast palette twice gives it back.
pub proof fn lemma_invert_twice(p: ContrastPalette)
    ensures
        p.inverted().inverted() == p,
{
}

} // verus!
