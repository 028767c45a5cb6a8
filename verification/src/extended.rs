//! The toolkit's built-in theme, as the colors that the widget styles read.

use vstd::prelude::*;

use crate::color::Color;

verus! {

/// A fill color and the color of text readable on it.
#[derive(Clone, Copy, Debug, PartialEq, Eq, Structural)]
pub struct Pair {
    /// The fill.
    pub color: Color,
    /// The text on the fill.
    pub text: Color,
}

/// One color family in three strengths.
#[derive(Clone, Copy, Debug, PartialEq, Eq, Structural)]
pub struct Shades {
    /// The family's own color.
    pub base: Pair,
    /// A weaker variant.
    pub weak: Pair,
    /// A stronger variant.
    pub strong: Pair,
}

/// The color families of the toolkit's built-in theme.
#[derive(Clone, Copy, Debug, PartialEq, Eq, Structural)]
pub struct Extended {
    /// Backgrounds.
    pub background: Shades,
    /// Primary actions.
    pub primary: Shades,
    /// Secondary actions.
    pub secondary: Shades,
    /// Actions that succeed or confirm.
    pub success: Shades,
    /// Actions that destroy or warn.
    pub danger: Shades,
}

} // verus!
