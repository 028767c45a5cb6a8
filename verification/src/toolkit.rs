//! The toolkit's own types that the library carries through, and the calls it
//! makes into the toolkit. Nothing here is proved: each contract states what
//! the toolkit's source shows.

use vstd::prelude::*;

verus! {

/// `iced::Length`, a widget's sizing strategy along one dimension. The library
/// only stores and hands on values of it.
#[verifier::external_type_specification]
#[verifier::external_body]
pub struct ExLength(iced::Length);

/// `iced::Padding`, the space kept free on the four sides of a box. The
/// library only stores and hands on values of it.
#[verifier::external_type_specification]
#[verifier::external_body]
pub struct ExPadding(iced::Padding);

/// The padding that `iced::Padding::from` makes of a count of pixels: that
/// many pixels on each of the four sides.
pub uninterp spec fn uniform_padding_of(amount: u16) -> iced::Padding;

/// Calls `iced::Padding::from` on a `u16`, which puts that many pixels on
/// every side. The contract only names the result.
#[verifier::external_body]
pub(crate) fn uniform_padding(amount: u16) -> (padding: iced::Padding)
    ensures
        padding == uniform_padding_of(amount),
{
    iced::Padding::from(amount)
}

} // verus!
