//! The style choices a widget can be given.
//!
//! Every kind of widget has its own descriptor. A descriptor either follows
//! the theme, names a contrast palette of its own, gives colors directly, or
//! carries a custom style of type `S` that the caller applies itself.

use vstd::prelude::*;

use crate::color::{Color, ContrastPalette};

verus! {

/// Which of a theme's two channels, and which of a widget's two looks, to use.
#[derive(Clone, Copy, Debug, PartialEq, Eq, Structural)]
pub enum Var {
    /// The primary channel and the standard look.
    Std,
    /// The secondary channel and the alternate look.
    Alt,
}

impl Default for Var {
    fn default() -> (var: Var)
        ensures
            var == Var::Std,
    {
        Var::Std
    }
}

/// The state of a widget under the pointer.
#[derive(Clone, Copy, Debug, PartialEq, Eq, Structural)]
pub enum Interaction {
    /// At rest.
    Active,
    /// Under the pointer.
    Hovered,
    /// Held down.
    Pressed,
    /// Not accepting input.
    Disabled,
}

/// Which of the resolved colors a boxed widget applies.
#[derive(Clone, Copy, Debug, PartialEq, Eq, Structural)]
pub struct BoxOptions {
    /// Draw the border.
    pub show_border: bool,
    /// Set the color of the text inside.
    pub update_text: bool,
    /// Fill the background.
    pub opaque_background: bool,
}

impl BoxOptions {
    /// The options a container has where its descriptor gives none: text and
    /// background are applied, and the border is drawn under `Var::Alt` only.
    pub open spec fn container_default(var: Var) -> BoxOptions {
        BoxOptions { show_border: var == Var::Alt, update_text: true, opaque_background: true }
    }

    /// The default options of a container.
    pub fn container(var: Var) -> (options: BoxOptions)
        ensures
            options == BoxOptions::container_default(var),
    {
        let show_border = match var {
            Var::Std => false,
            Var::Alt => true,
        };
        BoxOptions { show_border, update_text: true, opaque_background: true }
    }
}

/// Colors given directly; `None` leaves the part unpainted.
#[derive(Clone, Copy, Debug, PartialEq, Eq, Structural)]
pub struct ManualColors {
    /// Color of the border, if one is drawn.
    pub border: Option<Color>,
    /// Color of the background, if it is filled.
    pub background: Option<Color>,
    /// Color of the text, if it is set.
    pub text: Option<Color>,
}

/// Style of the application window.
#[derive(Clone, Debug)]
pub enum Application<S> {
    /// Follow the theme.
    Theme,
    /// Resolve this contrast palette under the theme.
    ContrastPalette(ContrastPalette),
    /// Apply a style of the caller's own.
    Custom(S),
}

impl<S> Default for Application<S> {
    fn default() -> (style: Application<S>)
        ensures
            style is Theme,
    {
        Application::Theme
    }
}

/// Style of a container.
#[derive(Clone, Debug)]
pub enum Container<S> {
    /// Follow the theme, on the given channel.
    Theme(Var),
    /// Resolve this contrast palette under the theme and apply what the
    /// options select.
    ContrastPalette(ContrastPalette, BoxOptions),
    /// Paint with these colors.
    Colors(ManualColors),
    /// Apply a style of the caller's own.
    Custom(S),
}

impl<S> Default for Container<S> {
    fn default() -> (style: Container<S>)
        ensures
            style matches Container::Theme(var) && var == Var::Std,
    {
        Container::Theme(Var::Std)
    }
}

/// Style of a piece of text.
#[derive(Clone, Copy, Debug, PartialEq, Eq, Structural)]
pub enum Text {
    /// Follow the theme.
    Theme,
    /// Resolve this contrast palette under the theme.
    ContrastPalette(ContrastPalette),
    /// Use this color.
    Color(Color),
}

impl Default for Text {
    fn default() -> (style: Text)
        ensures
            style == Text::Theme,
    {
        Text::Theme
    }
}

/// Style of a toggler.
#[derive(Clone, Debug)]
pub enum Toggler<S> {
    /// Follow the theme, on the given channel and with the given look.
    Theme(Var),
    /// Apply a style of the caller's own.
    Custom(S),
}

impl<S> Default for Toggler<S> {
    fn default() -> (style: Toggler<S>)
        ensures
            style matches Toggler::Theme(var) && var == Var::Std,
    {
        Toggler::Theme(Var::Std)
    }
}

/// Style of a button.
#[derive(Clone, Debug)]
pub enum Button<S> {
    /// Follow the theme, on the given channel and with the given look.
    Theme(Var),
    /// Resolve this contrast palette under the theme and apply what the
    /// options select.
    ContrastPalette(ContrastPalette, BoxOptions),
    /// Paint with these colors.
    Colors(ManualColors),
    /// Apply a style of the caller's own.
    Custom(S),
}

impl<S> Default for Button<S> {
    fn default() -> (style: Button<S>)
        ensures
            style matches Button::Theme(var) && var == Var::Std,
    {
        Button::Theme(Var::Std)
    }
}

} // verus!
