//! A button with a text label, put together step by step.

use vstd::prelude::*;
use vstd::string::to_string_from_display_ensures;

use crate::appearance::Appearance;
use crate::extended::{Extended, Shades};
use crate::toolkit::{uniform_padding, uniform_padding_of};

verus! {

/// The padding, in pixels on every side, of a button that was given none.
pub const DEFAULT_PADDING: u16 = 3;

/// The look of a text button, named after what the button does.
#[derive(Clone, Copy, Debug, PartialEq, Eq, Structural)]
pub enum Style {
    /// The main action.
    Primary,
    /// A lesser action.
    Secondary,
    /// An action that confirms or creates.
    Positive,
    /// An action that removes or destroys.
    Destructive,
}

impl Default for Style {
    fn default() -> (style: Style)
        ensures
            style == Style::Primary,
    {
        Style::Primary
    }
}

impl Style {
    /// The color family that the style paints with.
    pub open spec fn family(self, palette: Extended) -> Shades {
        match self {
            Style::Primary => palette.primary,
            Style::Secondary => palette.secondary,
            Style::Positive => palette.success,
            Style::Destructive => palette.danger,
        }
    }

    /// A button filled with `fill` and labelled in the text color of the
    /// strong primary shade, without a border.
    pub open spec fn filled(fill: crate::color::Color, palette: Extended) -> Appearance {
        Appearance {
            background: Some(fill),
            text_color: Some(palette.primary.strong.text),
            border: None,
        }
    }

    fn shades(&self, palette: &Extended) -> (shades: Shades)
        ensures
            shades == self.family(*palette),
    {
        match self {
            Style::Primary => palette.primary,
            Style::Secondary => palette.secondary,
            Style::Positive => palette.success,
            Style::Destructive => palette.danger,
        }
    }

    /// At rest the button is filled with the strong shade of its family.
    pub fn active(&self, palette: &Extended) -> (appearance: Appearance)
        ensures
            appearance == Style::filled(self.family(*palette).strong.color, *palette),
    {
        Appearance {
            background: Some(self.shades(palette).strong.color),
            text_color: Some(palette.primary.strong.text),
            border: None,
        }
    }

    /// Held down the button is filled with the weak shade of its family.
    pub fn pressed(&self, palette: &Extended) -> (appearance: Appearance)
        ensures
            appearance == Style::filled(self.family(*palette).weak.color, *palette),
    {
        Appearance {
            background: Some(self.shades(palette).weak.color),
            text_color: Some(palette.primary.strong.text),
            border: None,
        }
    }

    /// Under the pointer the button is filled with the base shade of its family.
    pub fn hovered(&self, palette: &Extended) -> (appearance: Appearance)
        ensures
            appearance == Style::filled(self.family(*palette).base.color, *palette),
    {
        Appearance {
            background: Some(self.shades(palette).base.color),
            text_color: Some(palette.primary.strong.text),
            border: None,
        }
    }
}

/// A text button in the making. `OnPress` is what the button does when
/// pressed; a button made with `new` does nothing.
pub struct TextButton<OnPress> {
    /// The label.
    pub content: String,
    /// What to do when the button is pressed.
    pub on_press: Option<OnPress>,
    /// The width, if one was set.
    pub width: Option<iced::Length>,
    /// The height, if one was set.
    pub height: Option<iced::Length>,
    /// The padding, if one was set.
    pub padding: Option<iced::Padding>,
    /// The look.
    pub style: Style,
}

/// Everything the toolkit needs to build the finished button.
pub struct ButtonParts<OnPress> {
    /// The label.
    pub content: String,
    /// What to do when the button is pressed; `None` for a button that
    /// cannot be pressed.
    pub on_press: Option<OnPress>,
    /// The width, if one was set.
    pub width: Option<iced::Length>,
    /// The height, if one was set.
    pub height: Option<iced::Length>,
    /// The padding.
    pub padding: iced::Padding,
    /// The look.
    pub style: Style,
}

impl<OnPress> Default for TextButton<OnPress> {
    fn default() -> (button: TextButton<OnPress>)
        ensures
            button.content@ == Seq::<char>::empty(),
            button.on_press is None,
            button.width is None,
            button.height is None,
            button.padding is None,
            button.style == Style::Primary,
    {
        TextButton {
            content: String::new(),
            on_press: None,
            width: None,
            height: None,
            padding: None,
            style: Style::Primary,
        }
    }
}

impl TextButton<()> {
    /// A button labelled with the text of `content` that does nothing when
    /// pressed, with nothing else set.
    #[must_use]
    pub fn new<T: core::fmt::Display>(content: &T) -> (button: TextButton<()>)
        ensures
            to_string_from_display_ensures::<T>(content, button.content),
            button.on_press is None,
            button.width is None,
            button.height is None,
            button.padding is None,
            button.style == Style::Primary,
    {
        TextButton {
            content: content.to_string(),
            on_press: None,
            width: None,
            height: None,
            padding: None,
            style: Style::Primary,
        }
    }
}

impl<OnPress> TextButton<OnPress> {
    /// A button labelled with the text of `content` that does `on_press`
    /// when pressed, with nothing else set.
    #[must_use]
    pub fn new_with_on_press<T: core::fmt::Display>(
        content: &T,
        on_press: OnPress,
    ) -> (button: TextButton<OnPress>)
        ensures
            to_string_from_display_ensures::<T>(content, button.content),
            button.on_press == Some(on_press),
            button.width is None,
            button.height is None,
            button.padding is None,
            button.style == Style::Primary,
    {
        TextButton {
            content: content.to_string(),
            on_press: Some(on_press),
            width: None,
            height: None,
            padding: None,
            style: Style::Primary,
        }
    }

    /// Sets the width and keeps the rest.
    #[must_use]
    pub fn width(self, width: iced::Length) -> (button: TextButton<OnPress>)
        ensures
            button == (TextButton { width: Some(width), ..self }),
    {
        TextButton { width: Some(width), ..self }
    }

    /// Sets the height and keeps the rest.
    #[must_use]
    pub fn height(self, height: iced::Length) -> (button: TextButton<OnPress>)
        ensures
            button == (TextButton { height: Some(height), ..self }),
    {
        TextButton { height: Some(height), ..self }
    }

    /// Sets the padding and keeps the rest.
    #[must_use]
    pub fn padding(self, padding: iced::Padding) -> (button: TextButton<OnPress>)
        ensures
            button == (TextButton { padding: Some(padding), ..self }),
    {
        TextButton { padding: Some(padding), ..self }
    }

    /// Sets the look and keeps the rest.
    #[must_use]
    pub fn style(self, style: Style) -> (button: TextButton<OnPress>)
        ensures
            button == (TextButton { style, ..self }),
    {
        TextButton { style, ..self }
    }

    /// The padding of the finished button: the one that was set, or
    /// `DEFAULT_PADDING` pixels on every side.
    pub open spec fn final_padding(self) -> iced::Padding {
        match self.padding {
            Some(padding) => padding,
            None => uniform_padding_of(DEFAULT_PADDING),
        }
    }

    /// Finishes the button: everything that was set is handed on as it is,
    /// and a padding that was not set becomes the default.
    pub fn button(self) -> (parts: ButtonParts<OnPress>)
        ensures
            parts.content == self.content,
            parts.on_press == self.on_press,
            parts.width == self.width,
            parts.height == self.height,
            parts.padding == self.final_padding(),
            parts.style == self.style,
    {
        let TextButton { content, on_press, width, height, padding, style } = self;
        let padding = match padding {
            Some(padding) => padding,
            None => uniform_padding(DEFAULT_PADDING),
        };
        ButtonParts { content, on_press, width, height, padding, style }
    }
}

} // verus!
