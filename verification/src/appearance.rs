//! What a widget looks like once its style is resolved under a theme.

use vstd::prelude::*;

use crate::color::{Color, ColorManipExt, ContrastPalette, Palette};
use crate::theme::{
    Application, BoxOptions, Button, Container, Interaction, ManualColors, Text, Toggler, Var,
};
use crate::Theme;

verus! {

/// A border: its color and its width in pixels.
#[derive(Clone, Copy, Debug, PartialEq, Eq, Structural)]
pub struct Border {
    /// Color of the line.
    pub color: Color,
    /// Width of the line.
    pub width: u32,
}

/// The appearance of a boxed widget. `None` leaves a part alone: no fill, the
/// inherited text color, no border.
#[derive(Clone, Copy, Debug, PartialEq, Eq, Structural)]
pub struct Appearance {
    /// Fill of the background.
    pub background: Option<Color>,
    /// Color of the text inside.
    pub text_color: Option<Color>,
    /// Border around the box.
    pub border: Option<Border>,
}

/// The outcome of resolving a style: an appearance, or the custom style that
/// the caller is to ask for one.
#[derive(Clone, Copy, Debug, PartialEq, Eq)]
pub enum Resolved<'a, A, S> {
    /// The appearance the library computed.
    Fixed(A),
    /// The custom style the descriptor carried.
    Custom(&'a S),
}

/// The width of every border the library draws.
pub const BORDER_WIDTH: u32 = 1;

impl Appearance {
    /// The appearance that paints nothing.
    pub open spec fn untouched() -> Appearance {
        Appearance { background: None, text_color: None, border: None }
    }
}

impl Palette {
    /// The appearance that applies from this palette what `options` select.
    pub open spec fn filtered(self, options: BoxOptions) -> Appearance {
        Appearance {
            background: if options.opaque_background {
                Some(self.background)
            } else {
                None
            },
            text_color: if options.update_text {
                Some(self.text)
            } else {
                None
            },
            border: if options.show_border {
                Some(Border { color: self.border, width: BORDER_WIDTH })
            } else {
                None
            },
        }
    }

    /// Applies from this palette what `options` select.
    pub fn filter(self, options: BoxOptions) -> (appearance: Appearance)
        ensures
            appearance == self.filtered(options),
    {
        Appearance {
            background: if options.opaque_background {
                Some(self.background)
            } else {
                None
            },
            text_color: if options.update_text {
                Some(self.text)
            } else {
                None
            },
            border: if options.show_border {
                Some(Border { color: self.border, width: BORDER_WIDTH })
            } else {
                None
            },
        }
    }
}

impl ManualColors {
    /// The appearance that paints exactly the colors given.
    pub open spec fn applied(self) -> Appearance {
        Appearance {
            background: self.background,
            text_color: self.text,
            border: match self.border {
                Some(color) => Some(Border { color, width: BORDER_WIDTH }),
                None => None,
            },
        }
    }

    /// Paints exactly the colors given.
    pub fn apply(self) -> (appearance: Appearance)
        ensures
            appearance == self.applied(),
    {
        Appearance {
            background: self.background,
            text_color: self.text,
            border: match self.border {
                Some(color) => Some(Border { color, width: BORDER_WIDTH }),
                None => None,
            },
        }
    }
}

impl Theme {
    /// The contrast palette of a channel.
    pub open spec fn channel_contrast(var: Var) -> ContrastPalette {
        match var {
            Var::Std => ContrastPalette::mono(),
            Var::Alt => Theme::alt_contrast(),
        }
    }

    /// The role colors of `contrast` under this theme for a widget in the
    /// given state. At rest and held down the dim color is muted; under the
    /// pointer nothing is; a disabled widget has the resting colors muted
    /// once more.
    pub open spec fn palette_in_state(
        self,
        contrast: ContrastPalette,
        state: Interaction,
    ) -> Palette {
        match state {
            Interaction::Active | Interaction::Pressed => self.resolved(
                contrast.with_muted_dim(None),
            ),
            Interaction::Hovered => self.resolved(contrast),
            Interaction::Disabled => self.resolved(contrast.with_muted_dim(None)).muted(None),
        }
    }

    /// The contrast palette of the channel that `var` selects.
    pub fn channel(&self, var: Var) -> (contrast: ContrastPalette)
        ensures
            contrast == Theme::channel_contrast(var),
    {
        match var {
            Var::Std => self.contrast_palette(),
            Var::Alt => self.contrast_palette_alt(),
        }
    }

    /// Resolves `contrast` for a widget in the given state.
    pub fn state_palette(&self, contrast: ContrastPalette, state: Interaction) -> (palette: Palette)
        ensures
            palette == self.palette_in_state(contrast, state),
    {
        match state {
            Interaction::Active | Interaction::Pressed => self.convert_palette(
                contrast.mute_dim(None),
            ),
            Interaction::Hovered => self.convert_palette(contrast),
            Interaction::Disabled => self.convert_palette(contrast.mute_dim(None)).mute(None),
        }
    }
}

/// The palettes of a theme are its two channels at rest and under the pointer.
pub proof fn lemma_theme_palette_by_state(theme: Theme)
    ensures
        theme.palettes().mute == theme.palette_in_state(
            Theme::channel_contrast(Var::Std),
            Interaction::Active,
        ),
        theme.palettes().mute_highlight == theme.palette_in_state(
            Theme::channel_contrast(Var::Std),
            Interaction::Hovered,
        ),
        theme.palettes().alt == theme.palette_in_state(
            Theme::channel_contrast(Var::Alt),
            Interaction::Active,
        ),
        theme.palettes().alt_highlight == theme.palette_in_state(
            Theme::channel_contrast(Var::Alt),
            Interaction::Hovered,
        ),
{
}

/// The appearance of the application window.
#[derive(Clone, Copy, Debug, PartialEq, Eq, Structural)]
pub struct ApplicationAppearance {
    /// Color behind everything.
    pub background_color: Color,
    /// Color of text that has none of its own.
    pub text_color: Color,
}

/// The appearance of a piece of text; `None` inherits the color.
#[derive(Clone, Copy, Debug, PartialEq, Eq, Structural)]
pub struct TextAppearance {
    /// Color of the glyphs.
    pub color: Option<Color>,
}

/// The appearance of a toggler: a track with a knob on it.
#[derive(Clone, Copy, Debug, PartialEq, Eq, Structural)]
pub struct TogglerAppearance {
    /// Fill of the track.
    pub background: Color,
    /// Outline of the track, if any.
    pub background_border: Option<Color>,
    /// Fill of the knob.
    pub foreground: Color,
    /// Outline of the knob, if any.
    pub foreground_border: Option<Color>,
}

/// The standard look of a toggler: a track in the foreground color carrying a
/// knob in the background color.
pub open spec fn toggler_look(palette: Palette) -> TogglerAppearance {
    TogglerAppearance {
        background: palette.foreground,
        background_border: None,
        foreground: palette.background,
        foreground_border: Some(palette.foreground),
    }
}

/// The alternate look of a toggler: an outlined track in the background color
/// carrying a knob in the foreground color.
pub open spec fn toggler_alt_look(palette: Palette) -> TogglerAppearance {
    TogglerAppearance {
        background: palette.background,
        background_border: Some(palette.foreground),
        foreground: palette.foreground,
        foreground_border: Some(palette.background),
    }
}

/// The standard look of a button: filled with the foreground color, labelled
/// in the background color, without a border.
pub open spec fn button_look(palette: Palette) -> Appearance {
    Appearance {
        background: Some(palette.foreground),
        text_color: Some(palette.background),
        border: None,
    }
}

/// The alternate look of a button: filled with the background color, labelled
/// in the text color, outlined in the foreground color.
pub open spec fn button_alt_look(palette: Palette) -> Appearance {
    Appearance {
        background: Some(palette.background),
        text_color: Some(palette.text),
        border: Some(Border { color: palette.foreground, width: BORDER_WIDTH }),
    }
}

/// Gives a toggler its standard look.
pub fn toggler_appearance(palette: Palette) -> (appearance: TogglerAppearance)
    ensures
        appearance == toggler_look(palette),
{
    TogglerAppearance {
        background: palette.foreground,
        background_border: None,
        foreground: palette.background,
        foreground_border: Some(palette.foreground),
    }
}

/// Gives a toggler its alternate look.
pub fn toggler_alt_appearance(palette: Palette) -> (appearance: TogglerAppearance)
    ensures
        appearance == toggler_alt_look(palette),
{
    TogglerAppearance {
        background: palette.background,
        background_border: Some(palette.foreground),
        foreground: palette.foreground,
        foreground_border: Some(palette.background),
    }
}

/// Gives a button its standard look.
pub fn button_appearance(palette: Palette) -> (appearance: Appearance)
    ensures
        appearance == button_look(palette),
{
    Appearance {
        background: Some(palette.foreground),
        text_color: Some(palette.background),
        border: None,
    }
}

/// Gives a button its alternate look.
pub fn button_alt_appearance(palette: Palette) -> (appearance: Appearance)
    ensures
        appearance == button_alt_look(palette),
{
    Appearance {
        background: Some(palette.background),
        text_color: Some(palette.text),
        border: Some(Border { color: palette.foreground, width: BORDER_WIDTH }),
    }
}

impl Theme {
    /// What a container with the given style looks like. Without a style
    /// nothing is painted. A themed container takes the resting palette of
    /// its channel through the default options; one with a palette of its own
    /// takes that palette's resting colors through its own options.
    pub open spec fn container_resolved<'a, S>(
        self,
        style: &'a Option<Container<S>>,
    ) -> Resolved<'a, Appearance, S> {
        match style {
            None => Resolved::Fixed(Appearance::untouched()),
            Some(Container::Theme(var)) => Resolved::Fixed(
                self.palette_in_state(Theme::channel_contrast(*var), Interaction::Active).filtered(
                    BoxOptions::container_default(*var),
                ),
            ),
            Some(Container::ContrastPalette(contrast, options)) => Resolved::Fixed(
                self.palette_in_state(*contrast, Interaction::Active).filtered(*options),
            ),
            Some(Container::Colors(colors)) => Resolved::Fixed(colors.applied()),
            Some(Container::Custom(custom)) => Resolved::Custom(custom),
        }
    }

    /// What a button with the given style looks like in the given state. A
    /// themed button takes the palette of its channel for that state and the
    /// look that goes with the channel; one with a palette of its own takes
    /// that palette's colors for the state through its options; colors given
    /// directly are the same in every state.
    pub open spec fn button_resolved<'a, S>(
        self,
        style: &'a Button<S>,
        state: Interaction,
    ) -> Resolved<'a, Appearance, S> {
        match style {
            Button::Theme(Var::Std) => Resolved::Fixed(
                button_look(self.palette_in_state(Theme::channel_contrast(Var::Std), state)),
            ),
            Button::Theme(Var::Alt) => Resolved::Fixed(
                button_alt_look(self.palette_in_state(Theme::channel_contrast(Var::Alt), state)),
            ),
            Button::ContrastPalette(contrast, options) => Resolved::Fixed(
                self.palette_in_state(*contrast, state).filtered(*options),
            ),
            Button::Colors(colors) => Resolved::Fixed(colors.applied()),
            Button::Custom(custom) => Resolved::Custom(custom),
        }
    }

    /// What a toggler with the given style looks like in the given state.
    pub open spec fn toggler_resolved<'a, S>(
        self,
        style: &'a Toggler<S>,
        state: Interaction,
    ) -> Resolved<'a, TogglerAppearance, S> {
        match style {
            Toggler::Theme(Var::Std) => Resolved::Fixed(
                toggler_look(self.palette_in_state(Theme::channel_contrast(Var::Std), state)),
            ),
            Toggler::Theme(Var::Alt) => Resolved::Fixed(
                toggler_alt_look(self.palette_in_state(Theme::channel_contrast(Var::Alt), state)),
            ),
            Toggler::Custom(custom) => Resolved::Custom(custom),
        }
    }

    /// The color of a piece of text with the given style; without a style the
    /// color is inherited.
    pub open spec fn text_resolved(self, style: Option<Text>) -> TextAppearance {
        TextAppearance {
            color: match style {
                None => None,
                Some(Text::Theme) => Some(
                    self.palette_in_state(ContrastPalette::mono(), Interaction::Active).text,
                ),
                Some(Text::ContrastPalette(contrast)) => Some(
                    self.palette_in_state(contrast, Interaction::Active).text,
                ),
                Some(Text::Color(color)) => Some(color),
            },
        }
    }

    /// What the application window with the given style looks like.
    pub open spec fn application_resolved<'a, S>(
        self,
        style: &'a Application<S>,
    ) -> Resolved<'a, ApplicationAppearance, S> {
        match style {
            Application::Theme => {
                let palette = self.palette_in_state(ContrastPalette::mono(), Interaction::Active);
                Resolved::Fixed(
                    ApplicationAppearance {
                        background_color: palette.background,
                        text_color: palette.text,
                    },
                )
            },
            Application::ContrastPalette(contrast) => {
                let palette = self.palette_in_state(*contrast, Interaction::Active);
                Resolved::Fixed(
                    ApplicationAppearance {
                        background_color: palette.background,
                        text_color: palette.text,
                    },
                )
            },
            Application::Custom(custom) => Resolved::Custom(custom),
        }
    }

    /// Resolves the style of a container.
    pub fn container_appearance<'a, S>(
        &self,
        style: &'a Option<Container<S>>,
    ) -> (r: Resolved<'a, Appearance, S>)
        ensures
            r == self.container_resolved(style),
    {
        match style {
            None => Resolved::Fixed(
                Appearance { background: None, text_color: None, border: None },
            ),
            Some(Container::Theme(var)) => {
                let palette = self.state_palette(self.channel(*var), Interaction::Active);
                Resolved::Fixed(palette.filter(BoxOptions::container(*var)))
            },
            Some(Container::ContrastPalette(contrast, options)) => {
                let palette = self.state_palette(*contrast, Interaction::Active);
                Resolved::Fixed(palette.filter(*options))
            },
            Some(Container::Colors(colors)) => Resolved::Fixed(colors.apply()),
            Some(Container::Custom(custom)) => Resolved::Custom(custom),
        }
    }

    /// Resolves the style of a piece of text.
    pub fn text_appearance(&self, style: Option<Text>) -> (r: TextAppearance)
        ensures
            r == self.text_resolved(style),
    {
        let color = match style {
            None => None,
            Some(Text::Theme) => Some(
                self.state_palette(self.contrast_palette(), Interaction::Active).text,
            ),
            Some(Text::ContrastPalette(contrast)) => Some(
                self.state_palette(contrast, Interaction::Active).text,
            ),
            Some(Text::Color(color)) => Some(color),
        };
        TextAppearance { color }
    }

    /// Resolves the style of the application window.
    pub fn application_appearance<'a, S>(
        &self,
        style: &'a Application<S>,
    ) -> (r: Resolved<'a, ApplicationAppearance, S>)
        ensures
            r == self.application_resolved(style),
    {
        match style {
            Application::Theme => {
                let palette = self.state_palette(self.contrast_palette(), Interaction::Active);
                Resolved::Fixed(
                    ApplicationAppearance {
                        background_color: palette.background,
                        text_color: palette.text,
                    },
                )
            },
            Application::ContrastPalette(contrast) => {
                let palette = self.state_palette(*contrast, Interaction::Active);
                Resolved::Fixed(
                    ApplicationAppearance {
                        background_color: palette.background,
                        text_color: palette.text,
                    },
                )
            },
            Application::Custom(custom) => Resolved::Custom(custom),
        }
    }

    /// Resolves the style of a toggler in the given state.
    pub fn toggler_in_state<'a, S>(
        &self,
        style: &'a Toggler<S>,
        state: Interaction,
    ) -> (r: Resolved<'a, TogglerAppearance, S>)
        ensures
            r == self.toggler_resolved(style, state),
    {
        match style {
            Toggler::Theme(Var::Std) => Resolved::Fixed(
                toggler_appearance(self.state_palette(self.channel(Var::Std), state)),
            ),
            Toggler::Theme(Var::Alt) => Resolved::Fixed(
                toggler_alt_appearance(self.state_palette(self.channel(Var::Alt), state)),
            ),
            Toggler::Custom(custom) => Resolved::Custom(custom),
        }
    }

    /// Resolves the style of a toggler at rest.
    pub fn toggler_active<'a, S>(
        &self,
        style: &'a Toggler<S>,
    ) -> (r: Resolved<'a, TogglerAppearance, S>)
        ensures
            r == self.toggler_resolved(style, Interaction::Active),
    {
        self.toggler_in_state(style, Interaction::Active)
    }

    /// Resolves the style of a toggler under the pointer.
    pub fn toggler_hovered<'a, S>(
        &self,
        style: &'a Toggler<S>,
    ) -> (r: Resolved<'a, TogglerAppearance, S>)
        ensures
            r == self.toggler_resolved(style, Interaction::Hovered),
    {
        self.toggler_in_state(style, Interaction::Hovered)
    }

    /// Resolves the style of a button in the given state.
    pub fn button_in_state<'a, S>(
        &self,
        style: &'a Button<S>,
        state: Interaction,
    ) -> (r: Resolved<'a, Appearance, S>)
        ensures
            r == self.button_resolved(style, state),
    {
        match style {
            Button::Theme(Var::Std) => Resolved::Fixed(
                button_appearance(self.state_palette(self.channel(Var::Std), state)),
            ),
            Button::Theme(Var::Alt) => Resolved::Fixed(
                button_alt_appearance(self.state_palette(self.channel(Var::Alt), state)),
            ),
            Button::ContrastPalette(contrast, options) => Resolved::Fixed(
                self.state_palette(*contrast, state).filter(*options),
            ),
            Button::Colors(colors) => Resolved::Fixed(colors.apply()),
            Button::Custom(custom) => Resolved::Custom(custom),
        }
    }

    /// Resolves the style of a button at rest.
    pub fn button_active<'a, S>(&self, style: &'a Button<S>) -> (r: Resolved<'a, Appearance, S>)
        ensures
            r == self.button_resolved(style, Interaction::Active),
    {
        self.button_in_state(style, Interaction::Active)
    }

    /// Resolves the style of a button under the pointer.
    pub fn button_hovered<'a, S>(&self, style: &'a Button<S>) -> (r: Resolved<'a, Appearance, S>)
        ensures
            r == self.button_resolved(style, Interaction::Hovered),
    {
        self.button_in_state(style, Interaction::Hovered)
    }

    /// Resolves the style of a button held down.
    pub fn button_pressed<'a, S>(&self, style: &'a Button<S>) -> (r: Resolved<'a, Appearance, S>)
        ensures
            r == self.button_resolved(style, Interaction::Pressed),
            r == self.button_resolved(style, Interaction::Active),
    {
        self.button_in_state(style, Interaction::Pressed)
    }

    /// Resolves the style of a button that takes no input.
    pub fn button_disabled<'a, S>(&self, style: &'a Button<S>) -> (r: Resolved<'a, Appearance, S>)
        ensures
            r == self.button_resolved(style, Interaction::Disabled),
    {
        self.button_in_state(style, Interaction::Disabled)
    }
}

} // verus!
