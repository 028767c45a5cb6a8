//! Theme-aware styling and composition for a bookmark browser's widgets.
//!
//! A [`Theme`] turns a pair of contrasting colors into the colors that each
//! part of a widget is painted with; the modules build on that to resolve
//! per-widget style choices and to compose rows, columns and tab views.

use vstd::prelude::*;

pub mod app;
pub mod appearance;
pub mod color;
pub mod data;
pub mod extended;
pub mod layout;
pub mod tabs;
pub mod text_button;
pub mod theme;
pub mod toolkit;
pub mod util;

use crate::color::{
    clamp_unit, lemma_mute_stops_short, Color, ColorManipExt, ContrastPalette, Palette,
    ThemePalette, DEFAULT_MUTE, HALF,
};

verus! {

/// The visual mode selected for the whole interface.
#[derive(Clone, Copy, Debug, PartialEq, Eq, Structural)]
pub enum Theme {
    /// Bright backgrounds with dim content.
    Light,
    /// Dim backgrounds with bright content.
    Dark,
    /// Like `Dark`, with the background softened toward gray.
    DarkMute,
}

impl Default for Theme {
    fn default() -> (theme: Theme)
        ensures
            theme == Theme::Light,
    {
        Theme::Light
    }
}

impl Theme {
    /// The contrast palette of the secondary channel: pale blue on deep navy.
    pub open spec fn alt_contrast() -> ContrastPalette {
        ContrastPalette { bright: Color::of_rgb8(150, 200, 255), dim: Color::of_rgb8(0, 0, 40) }
    }

    /// The role colors that `contrast` takes under this theme.
    ///
    /// A light theme paints the background bright and everything else dim; a
    /// dark theme does the reverse; the muted dark theme also softens the
    /// background, and only the background.
    pub open spec fn resolved(self, contrast: ContrastPalette) -> Palette {
        match self {
            Theme::Light => Palette {
                border: contrast.dim,
                background: contrast.bright,
                foreground: contrast.dim,
                text: contrast.dim,
            },
            Theme::Dark => Palette {
                border: contrast.bright,
                background: contrast.dim,
                foreground: contrast.bright,
                text: contrast.bright,
            },
            Theme::DarkMute => Palette {
                border: contrast.bright,
                background: contrast.dim.muted(None),
                foreground: contrast.bright,
                text: contrast.bright,
            },
        }
    }

    /// The four palettes of this theme. The resting palettes come from the
    /// contrast palettes with their dim color muted; the highlighted ones
    /// from the contrast palettes as they are.
    pub open spec fn palettes(self) -> ThemePalette {
        ThemePalette {
            mute: self.resolved(ContrastPalette::mono().with_muted_dim(None)),
            mute_highlight: self.resolved(ContrastPalette::mono()),
            alt: self.resolved(Theme::alt_contrast().with_muted_dim(None)),
            alt_highlight: self.resolved(Theme::alt_contrast()),
        }
    }

    /// The contrast palette of the primary channel.
    #[must_use]
    pub fn contrast_palette(&self) -> (p: ContrastPalette)
        ensures
            p == ContrastPalette::mono(),
    {
        ContrastPalette::monochrome()
    }

    /// The contrast palette of the secondary channel.
    #[must_use]
    pub fn contrast_palette_alt(&self) -> (p: ContrastPalette)
        ensures
            p == Theme::alt_contrast(),
    {
        ContrastPalette { bright: Color::from_rgb8(150, 200, 255), dim: Color::from_rgb8(0, 0, 40) }
    }

    /// The palettes of this theme.
    #[must_use]
    pub fn theme_palette(&self) -> (p: ThemePalette)
        ensures
            p == self.palettes(),
    {
        ThemePalette {
            mute: self.convert_palette(self.contrast_palette().mute_dim(None)),
            alt: self.convert_palette(self.contrast_palette_alt().mute_dim(None)),
            mute_highlight: self.convert_palette(self.contrast_palette()),
            alt_highlight: self.convert_palette(self.contrast_palette_alt()),
        }
    }

    /// Resolves a contrast palette into role colors under this theme.
    #[must_use]
    pub fn convert_palette(&self, contrast: ContrastPalette) -> (p: Palette)
        ensures
            p == self.resolved(contrast),
    {
        let ContrastPalette { bright, dim } = contrast;
        match self {
            Theme::Light => Palette { border: dim, background: bright, foreground: dim, text: dim },
            Theme::Dark => Palette {
                border: bright,
                background: dim,
                foreground: bright,
                text: bright,
            },
            Theme::DarkMute => Palette {
                border: bright,
                background: dim.mute(None),
                foreground: bright,
                text: bright,
            },
        }
    }

    /// The corner radius of borders, in pixels.
    #[must_use]
    pub fn border_radius(&self) -> (radius: u32)
        ensures
            radius == 0,
    {
        0
    }
}

/// Under the light and the dark theme, two different contrast colors resolve
/// to a background and a text color that differ; border, foreground and text
/// share one of the two colors and the background has the other.
pub proof fn lemma_resolve_keeps_contrast(theme: Theme, contrast: ContrastPalette)
    requires
        contrast.bright != contrast.dim,
        theme != Theme::DarkMute,
    ensures
        theme.resolved(contrast).background != theme.resolved(contrast).text,
        theme.resolved(contrast).border == theme.resolved(contrast).text,
        theme.resolved(contrast).foreground == theme.resolved(contrast).text,
{
}

/// Under the muted dark theme the text keeps the bright color, and the
/// background is the dim color softened toward mid-gray: the opacity is kept,
/// and a channel of the background is mid-gray only where that channel of the
/// dim color already was.
pub proof fn lemma_dark_mute_softens_background(contrast: ContrastPalette)
    ensures
        Theme::DarkMute.resolved(contrast).text == contrast.bright,
        Theme::DarkMute.resolved(contrast).background == contrast.dim.muted(None),
        Theme::DarkMute.resolved(contrast).background.a == contrast.dim.a,
        Theme::DarkMute.resolved(contrast).background.r == HALF <==> clamp_unit(
            contrast.dim.r as int,
        ) == HALF,
        Theme::DarkMute.resolved(contrast).background.g == HALF <==> clamp_unit(
            contrast.dim.g as int,
        ) == HALF,
        Theme::DarkMute.resolved(contrast).background.b == HALF <==> clamp_unit(
            contrast.dim.b as int,
        ) == HALF,
{
    lemma_mute_stops_short(contrast.dim, DEFAULT_MUTE);
}

} // verus!
