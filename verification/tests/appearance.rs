use bookmark_ui::appearance::{
    button_alt_appearance, button_appearance, toggler_alt_appearance, toggler_appearance,
    Appearance, ApplicationAppearance, Border, Resolved, TextAppearance, TogglerAppearance,
    BORDER_WIDTH,
};
use bookmark_ui::color::{Color, ContrastPalette, Palette, ONE};
use bookmark_ui::theme::{
    Application, BoxOptions, Button, Container, Interaction, ManualColors, Text, Toggler, Var,
};
use bookmark_ui::Theme;

const WHITE: Color = Color { r: ONE, g: ONE, b: ONE, a: ONE };
const BLACK: Color = Color { r: 0, g: 0, b: 0, a: ONE };
const SOFT_BLACK: Color = Color { r: 2_097_152, g: 2_097_152, b: 2_097_152, a: ONE };
const SOFTER_BLACK: Color = Color { r: 3_670_016, g: 3_670_016, b: 3_670_016, a: ONE };
const THEMES: [Theme; 3] = [Theme::Light, Theme::Dark, Theme::DarkMute];

fn roles() -> Palette {
    Palette {
        border: Color { r: 1, g: 1, b: 1, a: 1 },
        background: Color { r: 2, g: 2, b: 2, a: 2 },
        foreground: Color { r: 3, g: 3, b: 3, a: 3 },
        text: Color { r: 4, g: 4, b: 4, a: 4 },
    }
}

fn fixed<A: Copy>(r: Resolved<'_, A, u8>) -> A {
    match r {
        Resolved::Fixed(a) => a,
        Resolved::Custom(_) => panic!("a custom style was handed back"),
    }
}

#[test]
fn defaults() {
    assert_eq!(Var::default(), Var::Std);
    assert_eq!(Text::default(), Text::Theme);
    assert!(matches!(Container::<u8>::default(), Container::Theme(Var::Std)));
    assert!(matches!(Button::<u8>::default(), Button::Theme(Var::Std)));
    assert!(matches!(Toggler::<u8>::default(), Toggler::Theme(Var::Std)));
    assert!(matches!(Application::<u8>::default(), Application::Theme));
    assert_eq!(BORDER_WIDTH, 1);
}

#[test]
fn filter_applies_what_options_select() {
    let p = roles();
    let all = BoxOptions { show_border: true, update_text: true, opaque_background: true };
    assert_eq!(
        p.filter(all),
        Appearance {
            background: Some(p.background),
            text_color: Some(p.text),
            border: Some(Border { color: p.border, width: 1 }),
        }
    );
    let none = BoxOptions { show_border: false, update_text: false, opaque_background: false };
    assert_eq!(p.filter(none), Appearance { background: None, text_color: None, border: None });
    let text_only = BoxOptions { show_border: false, update_text: true, opaque_background: false };
    assert_eq!(
        p.filter(text_only),
        Appearance { background: None, text_color: Some(p.text), border: None }
    );
    let border_only = BoxOptions { show_border: true, update_text: false, opaque_background: false };
    assert_eq!(
        p.filter(border_only),
        Appearance { background: None, text_color: None, border: Some(Border { color: p.border, width: 1 }) }
    );
}

#[test]
fn container_default_options() {
    assert_eq!(
        BoxOptions::container(Var::Std),
        BoxOptions { show_border: false, update_text: true, opaque_background: true }
    );
    assert_eq!(
        BoxOptions::container(Var::Alt),
        BoxOptions { show_border: true, update_text: true, opaque_background: true }
    );
}

#[test]
fn manual_colors_pass_through() {
    let c = Color { r: 9, g: 8, b: 7, a: 6 };
    let m = ManualColors { border: Some(c), background: None, text: Some(WHITE) };
    assert_eq!(
        m.apply(),
        Appearance { background: None, text_color: Some(WHITE), border: Some(Border { color: c, width: 1 }) }
    );
    let nothing = ManualColors { border: None, background: None, text: None };
    assert_eq!(nothing.apply(), Appearance { background: None, text_color: None, border: None });
}

#[test]
fn channels() {
    for theme in THEMES {
        assert_eq!(theme.channel(Var::Std), theme.contrast_palette());
        assert_eq!(theme.channel(Var::Alt), theme.contrast_palette_alt());
    }
}

#[test]
fn state_palettes() {
    let mono = ContrastPalette::monochrome();
    let light = Theme::Light;
    let rest = Palette { border: SOFT_BLACK, background: WHITE, foreground: SOFT_BLACK, text: SOFT_BLACK };
    assert_eq!(light.state_palette(mono, Interaction::Active), rest);
    assert_eq!(light.state_palette(mono, Interaction::Pressed), rest);
    assert_eq!(
        light.state_palette(mono, Interaction::Hovered),
        Palette { border: BLACK, background: WHITE, foreground: BLACK, text: BLACK }
    );
    let faded_white = Color { r: 14_680_064, g: 14_680_064, b: 14_680_064, a: ONE };
    assert_eq!(
        light.state_palette(mono, Interaction::Disabled),
        Palette {
            border: SOFTER_BLACK,
            background: faded_white,
            foreground: SOFTER_BLACK,
            text: SOFTER_BLACK,
        }
    );
}

#[test]
fn state_palettes_match_theme_palette() {
    for theme in THEMES {
        let p = theme.theme_palette();
        assert_eq!(theme.state_palette(theme.channel(Var::Std), Interaction::Active), p.mute);
        assert_eq!(theme.state_palette(theme.channel(Var::Std), Interaction::Hovered), p.mute_highlight);
        assert_eq!(theme.state_palette(theme.channel(Var::Alt), Interaction::Active), p.alt);
        assert_eq!(theme.state_palette(theme.channel(Var::Alt), Interaction::Hovered), p.alt_highlight);
        assert_eq!(
            theme.state_palette(theme.channel(Var::Std), Interaction::Disabled),
            p.mute.mute(None)
        );
    }
}

#[test]
fn container_without_style_is_untouched() {
    for theme in THEMES {
        let style: Option<Container<u8>> = None;
        assert_eq!(
            fixed(theme.container_appearance(&style)),
            Appearance { background: None, text_color: None, border: None }
        );
    }
}

#[test]
fn container_theme_default() {
    let std = Some(Container::<u8>::Theme(Var::Std));
    assert_eq!(
        fixed(Theme::Light.container_appearance(&std)),
        Appearance { background: Some(WHITE), text_color: Some(SOFT_BLACK), border: None }
    );
    assert_eq!(
        fixed(Theme::Dark.container_appearance(&std)),
        Appearance { background: Some(SOFT_BLACK), text_color: Some(WHITE), border: None }
    );
    assert_eq!(
        fixed(Theme::DarkMute.container_appearance(&std)),
        Appearance { background: Some(SOFTER_BLACK), text_color: Some(WHITE), border: None }
    );
    let alt = Some(Container::<u8>::Theme(Var::Alt));
    for theme in THEMES {
        let p = theme.theme_palette().alt;
        assert_eq!(
            fixed(theme.container_appearance(&alt)),
            Appearance {
                background: Some(p.background),
                text_color: Some(p.text),
                border: Some(Border { color: p.border, width: 1 }),
            }
        );
    }
}

#[test]
fn container_explicit_palette() {
    let contrast = ContrastPalette { bright: Color::from_rgb8(255, 0, 0), dim: BLACK };
    for theme in THEMES {
        let p = theme.convert_palette(contrast.mute_dim(None));
        for show_border in [false, true] {
            for update_text in [false, true] {
                for opaque_background in [false, true] {
                    let options = BoxOptions { show_border, update_text, opaque_background };
                    let style = Some(Container::<u8>::ContrastPalette(contrast, options));
                    let a = fixed(theme.container_appearance(&style));
                    assert_eq!(a, p.filter(options));
                    assert_eq!(a.border.is_some(), show_border);
                    assert_eq!(a.text_color.is_some(), update_text);
                    assert_eq!(a.background.is_some(), opaque_background);
                }
            }
        }
    }
}

#[test]
fn container_manual_colors_ignore_theme() {
    let m = ManualColors { border: None, background: Some(SOFT_BLACK), text: None };
    let style = Some(Container::<u8>::Colors(m));
    for theme in THEMES {
        assert_eq!(
            fixed(theme.container_appearance(&style)),
            Appearance { background: Some(SOFT_BLACK), text_color: None, border: None }
        );
    }
}

#[test]
fn custom_styles_are_handed_back() {
    for theme in THEMES {
        let c = Some(Container::Custom(11u8));
        assert_eq!(theme.container_appearance(&c), Resolved::Custom(&11));
        let b = Button::Custom(12u8);
        assert_eq!(theme.button_active(&b), Resolved::Custom(&12));
        assert_eq!(theme.button_hovered(&b), Resolved::Custom(&12));
        assert_eq!(theme.button_pressed(&b), Resolved::Custom(&12));
        assert_eq!(theme.button_disabled(&b), Resolved::Custom(&12));
        let t = Toggler::Custom(13u8);
        assert_eq!(theme.toggler_active(&t), Resolved::Custom(&13));
        assert_eq!(theme.toggler_hovered(&t), Resolved::Custom(&13));
        let a = Application::Custom(14u8);
        assert_eq!(theme.application_appearance(&a), Resolved::Custom(&14));
    }
}

#[test]
fn text_styles() {
    for theme in THEMES {
        assert_eq!(theme.text_appearance(None), TextAppearance { color: None });
        assert_eq!(
            theme.text_appearance(Some(Text::Theme)),
            TextAppearance { color: Some(theme.theme_palette().mute.text) }
        );
        let contrast = ContrastPalette { bright: WHITE, dim: Color::from_rgb8(0, 0, 40) };
        assert_eq!(
            theme.text_appearance(Some(Text::ContrastPalette(contrast))),
            TextAppearance { color: Some(theme.convert_palette(contrast.mute_dim(None)).text) }
        );
        let c = Color { r: 5, g: 6, b: 7, a: 8 };
        assert_eq!(theme.text_appearance(Some(Text::Color(c))), TextAppearance { color: Some(c) });
    }
    assert_eq!(Theme::Light.text_appearance(Some(Text::Theme)).color, Some(SOFT_BLACK));
    assert_eq!(Theme::Dark.text_appearance(Some(Text::Theme)).color, Some(WHITE));
}

#[test]
fn application_styles() {
    assert_eq!(
        fixed(Theme::Light.application_appearance(&Application::Theme)),
        ApplicationAppearance { background_color: WHITE, text_color: SOFT_BLACK }
    );
    assert_eq!(
        fixed(Theme::DarkMute.application_appearance(&Application::Theme)),
        ApplicationAppearance { background_color: SOFTER_BLACK, text_color: WHITE }
    );
    let contrast = ContrastPalette::monochrome().invert();
    for theme in THEMES {
        let p = theme.convert_palette(contrast.mute_dim(None));
        assert_eq!(
            fixed(theme.application_appearance(&Application::ContrastPalette(contrast))),
            ApplicationAppearance { background_color: p.background, text_color: p.text }
        );
    }
}

#[test]
fn toggler_looks() {
    let p = roles();
    assert_eq!(
        toggler_appearance(p),
        TogglerAppearance {
            background: p.foreground,
            background_border: None,
            foreground: p.background,
            foreground_border: Some(p.foreground),
        }
    );
    assert_eq!(
        toggler_alt_appearance(p),
        TogglerAppearance {
            background: p.background,
            background_border: Some(p.foreground),
            foreground: p.foreground,
            foreground_border: Some(p.background),
        }
    );
}

#[test]
fn button_looks() {
    let p = roles();
    assert_eq!(
        button_appearance(p),
        Appearance { background: Some(p.foreground), text_color: Some(p.background), border: None }
    );
    assert_eq!(
        button_alt_appearance(p),
        Appearance {
            background: Some(p.background),
            text_color: Some(p.text),
            border: Some(Border { color: p.foreground, width: 1 }),
        }
    );
}

#[test]
fn toggler_by_state() {
    for theme in THEMES {
        let p = theme.theme_palette();
        let std = Toggler::<u8>::Theme(Var::Std);
        assert_eq!(fixed(theme.toggler_active(&std)), toggler_appearance(p.mute));
        assert_eq!(fixed(theme.toggler_hovered(&std)), toggler_appearance(p.mute_highlight));
        let alt = Toggler::<u8>::Theme(Var::Alt);
        assert_eq!(fixed(theme.toggler_active(&alt)), toggler_alt_appearance(p.alt));
        assert_eq!(fixed(theme.toggler_hovered(&alt)), toggler_alt_appearance(p.alt_highlight));
        assert_eq!(
            fixed(theme.toggler_in_state(&std, Interaction::Disabled)),
            toggler_appearance(p.mute.mute(None))
        );
    }
}

#[test]
fn button_by_state() {
    for theme in THEMES {
        let p = theme.theme_palette();
        let std = Button::<u8>::Theme(Var::Std);
        assert_eq!(fixed(theme.button_active(&std)), button_appearance(p.mute));
        assert_eq!(fixed(theme.button_hovered(&std)), button_appearance(p.mute_highlight));
        assert_eq!(fixed(theme.button_pressed(&std)), button_appearance(p.mute));
        assert_eq!(fixed(theme.button_disabled(&std)), button_appearance(p.mute.mute(None)));
        let alt = Button::<u8>::Theme(Var::Alt);
        assert_eq!(fixed(theme.button_active(&alt)), button_alt_appearance(p.alt));
        assert_eq!(fixed(theme.button_hovered(&alt)), button_alt_appearance(p.alt_highlight));
        assert_eq!(fixed(theme.button_pressed(&alt)), button_alt_appearance(p.alt));
        assert_eq!(fixed(theme.button_disabled(&alt)), button_alt_appearance(p.alt.mute(None)));
        assert_eq!(
            fixed(theme.button_in_state(&std, Interaction::Hovered)),
            fixed(theme.button_hovered(&std))
        );
    }
}

#[test]
fn light_button_values() {
    let std = Button::<u8>::Theme(Var::Std);
    assert_eq!(
        fixed(Theme::Light.button_active(&std)),
        Appearance { background: Some(SOFT_BLACK), text_color: Some(WHITE), border: None }
    );
    assert_eq!(
        fixed(Theme::Light.button_hovered(&std)),
        Appearance { background: Some(BLACK), text_color: Some(WHITE), border: None }
    );
    assert_eq!(
        fixed(Theme::Light.button_disabled(&std)),
        Appearance {
            background: Some(SOFTER_BLACK),
            text_color: Some(Color { r: 14_680_064, g: 14_680_064, b: 14_680_064, a: ONE }),
            border: None,
        }
    );
}

#[test]
fn button_explicit_palette_and_colors() {
    let contrast = ContrastPalette { bright: WHITE, dim: Color::from_rgb8(40, 0, 0) };
    let options = BoxOptions { show_border: true, update_text: false, opaque_background: true };
    let style = Button::<u8>::ContrastPalette(contrast, options);
    for theme in THEMES {
        let rest = theme.convert_palette(contrast.mute_dim(None));
        assert_eq!(fixed(theme.button_active(&style)), rest.filter(options));
        assert_eq!(fixed(theme.button_pressed(&style)), rest.filter(options));
        assert_eq!(fixed(theme.button_hovered(&style)), theme.convert_palette(contrast).filter(options));
        assert_eq!(fixed(theme.button_disabled(&style)), rest.mute(None).filter(options));
        let m = ManualColors { border: Some(BLACK), background: None, text: Some(WHITE) };
        let colors = Button::<u8>::Colors(m);
        for a in [
            theme.button_active(&colors),
            theme.button_hovered(&colors),
            theme.button_pressed(&colors),
            theme.button_disabled(&colors),
        ] {
            assert_eq!(fixed(a), m.apply());
        }
    }
}
