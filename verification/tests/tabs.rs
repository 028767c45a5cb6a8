use bookmark_ui::appearance::Appearance;
use bookmark_ui::color::Color;
use bookmark_ui::extended::{Extended, Pair, Shades};
use bookmark_ui::layout::Axis;
use bookmark_ui::tabs::{Content, Tab, TabHeader, Tabs, TabsBuilder, TabsError, TAB_MAX_WIDTH};
use bookmark_ui::theme::{Button, Container};

fn gray(n: i32) -> Color {
    Color { r: n, g: n, b: n, a: n }
}

fn shades(n: i32) -> Shades {
    Shades {
        base: Pair { color: gray(n), text: gray(n + 1) },
        weak: Pair { color: gray(n + 2), text: gray(n + 3) },
        strong: Pair { color: gray(n + 4), text: gray(n + 5) },
    }
}

fn palette() -> Extended {
    Extended {
        background: shades(10),
        primary: shades(20),
        secondary: shades(30),
        success: shades(40),
        danger: shades(50),
    }
}

#[test]
fn three_tabs_second_selected() {
    let labels = ["a", "b", "c"];
    let tabs = Tabs::new(&labels, 1, |index: usize| index * 100, |label: &&str| format!("content of {label}"));
    assert_eq!(tabs.selected(), 1);
    let view = tabs.compose();
    assert_eq!(view.headers.axis, Axis::Horizontal);
    assert_eq!(
        view.headers.children,
        vec![
            TabHeader { label: "a".to_string(), on_press: Some(0), max_width: 150 },
            TabHeader { label: "b".to_string(), on_press: None, max_width: 150 },
            TabHeader { label: "c".to_string(), on_press: Some(2), max_width: 150 },
        ]
    );
    assert_eq!(view.content, "content of b");
    assert_eq!((view.on_choice)(0), 0);
    assert_eq!((view.on_choice)(2), 200);
}

#[test]
fn headers_are_width_bounded() {
    assert_eq!(TAB_MAX_WIDTH, 150);
    let labels = [1u8, 2];
    let view = Tabs::new(&labels, 0, (), |n: &u8| *n).compose();
    assert!(view.headers.children.iter().all(|h| h.max_width == 150));
    assert_eq!(view.headers.children[0].label, "1");
    assert_eq!(view.content, 1);
}

#[test]
fn content_is_rendered_once_for_the_selected_tab() {
    let labels = vec!["x".to_string(), "y".to_string()];
    let mut calls = 0;
    let view = Tabs::new(&labels, 1, (), |label: &String| {
        calls += 1;
        label.clone()
    })
    .compose();
    assert_eq!(view.content, "y");
    assert_eq!(calls, 1);
}

#[test]
fn single_tab() {
    let labels = ["only"];
    let view = Tabs::new(&labels, 0, (), |_: &&str| ()).compose();
    assert_eq!(
        view.headers.children,
        vec![TabHeader { label: "only".to_string(), on_press: None, max_width: 150 }]
    );
}

#[test]
fn try_new_rejects_an_index_out_of_range() {
    let labels = ["a", "b", "c"];
    assert!(Tabs::try_new(&labels, 3, (), ()).is_none());
    assert!(Tabs::try_new(&labels, usize::MAX, (), ()).is_none());
    assert!(Tabs::try_new(&labels, 2, (), ()).is_some());
    assert!(Tabs::try_new(&labels, 0, (), ()).is_some());
    let empty: [&str; 0] = [];
    assert!(Tabs::try_new(&empty, 0, (), ()).is_none());
}

#[test]
fn builder_reports_the_first_problem() {
    let labels = ["a", "b"];
    let b: TabsBuilder<&str, (), ()> = TabsBuilder::new();
    assert_eq!(b.build().err(), Some(TabsError::NoTabs));
    let b: TabsBuilder<&str, (), ()> = TabsBuilder::default().current(9).on_choice(()).content(());
    assert_eq!(b.build().err(), Some(TabsError::NoTabs));
    let b: TabsBuilder<&str, (), ()> = TabsBuilder::new().tabs(&labels).on_choice(()).content(());
    assert_eq!(b.build().err(), Some(TabsError::NoCurrent));
    let b: TabsBuilder<&str, (), ()> = TabsBuilder::new().tabs(&labels).current(9).content(());
    assert_eq!(b.build().err(), Some(TabsError::NoOnChoice));
    let b: TabsBuilder<&str, (), ()> = TabsBuilder::new().tabs(&labels).current(9).on_choice(());
    assert_eq!(b.build().err(), Some(TabsError::NoContent));
    let b = TabsBuilder::new().tabs(&labels).current(2).on_choice(()).content(());
    assert_eq!(b.build().err(), Some(TabsError::CurrentOutOfRange));
}

#[test]
fn builder_builds_in_any_order() {
    let labels = ["a", "b"];
    let tabs = TabsBuilder::new()
        .content(|label: &&str| label.len())
        .on_choice(|index: usize| index)
        .current(1)
        .tabs(&labels)
        .build();
    let view = match tabs {
        Ok(tabs) => tabs.compose(),
        Err(error) => panic!("{error:?}"),
    };
    assert_eq!(view.headers.children[0].on_press, Some(0));
    assert_eq!(view.headers.children[1].on_press, None);
    assert_eq!(view.content, 1);
}

#[test]
fn builder_setters_overwrite() {
    let labels = ["a", "b"];
    let b = TabsBuilder::new().tabs(&labels).current(7).current(0).on_choice(()).content(());
    assert_eq!(b.current, Some(0));
    assert!(b.build().is_ok());
}

#[test]
fn tab_header_style() {
    let p = palette();
    assert!(matches!(Tab::build(), Button::Custom(Tab)));
    assert_eq!(
        Tab.active(&p),
        Appearance { background: Some(gray(14)), text_color: Some(gray(13)), border: None }
    );
    assert_eq!(
        Tab.disabled(&p),
        Appearance { background: Some(gray(10)), text_color: Some(gray(15)), border: None }
    );
    assert_eq!(
        Tab.hovered(&p),
        Appearance { background: Some(gray(12)), text_color: Some(gray(15)), border: None }
    );
    assert_eq!(Tab.pressed(&p), Tab.disabled(&p));
}

#[test]
fn content_pane_style() {
    let p = palette();
    assert!(matches!(Content::build(), Container::Custom(Content)));
    assert_eq!(
        Content.appearance(&p),
        Appearance { background: Some(gray(10)), text_color: Some(gray(11)), border: None }
    );
}
