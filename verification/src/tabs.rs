//! A tabbed view: a row of tab headers above the content of the selected tab.

use vstd::prelude::*;
use vstd::string::to_string_from_display_ensures;

use crate::appearance::Appearance;
use crate::extended::Extended;
use crate::layout::{Axis, Group};
use crate::theme::{Button, Container};

verus! {

/// The greatest width of a tab header, in pixels.
pub const TAB_MAX_WIDTH: u32 = 150;

/// The pieces a tabbed view is made from: the tabs, the index of the selected
/// one, what turns a pressed tab's index into a message, and what renders the
/// content of a tab.
pub struct Tabs<'b, State, OnChoice, Content> {
    tabs: &'b [State],
    current: usize,
    on_choice: OnChoice,
    content: Content,
}

/// The header of one tab.
#[derive(Clone, Debug, PartialEq, Eq)]
pub struct TabHeader {
    /// The text on the header.
    pub label: String,
    /// The index to report when the header is pressed; `None` for the
    /// selected tab, which cannot be pressed.
    pub on_press: Option<usize>,
    /// The width the header may not exceed.
    pub max_width: u32,
}

/// A composed tabbed view.
pub struct TabView<OnChoice, Widget> {
    /// The headers, one per tab, side by side in the order of the tabs.
    pub headers: Group<TabHeader>,
    /// Turns the index carried by a pressed header into a message.
    pub on_choice: OnChoice,
    /// The rendered content of the selected tab, shown below the headers.
    pub content: Widget,
}

/// Whether `header` is the header of the tab `state` at `index`, given which
/// tab is selected.
pub open spec fn is_header_of<State: core::fmt::Display>(
    header: TabHeader,
    state: &State,
    index: int,
    current: int,
) -> bool {
    &&& to_string_from_display_ensures::<State>(state, header.label)
    &&& header.on_press == if index == current {
        None
    } else {
        Some(index as usize)
    }
    &&& header.max_width == TAB_MAX_WIDTH
}

impl<'b, State, OnChoice, Content> Tabs<'b, State, OnChoice, Content> {
    #[verifier::type_invariant]
    spec fn selects_a_tab(self) -> bool {
        self.current < self.tabs@.len()
    }

    /// The tabs, in order.
    pub closed spec fn tabs(self) -> Seq<State> {
        self.tabs@
    }

    /// The index of the selected tab.
    pub closed spec fn current(self) -> int {
        self.current as int
    }

    /// The function that makes the message of a pressed tab.
    pub closed spec fn on_choice(self) -> OnChoice {
        self.on_choice
    }

    /// The function that renders the content of a tab.
    pub closed spec fn content(self) -> Content {
        self.content
    }

    /// The index of the selected tab, which always is one of the tabs.
    pub fn selected(&self) -> (index: usize)
        ensures
            index == self.current(),
            index < self.tabs().len(),
    {
        proof {
            use_type_invariant(self);
        }
        self.current
    }

    /// Puts the pieces of a tabbed view together; `current` has to be the
    /// index of one of the tabs.
    pub fn new(
        tabs: &'b [State],
        current: usize,
        on_choice: OnChoice,
        content: Content,
    ) -> (t: Self)
        requires
            current < tabs@.len(),
        ensures
            t.tabs() == tabs@,
            t.current() == current,
            t.on_choice() == on_choice,
            t.content() == content,
    {
        Tabs { tabs, current, on_choice, content }
    }

    /// Puts the pieces of a tabbed view together, or gives `None` where
    /// `current` is not the index of one of the tabs.
    pub fn try_new(
        tabs: &'b [State],
        current: usize,
        on_choice: OnChoice,
        content: Content,
    ) -> (t: Option<Self>)
        ensures
            t is Some <==> current < tabs@.len(),
            t matches Some(t) ==> {
                &&& t.tabs() == tabs@
                &&& t.current() == current
                &&& t.on_choice() == on_choice
                &&& t.content() == content
            },
    {
        if current < tabs.len() {
            Some(Tabs::new(tabs, current, on_choice, content))
        } else {
            None
        }
    }
}

impl<'b, State: core::fmt::Display, OnChoice, Content> Tabs<'b, State, OnChoice, Content> {
    /// Composes the view: one header per tab, in order, each labelled with its
    /// tab's text and each but the selected one carrying its index to report
    /// when pressed; below them the content rendered for the selected tab.
    pub fn compose<Widget>(self) -> (view: TabView<OnChoice, Widget>) where
        Content: FnOnce(&State) -> Widget,

        requires
            call_requires(self.content(), (&self.tabs()[self.current()],)),
        ensures
            view.headers.axis == Axis::Horizontal,
            view.headers.children.len() == self.tabs().len(),
            forall|i: int|
                0 <= i < self.tabs().len() ==> is_header_of(
                    #[trigger] view.headers.children[i],
                    &self.tabs()[i],
                    i,
                    self.current(),
                ),
            view.on_choice == self.on_choice(),
            call_ensures(self.content(), (&self.tabs()[self.current()],), view.content),
    {
        proof {
            use_type_invariant(&self);
        }
        let Tabs { tabs, current, on_choice, content } = self;
        let mut headers: Vec<TabHeader> = Vec::new();
        let mut index: usize = 0;
        while index < tabs.len()
            invariant
                index <= tabs@.len(),
                headers.len() == index,
                forall|i: int|
                    0 <= i < index ==> is_header_of(
                        #[trigger] headers[i],
                        &tabs@[i],
                        i,
                        current as int,
                    ),
            decreases tabs@.len() - index,
        {
            let on_press = if index == current {
                None
            } else {
                Some(index)
            };
            let label = tabs[index].to_string();
            headers.push(TabHeader { label, on_press, max_width: TAB_MAX_WIDTH });
            index += 1;
        }
        let content = content(&tabs[current]);
        TabView { headers: Group { axis: Axis::Horizontal, children: headers }, on_choice, content }
    }
}

/// What keeps a tabbed view from being built.
#[derive(Clone, Copy, Debug, PartialEq, Eq, Structural)]
pub enum TabsError {
    /// No tabs were given.
    NoTabs,
    /// No selected index was given.
    NoCurrent,
    /// No function for the message of a pressed tab was given.
    NoOnChoice,
    /// No function for the content of a tab was given.
    NoContent,
    /// The selected index is not the index of one of the tabs.
    CurrentOutOfRange,
}

/// Collects the pieces of a tabbed view one at a time, in any order. All four
/// are mandatory; `build` checks that they are there.
pub struct TabsBuilder<'b, State, OnChoice, Content> {
    /// The tabs, once given.
    pub tabs: Option<&'b [State]>,
    /// The index of the selected tab, once given.
    pub current: Option<usize>,
    /// The function for the message of a pressed tab, once given.
    pub on_choice: Option<OnChoice>,
    /// The function for the content of a tab, once given.
    pub content: Option<Content>,
}

impl<'b, State, OnChoice, Content> Default for TabsBuilder<'b, State, OnChoice, Content> {
    fn default() -> (builder: Self)
        ensures
            builder.tabs is None,
            builder.current is None,
            builder.on_choice is None,
            builder.content is None,
    {
        TabsBuilder { tabs: None, current: None, on_choice: None, content: None }
    }
}

impl<'b, State, OnChoice, Content> TabsBuilder<'b, State, OnChoice, Content> {
    /// The first thing that is wrong with the pieces collected so far, if
    /// anything is: a missing piece, asked for in the order tabs, selected
    /// index, message function, content function; then an index that selects
    /// no tab.
    pub open spec fn problem(self) -> Option<TabsError> {
        if self.tabs is None {
            Some(TabsError::NoTabs)
        } else if self.current is None {
            Some(TabsError::NoCurrent)
        } else if self.on_choice is None {
            Some(TabsError::NoOnChoice)
        } else if self.content is None {
            Some(TabsError::NoContent)
        } else if self.current->0 >= self.tabs->0@.len() {
            Some(TabsError::CurrentOutOfRange)
        } else {
            None
        }
    }

    /// A builder that holds nothing yet.
    pub fn new() -> (builder: Self)
        ensures
            builder.tabs is None,
            builder.current is None,
            builder.on_choice is None,
            builder.content is None,
    {
        TabsBuilder { tabs: None, current: None, on_choice: None, content: None }
    }

    /// Sets the index of the selected tab and keeps the rest.
    pub fn current(self, current: usize) -> (builder: Self)
        ensures
            builder == (TabsBuilder { current: Some(current), ..self }),
    {
        TabsBuilder { current: Some(current), ..self }
    }

    /// Sets the tabs and keeps the rest.
    pub fn tabs(self, tabs: &'b [State]) -> (builder: Self)
        ensures
            builder == (TabsBuilder { tabs: Some(tabs), ..self }),
    {
        TabsBuilder { tabs: Some(tabs), ..self }
    }

    /// Sets the function for the message of a pressed tab and keeps the rest.
    pub fn on_choice(self, on_choice: OnChoice) -> (builder: Self)
        ensures
            builder == (TabsBuilder { on_choice: Some(on_choice), ..self }),
    {
        TabsBuilder { on_choice: Some(on_choice), ..self }
    }

    /// Sets the function for the content of a tab and keeps the rest.
    pub fn content(self, content: Content) -> (builder: Self)
        ensures
            builder == (TabsBuilder { content: Some(content), ..self }),
    {
        TabsBuilder { content: Some(content), ..self }
    }

    /// Checks the pieces and puts them together. Fails with the first
    /// problem there is, and succeeds where there is none.
    pub fn build(self) -> (r: Result<Tabs<'b, State, OnChoice, Content>, TabsError>)
        ensures
            match r {
                Ok(tabs) => {
                    &&& self.problem() is None
                    &&& tabs.tabs() == self.tabs->0@
                    &&& tabs.current() == self.current->0
                    &&& tabs.on_choice() == self.on_choice->0
                    &&& tabs.content() == self.content->0
                },
                Err(error) => self.problem() == Some(error),
            },
    {
        let TabsBuilder { tabs, current, on_choice, content } = self;
        let tabs = match tabs {
            Some(tabs) => tabs,
            None => { return Err(TabsError::NoTabs); },
        };
        let current = match current {
            Some(current) => current,
            None => { return Err(TabsError::NoCurrent); },
        };
        let on_choice = match on_choice {
            Some(on_choice) => on_choice,
            None => { return Err(TabsError::NoOnChoice); },
        };
        let content = match content {
            Some(content) => content,
            None => { return Err(TabsError::NoContent); },
        };
        match Tabs::try_new(tabs, current, on_choice, content) {
            Some(tabs) => Ok(tabs),
            None => Err(TabsError::CurrentOutOfRange),
        }
    }
}

/// The style of a tab header.
#[derive(Clone, Copy, Debug, PartialEq, Eq, Structural)]
pub struct Tab;

impl Tab {
    /// The button style that carries the tab header style.
    pub fn build() -> (style: Button<Tab>)
        ensures
            style == Button::<Tab>::Custom(Tab),
    {
        Button::Custom(Tab)
    }

    /// A header that can be pressed: a strong background fill, no border.
    pub fn active(&self, palette: &Extended) -> (appearance: Appearance)
        ensures
            appearance == (Appearance {
                background: Some(palette.background.strong.color),
                text_color: Some(palette.background.weak.text),
                border: None,
            }),
    {
        Appearance {
            background: Some(palette.background.strong.color),
            text_color: Some(palette.background.weak.text),
            border: None,
        }
    }

    /// The header of the selected tab: it blends into the content below it.
    pub fn disabled(&self, palette: &Extended) -> (appearance: Appearance)
        ensures
            appearance == (Appearance {
                background: Some(palette.background.base.color),
                text_color: Some(palette.background.strong.text),
                border: None,
            }),
    {
        Appearance {
            background: Some(palette.background.base.color),
            text_color: Some(palette.background.strong.text),
            border: None,
        }
    }

    /// A header under the pointer: a weak background fill.
    pub fn hovered(&self, palette: &Extended) -> (appearance: Appearance)
        ensures
            appearance == (Appearance {
                background: Some(palette.background.weak.color),
                text_color: Some(palette.background.strong.text),
                border: None,
            }),
    {
        Appearance {
            background: Some(palette.background.weak.color),
            text_color: Some(palette.background.strong.text),
            border: None,
        }
    }

    /// A header held down looks like the header of the selected tab.
    pub fn pressed(&self, palette: &Extended) -> (appearance: Appearance)
        ensures
            appearance == (Appearance {
                background: Some(palette.background.base.color),
                text_color: Some(palette.background.strong.text),
                border: None,
            }),
    {
        self.disabled(palette)
    }
}

/// The style of the pane that holds a tabbed view.
#[derive(Clone, Copy, Debug, PartialEq, Eq, Structural)]
pub struct Content;

impl Content {
    /// The container style that carries the pane style.
    pub fn build() -> (style: Container<Content>)
        ensures
            style == Container::<Content>::Custom(Content),
    {
        Container::Custom(Content)
    }

    /// The pane: the base background with its text color, no border.
    pub fn appearance(&self, palette: &Extended) -> (appearance: Appearance)
        ensures
            appearance == (Appearance {
                background: Some(palette.background.base.color),
                text_color: Some(palette.background.base.text),
                border: None,
            }),
    {
        Appearance {
            background: Some(palette.background.base.color),
            text_color: Some(palette.background.base.text),
            border: None,
        }
    }
}

} // verus!
