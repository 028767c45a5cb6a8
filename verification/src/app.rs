//! The bookmark browser's state: what each message does to it, what has to
//! happen outside because of a message, and what is on screen.
//!
//! Nothing here reads a file or prints a line. `update` answers with a
//! [`Command`] that tells the caller what to do, and the caller reports back
//! with the next [`Message`].

use std::path::PathBuf;
use vstd::prelude::*;
use vstd::std_specs::convert::FromSpecImpl;

use crate::data::{BookmarkData, Error, FileData};
use crate::layout::{Axis, Group, IteratorWidgetExt};
use crate::tabs::{is_header_of, TabHeader, TabsBuilder};

verus! {

/// `std::path::PathBuf`, the path of a bookmark file. The library only
/// stores and hands on values of it.
#[verifier::external_type_specification]
#[verifier::external_body]
pub struct ExPathBuf(PathBuf);

/// The most bookmarks that the bookmark pane lists.
pub const SHOWN_BOOKMARKS: usize = 128;

/// The state of the application.
#[derive(Debug)]
pub struct App {
    /// The loaded bookmark collection, once there is one.
    pub data: Option<FileData>,
    /// The names of the tabs.
    pub tabs: Vec<String>,
    /// The index of the selected tab.
    pub selected_tab: usize,
}

/// What the application starts with.
#[derive(Debug)]
pub struct Flags {
    /// The files to load at the start.
    pub files: Vec<PathBuf>,
}

/// What can happen to the application.
#[derive(Debug)]
pub enum Message {
    /// A file has been read: its contents, or why it could not be read.
    FileLoaded(Result<FileData, Error>),
    /// A file is to be loaded.
    LoadFile(PathBuf),
    /// The bookmark with this identifier is to be opened.
    OpenBookmark(u128),
    /// A tab with this name is to be added.
    AddTab(String),
    /// The tab with this index is to be selected.
    SelTab(usize),
}

/// What the caller has to do after a message.
#[derive(Debug)]
pub enum Command {
    /// Nothing.
    Idle,
    /// Read this file and report back with `Message::FileLoaded`.
    Load(PathBuf),
    /// Log that a file could not be loaded, with the reason.
    ReportLoadFailure(Error),
    /// Announce that the bookmark with this address is opened.
    ReportOpen(String),
    /// Announce that no bookmark has the identifier asked for.
    ReportMissing,
}

/// The button that opens one bookmark.
#[derive(Clone, Debug, PartialEq, Eq)]
pub struct BookmarkButton {
    /// The text on the button: the bookmark's address.
    pub label: String,
    /// The identifier to send with `Message::OpenBookmark` when pressed.
    pub on_press: u128,
}

/// What a tab shows.
#[derive(Clone, Debug, PartialEq, Eq)]
pub enum Pane {
    /// A scrollable column with one button per listed bookmark.
    Bookmarks(Group<BookmarkButton>),
    /// The words "no content".
    NoContent,
}

/// What is on screen.
#[derive(Clone, Debug, PartialEq, Eq)]
pub enum Screen {
    /// The words "no data loaded", centered.
    NoData,
    /// The tab headers above the pane of the selected tab. A pressed header
    /// sends `Message::SelTab` with the index it carries.
    Tabbed {
        /// The headers, side by side.
        headers: Group<TabHeader>,
        /// The pane of the selected tab.
        pane: Pane,
    },
}

/// Whether the bookmark at `index` has the given identifier and none before
/// it has.
pub open spec fn is_first_with_uuid(bookmarks: Seq<BookmarkData>, uuid: u128, index: int) -> bool {
    &&& 0 <= index < bookmarks.len()
    &&& bookmarks[index].uuid == uuid
    &&& forall|j: int| 0 <= j < index ==> (#[trigger] bookmarks[j]).uuid != uuid
}

/// Whether no bookmark has the given identifier.
pub open spec fn lacks_uuid(bookmarks: Seq<BookmarkData>, uuid: u128) -> bool {
    forall|j: int| 0 <= j < bookmarks.len() ==> (#[trigger] bookmarks[j]).uuid != uuid
}

/// What a request to open the bookmark with the given identifier is answered
/// with: the address of the first bookmark that has it, or the report that
/// none has it.
pub open spec fn answers_open(command: Command, bookmarks: Seq<BookmarkData>, uuid: u128) -> bool {
    match command {
        Command::ReportOpen(url) => exists|index: int|
            #[trigger] is_first_with_uuid(bookmarks, uuid, index) && url == bookmarks[index].url,
        Command::ReportMissing => lacks_uuid(bookmarks, uuid),
        _ => false,
    }
}

/// Whether `button` opens `bookmark`.
pub open spec fn opens(button: BookmarkButton, bookmark: BookmarkData) -> bool {
    button.label == bookmark.url && button.on_press == bookmark.uuid
}

/// Whether `pane` is what the tab called `name` shows of `data`: the tab
/// "bookmarks" lists the first `SHOWN_BOOKMARKS` bookmarks in order, top to
/// bottom, and every other tab has no content.
pub open spec fn is_pane_of(pane: Pane, name: Seq<char>, data: FileData) -> bool {
    if name == "bookmarks"@ {
        &&& pane matches Pane::Bookmarks(column)
        &&& column.axis == Axis::Vertical
        &&& column.children@.len() == if data.bookmark@.len() < SHOWN_BOOKMARKS {
            data.bookmark@.len()
        } else {
            SHOWN_BOOKMARKS as nat
        }
        &&& forall|i: int|
            0 <= i < column.children@.len() ==> opens(
                #[trigger] column.children@[i],
                data.bookmark@[i],
            )
    } else {
        pane is NoContent
    }
}

impl From<Result<FileData, Error>> for Message {
    fn from(loaded: Result<FileData, Error>) -> (message: Message) {
        Message::FileLoaded(loaded)
    }
}

impl FromSpecImpl<Result<FileData, Error>> for Message {
    open spec fn obeys_from_spec() -> bool {
        true
    }

    open spec fn from_spec(loaded: Result<FileData, Error>) -> Message {
        Message::FileLoaded(loaded)
    }
}

impl Default for Flags {
    fn default() -> (flags: Flags)
        ensures
            flags.files@.len() == 0,
    {
        Flags { files: Vec::new() }
    }
}

impl Default for App {
    fn default() -> (app: App)
        ensures
            app.data is None,
            app.tabs@.len() == 0,
            app.selected_tab == 0,
    {
        App { data: None, tabs: Vec::new(), selected_tab: 0 }
    }
}

impl App {
    /// Whether the selected tab is one of the tabs.
    pub open spec fn selects_a_tab(self) -> bool {
        self.selected_tab < self.tabs@.len()
    }

    /// Starts the application: no data, the tabs "bookmarks", "edit" and
    /// "log" with the first selected, and one message per file of `flags`,
    /// in order, asking to load it.
    pub fn new(flags: Flags) -> (r: (App, Vec<Message>))
        ensures
            r.0.data is None,
            r.0.tabs@.len() == 3,
            r.0.tabs@[0]@ == "bookmarks"@,
            r.0.tabs@[1]@ == "edit"@,
            r.0.tabs@[2]@ == "log"@,
            r.0.selected_tab == 0,
            r.0.selects_a_tab(),
            r.1@.len() == flags.files@.len(),
            forall|i: int|
                0 <= i < flags.files@.len() ==> #[trigger] r.1@[i] == Message::LoadFile(
                    flags.files@[i],
                ),
    {
        let mut tabs: Vec<String> = Vec::new();
        tabs.push("bookmarks".to_owned());
        tabs.push("edit".to_owned());
        tabs.push("log".to_owned());
        let mut messages: Vec<Message> = Vec::new();
        let ghost files = flags.files@;
        for file in iter: flags.files
            invariant
                iter.seq() == files,
                messages@.len() == iter.index(),
                forall|i: int|
                    0 <= i < messages@.len() ==> #[trigger] messages@[i] == Message::LoadFile(
                        files[i],
                    ),
        {
            messages.push(Message::LoadFile(file));
        }
        (App { data: None, tabs, selected_tab: 0 }, messages)
    }

    /// The title of the window.
    pub fn title(&self) -> (title: String)
        ensures
            title@ == "Application"@,
    {
        "Application".to_owned()
    }

    /// Takes one message: changes the state and says what the caller has to do.
    ///
    /// * A loaded file replaces the data; a failed load is reported and
    ///   changes nothing.
    /// * A request to load a file is handed to the caller.
    /// * A request to open a bookmark is answered with the address of the
    ///   first bookmark that has the identifier, or with the report that
    ///   none has it; without data nothing happens.
    /// * A new tab goes behind the others.
    /// * Selecting a tab stores the index as it is.
    pub fn update(&mut self, message: Message) -> (command: Command)
        ensures
            match message {
                Message::FileLoaded(Ok(data)) => {
                    &&& final(self).data == Some(data)
                    &&& final(self).tabs == old(self).tabs
                    &&& final(self).selected_tab == old(self).selected_tab
                    &&& command is Idle
                },
                Message::FileLoaded(Err(reason)) => {
                    &&& *final(self) == *old(self)
                    &&& command == Command::ReportLoadFailure(reason)
                },
                Message::LoadFile(file) => {
                    &&& *final(self) == *old(self)
                    &&& command == Command::Load(file)
                },
                Message::OpenBookmark(uuid) => {
                    &&& *final(self) == *old(self)
                    &&& match old(self).data {
                        None => command is Idle,
                        Some(data) => answers_open(command, data.bookmark@, uuid),
                    }
                },
                Message::AddTab(name) => {
                    &&& final(self).tabs@ == old(self).tabs@.push(name)
                    &&& final(self).data == old(self).data
                    &&& final(self).selected_tab == old(self).selected_tab
                    &&& command is Idle
                },
                Message::SelTab(index) => {
                    &&& final(self).selected_tab == index
                    &&& final(self).data == old(self).data
                    &&& final(self).tabs == old(self).tabs
                    &&& command is Idle
                },
            },
            old(self).selects_a_tab() && !(message matches Message::SelTab(index) && index >= old(
                self,
            ).tabs@.len()) ==> final(self).selects_a_tab(),
    {
        match message {
            Message::FileLoaded(Ok(data)) => {
                self.data = Some(data);
                Command::Idle
            },
            Message::FileLoaded(Err(reason)) => Command::ReportLoadFailure(reason),
            Message::LoadFile(file) => Command::Load(file),
            Message::OpenBookmark(uuid) => {
                match &self.data {
                    None => Command::Idle,
                    Some(data) => match find_bookmark(&data.bookmark, uuid) {
                        Some(index) => Command::ReportOpen(data.bookmark[index].url.clone()),
                        None => Command::ReportMissing,
                    },
                }
            },
            Message::AddTab(name) => {
                self.tabs.push(name);
                Command::Idle
            },
            Message::SelTab(index) => {
                self.selected_tab = index;
                Command::Idle
            },
        }
    }
}

impl App {
    /// What is on screen: a notice while there is no data; after that the
    /// tab headers, with the selected tab's header not pressable, above the
    /// pane of the selected tab. With data the selected tab has to be one of
    /// the tabs.
    pub fn view(&self) -> (screen: Screen)
        requires
            self.data is Some ==> self.selects_a_tab(),
        ensures
            match self.data {
                None => screen is NoData,
                Some(data) => {
                    &&& screen matches Screen::Tabbed { headers, pane }
                    &&& headers.axis == Axis::Horizontal
                    &&& headers.children@.len() == self.tabs@.len()
                    &&& forall|i: int|
                        0 <= i < self.tabs@.len() ==> is_header_of(
                            #[trigger] headers.children@[i],
                            &self.tabs@[i],
                            i,
                            self.selected_tab as int,
                        )
                    &&& is_pane_of(pane, self.tabs@[self.selected_tab as int]@, data)
                },
            },
    {
        let data = match &self.data {
            None => { return Screen::NoData; },
            Some(data) => data,
        };
        let content = |name: &String| -> (pane: Pane)
            ensures
                is_pane_of(pane, name@, *data),
            { bookmark_pane(name, data) };
        let built = TabsBuilder::new().on_choice(()).current(self.selected_tab).tabs(
            self.tabs.as_slice(),
        ).content(content).build();
        match built {
            Ok(tabs) => {
                let view = tabs.compose();
                Screen::Tabbed { headers: view.headers, pane: view.content }
            },
            Err(_) => vstd::pervasive::unreached(),
        }
    }
}

/// Builds the pane of the tab called `name`.
fn bookmark_pane(name: &String, data: &FileData) -> (pane: Pane)
    ensures
        is_pane_of(pane, name@, *data),
{
    if *name == "bookmarks".to_owned() {
        let mut shown: Vec<&BookmarkData> = Vec::new();
        let mut index: usize = 0;
        while index < data.bookmark.len() && index < SHOWN_BOOKMARKS
            invariant
                index <= data.bookmark@.len(),
                index <= SHOWN_BOOKMARKS,
                shown@.len() == index,
                forall|i: int| 0 <= i < index ==> *#[trigger] shown@[i] == data.bookmark@[i],
            decreases data.bookmark@.len() - index,
        {
            shown.push(&data.bookmark[index]);
            index += 1;
        }
        let button = |bookmark: &BookmarkData| -> (button: BookmarkButton)
            ensures
                opens(button, *bookmark),
            { BookmarkButton { label: bookmark.url.clone(), on_press: bookmark.uuid } };
        let column = shown.collect_column(button);
        Pane::Bookmarks(column)
    } else {
        Pane::NoContent
    }
}

/// Finds the first bookmark with the given identifier.
fn find_bookmark(bookmarks: &Vec<BookmarkData>, uuid: u128) -> (found: Option<usize>)
    ensures
        match found {
            Some(index) => is_first_with_uuid(bookmarks@, uuid, index as int),
            None => lacks_uuid(bookmarks@, uuid),
        },
{
    let mut index: usize = 0;
    while index < bookmarks.len()
        invariant
            index <= bookmarks@.len(),
            forall|j: int| 0 <= j < index ==> (#[trigger] bookmarks@[j]).uuid != uuid,
        decreases bookmarks@.len() - index,
    {
        if bookmarks[index].uuid == uuid {
            return Some(index);
        }
        index += 1;
    }
    None
}

} // verus!
