//! What a window wants shown, as data. The host lays it out and renders it.

use crate::controller::AppWindows;
use crate::entry::EntryView;
use vstd::prelude::*;

verus! {

/// How a row of the explorer's table is to be set off.
#[derive(Clone, Copy, Debug, PartialEq, Eq, Structural)]
pub enum RowStyle {
    /// The entry's path is selected.
    Selected,
    /// The entry is a directory, and not selected.
    Directory,
    Plain,
}

/// One row of the explorer's table.
#[derive(Debug, PartialEq, Eq)]
pub struct Row {
    pub name: String,
    /// The size in bytes; none for a directory.
    pub size: Option<u64>,
    pub style: RowStyle,
}

/// The mathematical value of a [`Row`].
pub struct RowView {
    pub name: Seq<char>,
    pub size: Option<u64>,
    pub style: RowStyle,
}

impl View for Row {
    type V = RowView;

    open spec fn view(&self) -> RowView {
        RowView { name: self.name@, size: self.size, style: self.style }
    }
}

/// The values of a sequence of rows, in the same order.
pub open spec fn row_views(rows: Seq<Row>) -> Seq<RowView> {
    rows.map_values(|r: Row| r@)
}

/// The row for one entry. A selected path takes the selection's style
/// whatever it is; a size is shown for what is no directory.
pub open spec fn row_of(entry: EntryView, selected: bool) -> RowView {
    RowView {
        name: entry.name,
        size: if entry.is_dir {
            None
        } else {
            Some(entry.size)
        },
        style: if selected {
            RowStyle::Selected
        } else if entry.is_dir {
            RowStyle::Directory
        } else {
            RowStyle::Plain
        },
    }
}

/// The rows for a listing, one per entry and in its order.
pub open spec fn rows_of(entries: Seq<EntryView>, selection: Seq<Seq<char>>) -> Seq<RowView> {
    Seq::new(entries.len(), |i: int| row_of(entries[i], selection.contains(entries[i].path)))
}

/// What the explorer shows.
#[derive(Debug, PartialEq, Eq)]
pub struct ExplorerScreen {
    /// The current directory.
    pub path: String,
    pub rows: Vec<Row>,
    /// The row that the cursor is on, if the table has rows and a cursor.
    pub cursor: Option<usize>,
    /// The error panel's lines, joined by newlines, oldest first.
    pub error_log: String,
}

/// What the active window shows.
#[derive(Debug, PartialEq, Eq)]
pub enum Screen {
    Explorer(ExplorerScreen),
    /// A popup whose text is the host's own: the sort modes, the key bindings.
    Help(AppWindows),
    /// A question to be answered with yes or no.
    Confirmation { prompt: String },
    /// A line of text being edited under a label.
    TextField { label: String, text: String },
}

/// The mathematical value of a [`Screen`].
pub enum ScreenView {
    Explorer { path: Seq<char>, rows: Seq<RowView>, cursor: Option<usize>, error_log: Seq<char> },
    Help(AppWindows),
    Confirmation { prompt: Seq<char> },
    TextField { label: Seq<char>, text: Seq<char> },
}

impl View for Screen {
    type V = ScreenView;

    open spec fn view(&self) -> ScreenView {
        match self {
            Screen::Explorer(screen) => ScreenView::Explorer {
                path: screen.path@,
                rows: row_views(screen.rows@),
                cursor: screen.cursor,
                error_log: screen.error_log@,
            },
            Screen::Help(window) => ScreenView::Help(*window),
            Screen::Confirmation { prompt } => ScreenView::Confirmation { prompt: prompt@ },
            Screen::TextField { label, text } => ScreenView::TextField {
                label: label@,
                text: text@,
            },
        }
    }
}

} // verus!
