//! The explorer: the window that lists the current directory, moves the
//! cursor, selects, pastes and asks before it deletes.
//!
//! Whatever the explorer asks of a popup, it remembers why in a tag, and the
//! popup's answer is read by that tag alone.

use crate::controller::{AppEvents, State};
use crate::entry::{entry_views, EntryView};
use crate::file_manager::{FileManager, FileManagerView, FsRequestView};
use crate::input::{KeyCode, KeyEvent};
use crate::message::{message_view, Message, MessageReceiver, MessageSender, MessageView};
use crate::screen::{row_of, row_views, rows_of, ExplorerScreen, Row, RowStyle, Screen, ScreenView};
use crate::string_ring_buffer::{join_lines, push_all, texts, StringRingBuffer};
use crate::table_cursor::{
    cursor_down, cursor_up, last_row, shown_row, table_column, table_row,
};
use ratatui::widgets::TableState;
use vstd::prelude::*;

verus! {

/// The number of lines that the error panel keeps.
pub const ERROR_PANEL_CAPACITY: usize = 20;

/// Why the explorer last asked for a popup.
#[derive(Clone, Copy, Debug, PartialEq, Eq, Structural)]
pub enum MessageSource {
    /// No answer is awaited.
    Idle,
    /// The user asked to delete the selection and is to confirm it.
    DeletionConfirmationPrompt,
    /// The user asked to change the path and is to type it.
    PathChangePopup,
}

/// The question that the explorer has asked before it deletes.
pub open spec fn deletion_prompt() -> Seq<char> {
    "The selected files will be deleted permanently, are you sure?"@
}

/// The label of the popup in which the path is typed.
pub open spec fn path_label() -> Seq<char> {
    "Change Path"@
}

/// The path of the parent directory, relative to any directory.
pub open spec fn parent_path() -> Seq<char> {
    ".."@
}

/// The key that `code` stands for in the explorer: `j`, `k`, `l` and `h` are
/// other names for the arrow keys down, up, right and left.
pub open spec fn key_alias(code: KeyCode) -> KeyCode {
    match code {
        KeyCode::Char(c) => if c == 'j' {
            KeyCode::Down
        } else if c == 'k' {
            KeyCode::Up
        } else if c == 'l' {
            KeyCode::Right
        } else if c == 'h' {
            KeyCode::Left
        } else {
            code
        },
        _ => code,
    }
}

/// The explorer window.
pub struct ExplorerTable {
    table_state: TableState,
    message_source: MessageSource,
    message: Option<Message>,
    error_ring_buffer: StringRingBuffer,
}

/// The state of an [`ExplorerTable`] as a mathematical value, with its
/// reactions as functions.
pub struct ExplorerTableView {
    /// The row that the table state has selected. Every step of the cursor
    /// puts it on a row of the listing; it lies past the last row only where the
    /// listing has shrunk under it: see [`shown_row`].
    pub cursor: Option<usize>,
    /// The column that the table state has selected.
    pub column: Option<usize>,
    pub message_source: MessageSource,
    /// What the popup asked for is to be opened with, until it is fetched.
    pub message: Option<MessageView>,
    /// The lines of the error panel, oldest first.
    pub errors: Seq<Seq<char>>,
}

impl ExplorerTableView {
    /// A new explorer: the cursor on the first row and column, no popup asked
    /// for, an empty error panel.
    pub open spec fn initial() -> ExplorerTableView {
        ExplorerTableView {
            cursor: Some(0usize),
            column: Some(0usize),
            message_source: MessageSource::Idle,
            message: None,
            errors: Seq::empty(),
        }
    }

    /// The explorer with the cursor at `cursor`.
    pub open spec fn moved(self, cursor: Option<usize>) -> ExplorerTableView {
        ExplorerTableView { cursor, ..self }
    }

    /// The explorer with a cursor for certain: where there was none, it is
    /// put on the first row.
    pub open spec fn with_cursor(self) -> ExplorerTableView {
        if self.cursor is None {
            self.moved(Some(0usize))
        } else {
            self
        }
    }

    /// The explorer after it has asked for a popup, with the reason and what
    /// the popup is to show.
    pub open spec fn asking(self, source: MessageSource, message: MessageView) -> ExplorerTableView {
        ExplorerTableView { message_source: source, message: Some(message), ..self }
    }

    /// The entry that the cursor points at. A cursor past the listing points at
    /// none.
    pub open spec fn entry_under_cursor(self, fm: FileManagerView) -> Option<EntryView> {
        match self.cursor {
            Some(row) => if row < fm.entries().len() {
                Some(fm.entries()[row as int])
            } else {
                None
            },
            None => None,
        }
    }

    /// The file manager after the user asked to enter what the cursor points
    /// at: a change of directory is asked for where that is a directory, and
    /// nothing happens otherwise.
    pub open spec fn enter_directory(self, fm: FileManagerView) -> FileManagerView {
        match self.entry_under_cursor(fm) {
            Some(entry) => if entry.is_dir {
                fm.change_dir(entry.path)
            } else {
                fm
            },
            None => fm,
        }
    }

    /// The file manager after the user toggled the selection of what the
    /// cursor points at.
    pub open spec fn toggle_selection(self, fm: FileManagerView) -> FileManagerView {
        match self.entry_under_cursor(fm) {
            Some(entry) => if fm.is_selected(entry.path) {
                fm.remove_from_selection(entry.path)
            } else {
                fm.add_to_selection(entry.path)
            },
            None => fm,
        }
    }

    /// The explorer and the file manager after the key `code`, and what the
    /// explorer asks of the controller.
    pub open spec fn handle_key(self, fm: FileManagerView, code: KeyCode) -> (
        ExplorerTableView,
        FileManagerView,
        AppEvents,
    ) {
        match key_alias(code) {
            KeyCode::Char(c) => if c == 'q' {
                (self, fm, AppEvents::Exit)
            } else if c == 's' {
                (self, fm, AppEvents::ChangeToSortingPopupWindow)
            } else if c == 'm' {
                (self, fm, AppEvents::ChangeToKeyMappingPopupWindow)
            } else if c == 'n' {
                (self, fm, AppEvents::OpenNewFilePopup)
            } else if c == 'd' {
                (self, fm.toggle_dir_sorting().update(), AppEvents::Stay)
            } else if c == 'y' {
                (self, self.toggle_selection(fm), AppEvents::Stay)
            } else if c == 'c' {
                (self, fm.clear_selection(), AppEvents::Stay)
            } else if c == 'v' {
                (self, fm.paste().clear_selection(), AppEvents::Stay)
            } else if c == 'x' {
                (
                    self.asking(
                        MessageSource::DeletionConfirmationPrompt,
                        MessageView::String(deletion_prompt()),
                    ),
                    fm,
                    AppEvents::OpenConfirmationPopup,
                )
            } else if c == 'g' {
                (self, fm.toggle_hidden().update(), AppEvents::Stay)
            } else {
                (self, fm, AppEvents::Stay)
            },
            KeyCode::Down => (
                self.moved(cursor_down(self.cursor, fm.entries().len())),
                fm,
                AppEvents::Stay,
            ),
            KeyCode::Up => (
                self.moved(cursor_up(self.cursor, fm.entries().len())),
                fm,
                AppEvents::Stay,
            ),
            KeyCode::Right => (self, self.enter_directory(fm), AppEvents::Stay),
            KeyCode::Enter => (self, self.enter_directory(fm), AppEvents::Stay),
            KeyCode::Left => (self.with_cursor(), fm.change_dir(parent_path()), AppEvents::Stay),
            KeyCode::Tab => (
                self.asking(
                    MessageSource::PathChangePopup,
                    MessageView::TwoStrings(path_label(), fm.current_dir),
                ),
                fm,
                AppEvents::OpenTextFieldPopup,
            ),
            _ => (self, fm, AppEvents::Stay),
        }
    }

    /// The explorer and the file manager after a popup's answer. The answer is
    /// read by the tag alone: under the deletion tag only a yes deletes the
    /// selection; under the path tag a text asks for a change of directory, and
    /// makes sure of a cursor; anything else cancels. Whatever the answer, the
    /// tag is cleared.
    pub open spec fn handle_message(self, fm: FileManagerView, reply: Option<MessageView>) -> (
        ExplorerTableView,
        FileManagerView,
    ) {
        let cleared = ExplorerTableView { message_source: MessageSource::Idle, ..self };
        match self.message_source {
            MessageSource::DeletionConfirmationPrompt => (
                cleared,
                if reply == Some(MessageView::Bool(true)) {
                    fm.delete_selection()
                } else {
                    fm
                },
            ),
            MessageSource::PathChangePopup => match reply {
                Some(MessageView::String(path)) => (cleared.with_cursor(), fm.change_dir(path)),
                _ => (cleared, fm),
            },
            MessageSource::Idle => (cleared, fm),
        }
    }

    /// The message that the explorer hands out, and the explorer after it.
    pub open spec fn fetched(self) -> ExplorerTableView {
        ExplorerTableView { message: None, ..self }
    }

    /// The explorer after it has taken the file manager's pending failures
    /// into its error panel.
    pub open spec fn drawn(self, fm: FileManagerView) -> ExplorerTableView {
        ExplorerTableView {
            errors: push_all(self.errors, fm.error_log, ERROR_PANEL_CAPACITY as nat),
            ..self
        }
    }

    /// What the explorer shows for the file manager `fm`, drawn in the state
    /// `self`.
    pub open spec fn screen(self, fm: FileManagerView) -> ScreenView {
        ScreenView::Explorer {
            path: fm.current_dir,
            rows: rows_of(fm.entries(), fm.selection),
            cursor: shown_row(self.cursor, fm.entries().len()),
            error_log: join_lines(self.errors),
        }
    }
}

impl View for ExplorerTable {
    type V = ExplorerTableView;

    closed spec fn view(&self) -> ExplorerTableView {
        ExplorerTableView {
            cursor: table_row(self.table_state),
            column: table_column(self.table_state),
            message_source: self.message_source,
            message: message_view(self.message),
            errors: self.error_ring_buffer@,
        }
    }
}

impl ExplorerTable {
    /// The error panel is a buffer of [`ERROR_PANEL_CAPACITY`] lines.
    pub closed spec fn panel_wf(&self) -> bool {
        &&& self.error_ring_buffer.wf()
        &&& self.error_ring_buffer.spec_capacity() == ERROR_PANEL_CAPACITY
    }

    /// A new explorer, with the cursor on the first row and column.
    pub fn new() -> (r: ExplorerTable)
        ensures
            r.wf(),
            r@ == ExplorerTableView::initial(),
    {
        let mut explorer_table = ExplorerTable {
            table_state: TableState::new(),
            message_source: MessageSource::Idle,
            message: None,
            error_ring_buffer: StringRingBuffer::with_capacity(ERROR_PANEL_CAPACITY),
        };
        explorer_table.table_state.select_first_column();
        explorer_table.table_state.select_first();
        explorer_table
    }

    /// The row that the table state has selected.
    pub fn cursor(&self) -> (r: Option<usize>)
        ensures
            r == self@.cursor,
    {
        self.table_state.selected()
    }

    /// The column that the table state has selected.
    pub fn column(&self) -> (r: Option<usize>)
        ensures
            r == self@.column,
    {
        self.table_state.selected_column()
    }

    /// Why the explorer last asked for a popup.
    pub fn message_source(&self) -> (r: MessageSource)
        ensures
            r == self@.message_source,
    {
        self.message_source
    }

    /// The table widget's selection state, for the host to render the table
    /// with. The widget may move the cursor: it brings a selection past the last
    /// row down to it.
    pub fn table_state_mut(&mut self) -> (r: &mut TableState)
        ensures
            *r == old(self).table_state_value(),
            final(self).table_state_value() == *final(r),
            final(self)@.message_source == old(self)@.message_source,
            final(self)@.message == old(self)@.message,
            final(self)@.errors == old(self)@.errors,
            old(self).wf() ==> final(self).wf(),
    {
        &mut self.table_state
    }

    /// The table widget's selection state.
    pub closed spec fn table_state_value(&self) -> TableState {
        self.table_state
    }

    /// The path of the entry that the cursor points at, if it points at one.
    pub fn selected_file_in_table(&self, file_manager: &mut FileManager) -> (r: Option<String>)
        requires
            old(file_manager).wf(),
        ensures
            final(file_manager).wf(),
            final(file_manager)@ == old(file_manager)@,
            match self@.entry_under_cursor(old(file_manager)@) {
                Some(entry) => r is Some && r->0@ == entry.path,
                None => r is None,
            },
    {
        let index = match self.table_state.selected() {
            Some(index) => index,
            None => {
                return None;
            },
        };
        match file_manager.get_entry_at_index(index) {
            Ok(entry) => Some(entry.path.clone()),
            Err(_) => None,
        }
    }

    /// Puts the cursor on the last of `rows` rows.
    fn select_last_row(&mut self, rows: usize)
        ensures
            final(self)@ == old(self)@.moved(Some(last_row(rows as nat))),
            final(self).panel_wf() == old(self).panel_wf(),
    {
        if rows == 0 {
            self.table_state.select_first();
        } else {
            self.table_state.select(Some(rows - 1));
        }
    }

    /// Moves the cursor one row down in a listing of `rows` rows, to the first
    /// row from the last.
    fn move_down(&mut self, rows: usize)
        ensures
            final(self)@ == old(self)@.moved(cursor_down(old(self)@.cursor, rows as nat)),
            final(self).panel_wf() == old(self).panel_wf(),
    {
        match self.table_state.selected() {
            None => self.select_last_row(rows),
            Some(selected) => {
                if rows == 0 || rows - 1 <= selected {
                    self.table_state.select_first();
                } else {
                    self.table_state.select_next();
                }
            },
        }
    }

    /// Moves the cursor one row up in a listing of `rows` rows, to the last
    /// row from the first.
    fn move_up(&mut self, rows: usize)
        ensures
            final(self)@ == old(self)@.moved(cursor_up(old(self)@.cursor, rows as nat)),
            final(self).panel_wf() == old(self).panel_wf(),
    {
        match self.table_state.selected() {
            None => self.select_last_row(rows),
            Some(selected) => {
                if selected == 0 || rows == 0 {
                    self.select_last_row(rows);
                } else if selected < rows {
                    self.table_state.select_previous();
                } else if rows == 1 {
                    self.table_state.select_first();
                } else {
                    self.table_state.select(Some(rows - 2));
                }
            },
        }
    }

    /// Puts the cursor on the first row where there is none.
    fn ensure_cursor(&mut self)
        ensures
            final(self)@ == old(self)@.with_cursor(),
            final(self).panel_wf() == old(self).panel_wf(),
    {
        if self.table_state.selected().is_none() {
            self.table_state.select(Some(0));
        }
    }

    /// Asks for a change into the directory under the cursor.
    fn enter_directory(&self, file_manager: &mut FileManager)
        requires
            old(file_manager).wf(),
        ensures
            final(file_manager).wf(),
            final(file_manager)@ == self@.enter_directory(old(file_manager)@),
    {
        let index = match self.table_state.selected() {
            Some(index) => index,
            None => {
                return ;
            },
        };
        let target = match file_manager.get_entry_at_index(index) {
            Ok(entry) => if entry.is_dir {
                Some(entry.path.clone())
            } else {
                None
            },
            Err(_) => None,
        };
        if let Some(path) = target {
            file_manager.change_dir(path);
        }
    }

    /// Selects the path under the cursor, or takes it out of the selection if
    /// it is in it.
    fn toggle_selection(&self, file_manager: &mut FileManager)
        requires
            old(file_manager).wf(),
        ensures
            final(file_manager).wf(),
            final(file_manager)@ == self@.toggle_selection(old(file_manager)@),
    {
        let path = match self.selected_file_in_table(file_manager) {
            None => {
                return ;
            },
            Some(path) => path,
        };
        if file_manager.is_selected(&path) {
            file_manager.remove_from_selection(path);
        } else {
            file_manager.add_to_selection(path);
        }
    }

    /// Reacts to a key that is a character.
    fn handle_char(&mut self, c: char, file_manager: &mut FileManager) -> (r: AppEvents)
        requires
            old(self).wf(),
            old(file_manager).wf(),
        ensures
            final(self).wf(),
            final(file_manager).wf(),
            (final(self)@, final(file_manager)@, r) == old(self)@.handle_key(
                old(file_manager)@,
                KeyCode::Char(c),
            ),
    {
        if c == 'q' {
            AppEvents::Exit
        } else if c == 's' {
            AppEvents::ChangeToSortingPopupWindow
        } else if c == 'm' {
            AppEvents::ChangeToKeyMappingPopupWindow
        } else if c == 'n' {
            AppEvents::OpenNewFilePopup
        } else if c == 'd' {
            file_manager.toggle_dir_sorting();
            file_manager.update();
            AppEvents::Stay
        } else if c == 'j' {
            self.handle_key(KeyCode::Down, file_manager)
        } else if c == 'k' {
            self.handle_key(KeyCode::Up, file_manager)
        } else if c == 'l' {
            self.handle_key(KeyCode::Right, file_manager)
        } else if c == 'h' {
            self.handle_key(KeyCode::Left, file_manager)
        } else if c == 'y' {
            self.toggle_selection(file_manager);
            AppEvents::Stay
        } else if c == 'c' {
            file_manager.clear_selection();
            AppEvents::Stay
        } else if c == 'v' {
            file_manager.paste();
            file_manager.clear_selection();
            AppEvents::Stay
        } else if c == 'x' {
            self.message_source = MessageSource::DeletionConfirmationPrompt;
            self.message = Some(
                Message::String(
                    "The selected files will be deleted permanently, are you sure?".to_owned(),
                ),
            );
            AppEvents::OpenConfirmationPopup
        } else if c == 'g' {
            file_manager.toggle_hidden();
            file_manager.update();
            AppEvents::Stay
        } else {
            AppEvents::Stay
        }
    }

    /// Reacts to a key that is no character.
    fn handle_key(&mut self, code: KeyCode, file_manager: &mut FileManager) -> (r: AppEvents)
        requires
            !(code is Char),
            old(self).wf(),
            old(file_manager).wf(),
        ensures
            final(self).wf(),
            final(file_manager).wf(),
            (final(self)@, final(file_manager)@, r) == old(self)@.handle_key(
                old(file_manager)@,
                code,
            ),
    {
        match code {
            KeyCode::Down => {
                self.move_down(file_manager.num_files());
            },
            KeyCode::Up => {
                self.move_up(file_manager.num_files());
            },
            KeyCode::Right => {
                self.enter_directory(file_manager);
            },
            KeyCode::Enter => {
                self.enter_directory(file_manager);
            },
            KeyCode::Left => {
                file_manager.change_dir("..".to_owned());
                self.ensure_cursor();
            },
            KeyCode::Tab => {
                let current_path = file_manager.current_dir().clone();
                self.message_source = MessageSource::PathChangePopup;
                self.message = Some(Message::TwoStrings("Change Path".to_owned(), current_path));
                return AppEvents::OpenTextFieldPopup;
            },
            _ => {},
        }
        AppEvents::Stay
    }

    /// Takes `errors` into the error panel, in order.
    fn show_errors(&mut self, errors: &Vec<String>)
        requires
            old(self).wf(),
        ensures
            final(self).wf(),
            final(self)@ == (ExplorerTableView {
                errors: push_all(
                    old(self)@.errors,
                    texts(errors@),
                    ERROR_PANEL_CAPACITY as nat,
                ),
                ..old(self)@
            }),
    {
        let ghost all = texts(errors@);
        assert(all.take(0) =~= Seq::<Seq<char>>::empty());
        for i in 0..errors.len()
            invariant
                self.wf(),
                all == texts(errors@),
                self@ == (ExplorerTableView {
                    errors: push_all(
                        old(self)@.errors,
                        all.take(i as int),
                        ERROR_PANEL_CAPACITY as nat,
                    ),
                    ..old(self)@
                }),
        {
            assert(all.take(i + 1).drop_last() =~= all.take(i as int));
            assert(all.take(i + 1).last() == errors@[i as int]@);
            self.error_ring_buffer.push(errors[i].clone());
        }
        assert(all.take(errors@.len() as int) =~= all);
    }
}

/// The rows of the explorer's table for the file manager's listing.
fn table_rows(file_manager: &FileManager) -> (rows: Vec<Row>)
    requires
        file_manager.wf(),
    ensures
        row_views(rows@) == rows_of(file_manager@.entries(), file_manager@.selection),
{
    let entries = file_manager.get_entries();
    let mut rows: Vec<Row> = Vec::new();
    for i in 0..entries.len()
        invariant
            entry_views(entries@) == file_manager@.entries(),
            rows@.len() == i,
            forall|k: int|
                0 <= k < i ==> (#[trigger] rows@[k])@ == row_of(
                    file_manager@.entries()[k],
                    file_manager@.selection.contains(file_manager@.entries()[k].path),
                ),
    {
        let entry = &entries[i];
        assert(entry@ == file_manager@.entries()[i as int]) by {
            assert(entry_views(entries@)[i as int] == entries@[i as int]@);
        }
        let style = if file_manager.is_selected(&entry.path) {
            RowStyle::Selected
        } else if entry.is_dir {
            RowStyle::Directory
        } else {
            RowStyle::Plain
        };
        let size = if entry.is_dir {
            None
        } else {
            Some(entry.size)
        };
        rows.push(Row { name: entry.name.clone(), size, style });
    }
    assert(row_views(rows@) =~= rows_of(file_manager@.entries(), file_manager@.selection));
    rows
}

impl MessageReceiver for ExplorerTable {
    fn handle_message(&mut self, message: Option<Message>, file_manager: &mut FileManager)
        ensures
            old(self).wf() ==> final(self).wf(),
            (final(self)@, final(file_manager)@) == old(self)@.handle_message(
                old(file_manager)@,
                message_view(message),
            ),
    {
        match self.message_source {
            MessageSource::DeletionConfirmationPrompt => {
                if let Some(Message::Bool(true)) = message {
                    file_manager.delete_selection();
                }
            },
            MessageSource::PathChangePopup => {
                if let Some(Message::String(path_string)) = message {
                    file_manager.change_dir(path_string);
                    self.ensure_cursor();
                }
            },
            MessageSource::Idle => {},
        }
        self.message_source = MessageSource::Idle;
    }
}

impl MessageSender for ExplorerTable {
    /// What the popup that the explorer asked for is to be opened with.
    open spec fn pending_message(&self) -> Option<MessageView> {
        self@.message
    }

    fn get_message(&mut self) -> (r: Option<Message>)
        ensures
            old(self).wf() ==> final(self).wf(),
            message_view(r) == old(self)@.message,
            final(self)@ == old(self)@.fetched(),
    {
        self.message.take()
    }
}

impl State for ExplorerTable {
    open spec fn wf(&self) -> bool {
        self.panel_wf()
    }

    /// The explorer asks for a fresh enumeration whenever it becomes active.
    fn enter(&mut self, file_manager: &mut FileManager)
        ensures
            final(self)@ == old(self)@,
            final(file_manager)@ == old(file_manager)@.update(),
    {
        file_manager.update();
    }

    fn exit(&mut self, file_manager: &mut FileManager)
        ensures
            final(self)@ == old(self)@,
            final(file_manager)@ == old(file_manager)@,
    {
    }

    fn handle_key_event(&mut self, key_event: KeyEvent, file_manager: &mut FileManager) -> (r:
        AppEvents)
        ensures
            (final(self)@, final(file_manager)@, r) == old(self)@.handle_key(
                old(file_manager)@,
                key_event.code,
            ),
    {
        match key_event.code {
            KeyCode::Char(c) => self.handle_char(c, file_manager),
            code => self.handle_key(code, file_manager),
        }
    }

    /// Moves the file manager's pending failures into the error panel, and
    /// says what the explorer shows. Nothing else of the file manager changes.
    fn draw(&mut self, file_manager: &mut FileManager) -> (r: Screen)
        ensures
            final(self)@ == old(self)@.drawn(old(file_manager)@),
            final(file_manager)@ == old(file_manager)@.take_errors(),
            r@ == final(self)@.screen(final(file_manager)@),
    {
        let errors = file_manager.take_errors();
        self.show_errors(&errors);
        let rows = table_rows(file_manager);
        let num_files = file_manager.num_files();
        let cursor = match self.table_state.selected() {
            Some(row) => if num_files == 0 {
                None
            } else if row < num_files {
                Some(row)
            } else {
                Some(num_files - 1)
            },
            None => None,
        };
        Screen::Explorer(
            ExplorerScreen {
                path: file_manager.current_dir().clone(),
                rows,
                cursor,
                error_log: self.error_ring_buffer.to_string(),
            },
        )
    }
}

/// The requests that ask for a removal.
pub open spec fn is_removal() -> spec_fn(FsRequestView) -> bool {
    |request: FsRequestView| request is Remove
}

/// The removals among the requests that a file manager holds for the host.
pub open spec fn removals(fm: FileManagerView) -> Seq<FsRequestView> {
    fm.requests.filter(is_removal())
}

/// Requests that ask for no removal add nothing to the removals.
proof fn lemma_no_removal_added(before: Seq<FsRequestView>, added: Seq<FsRequestView>)
    requires
        forall|i: int| 0 <= i < added.len() ==> !(#[trigger] added[i] is Remove),
    ensures
        (before + added).filter(is_removal()) == before.filter(is_removal()),
    decreases added.len(),
{
    if added.len() == 0 {
        assert(before + added =~= before);
    } else {
        let earlier = added.drop_last();
        assert forall|i: int| 0 <= i < earlier.len() implies !(#[trigger] earlier[i] is Remove) by {
            assert(earlier[i] == added[i]);
        }
        lemma_no_removal_added(before, earlier);
        assert(before + added =~= (before + earlier).push(added.last()));
        (before + earlier).lemma_filter_push(added.last(), is_removal());
        assert(!(added[added.len() - 1] is Remove));
    }
}

/// Nothing is deleted without a yes. No key makes the explorer ask the host
/// for a removal: the delete key only opens the confirmation popup, with the
/// file manager untouched. A removal is asked for when an answer arrives, and
/// then only if the explorer awaits the answer to its deletion prompt and the
/// answer is yes: it is the removal of the selection as it then stands. With
/// any other answer, and with none, no removal is asked for.
pub proof fn lemma_deletion_needs_confirmation(
    explorer: ExplorerTableView,
    fm: FileManagerView,
    code: KeyCode,
    reply: Option<MessageView>,
)
    ensures
        removals(explorer.handle_key(fm, code).1) == removals(fm),
        explorer.handle_key(fm, KeyCode::Char('x')) == (
            explorer.asking(
                MessageSource::DeletionConfirmationPrompt,
                MessageView::String(deletion_prompt()),
            ),
            fm,
            AppEvents::OpenConfirmationPopup,
        ),
        explorer.message_source == MessageSource::DeletionConfirmationPrompt && reply == Some(
            MessageView::Bool(true),
        ) ==> explorer.handle_message(fm, reply).1 == fm.delete_selection(),
        !(explorer.message_source == MessageSource::DeletionConfirmationPrompt && reply == Some(
            MessageView::Bool(true),
        )) ==> removals(explorer.handle_message(fm, reply).1) == removals(fm),
        explorer.handle_message(fm, reply).0.message_source == MessageSource::Idle,
{
    let after_key = explorer.handle_key(fm, code).1;
    let by_key = after_key.requests.skip(fm.requests.len() as int);
    assert(after_key.requests =~= fm.requests + by_key);
    assert forall|i: int| 0 <= i < by_key.len() implies !(#[trigger] by_key[i] is Remove) by {
        assert(by_key[i] == after_key.requests[fm.requests.len() + i]);
    }
    lemma_no_removal_added(fm.requests, by_key);
    let after_reply = explorer.handle_message(fm, reply).1;
    if !(explorer.message_source == MessageSource::DeletionConfirmationPrompt && reply == Some(
        MessageView::Bool(true),
    )) {
        let by_reply = after_reply.requests.skip(fm.requests.len() as int);
        assert(after_reply.requests =~= fm.requests + by_reply);
        assert forall|i: int| 0 <= i < by_reply.len() implies !(#[trigger] by_reply[i]
            is Remove) by {
            assert(by_reply[i] == after_reply.requests[fm.requests.len() + i]);
        }
        lemma_no_removal_added(fm.requests, by_reply);
    }
}

/// The cursor wraps around the listing. With the cursor on a row of the
/// listing, the down key puts it on the next row, and on the first row from
/// the last; the up key puts it on the row before, and on the last row from the
/// first. After either key the cursor points at the entry of that row.
/// Neither key changes anything else.
pub proof fn lemma_cursor_keys_wrap(explorer: ExplorerTableView, fm: FileManagerView, row: usize)
    requires
        explorer.cursor == Some(row),
        row < fm.entries().len() <= usize::MAX,
    ensures
        ({
            let (moved, after, asked) = explorer.handle_key(fm, KeyCode::Down);
            let below = if row + 1 == fm.entries().len() {
                0usize
            } else {
                (row + 1) as usize
            };
            &&& after == fm
            &&& asked == AppEvents::Stay
            &&& moved == explorer.moved(Some(below))
            &&& moved.entry_under_cursor(fm) == Some(fm.entries()[below as int])
        }),
        ({
            let (moved, after, asked) = explorer.handle_key(fm, KeyCode::Up);
            let above = if row == 0 {
                (fm.entries().len() - 1) as usize
            } else {
                (row - 1) as usize
            };
            &&& after == fm
            &&& asked == AppEvents::Stay
            &&& moved == explorer.moved(Some(above))
            &&& moved.entry_under_cursor(fm) == Some(fm.entries()[above as int])
        }),
{
}

} // verus!
