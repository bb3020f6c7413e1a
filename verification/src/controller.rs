//! The modal state machine: which window is active, how a key event reaches
//! it, and how the windows hand over to one another.

use crate::file_manager::{FileManager, FileManagerView};
use crate::input::{Event, KeyCode, KeyEvent, KeyEventKind};
use crate::message::{Message, MessageReceiver, MessageSender, MessageView};
use crate::screen::{Screen, ScreenView};
use crate::windows::confirmation_popup::{ConfirmationPopup, ConfirmationPopupView};
use crate::windows::explorer_table::{
    is_removal, lemma_deletion_needs_confirmation, removals, ExplorerTable, ExplorerTableView,
    MessageSource,
};
use crate::windows::key_mapping_popup::KeyMappingPopup;
use crate::windows::sorting_popup::{help_key, SortingPopUp};
use crate::windows::text_field_popup::{TextFieldPopup, TextFieldPopupView};
use vstd::prelude::*;

verus! {

/// What a window asks of the controller after a key event.
#[derive(Clone, Copy, Debug, PartialEq, Eq, Structural)]
pub enum AppEvents {
    /// Stay in the active window.
    Stay,
    /// End the program.
    Exit,
    ChangeToSortingPopupWindow,
    /// Close the popup and go back to the explorer.
    ChangeToExplorerWindow,
    ChangeToKeyMappingPopupWindow,
    OpenConfirmationPopup,
    OpenTextFieldPopup,
    OpenNewFilePopup,
}

/// The windows.
#[derive(Clone, Copy, Debug, PartialEq, Eq, Hash, Structural)]
pub enum AppWindows {
    Explorer,
    SortingPopup,
    KeyMappingPopup,
    ConfirmationPopup,
    TextFieldPopup,
    NewFilePopup,
}

/// What every window offers the controller.
pub trait State {
    /// What holds of the window between calls.
    spec fn wf(&self) -> bool;

    /// Runs once when the window becomes the active one.
    fn enter(&mut self, file_manager: &mut FileManager)
        requires
            old(self).wf(),
            old(file_manager).wf(),
        ensures
            final(self).wf(),
            final(file_manager).wf(),
    ;

    /// Runs once when the window stops being the active one.
    fn exit(&mut self, file_manager: &mut FileManager)
        requires
            old(self).wf(),
            old(file_manager).wf(),
        ensures
            final(self).wf(),
            final(file_manager).wf(),
    ;

    /// Reacts to one key press.
    fn handle_key_event(&mut self, key_event: KeyEvent, file_manager: &mut FileManager) -> (r:
        AppEvents)
        requires
            old(self).wf(),
            old(file_manager).wf(),
        ensures
            final(self).wf(),
            final(file_manager).wf(),
    ;

    /// Says what is to be shown.
    fn draw(&mut self, file_manager: &mut FileManager) -> (r: Screen)
        requires
            old(self).wf(),
            old(file_manager).wf(),
        ensures
            final(self).wf(),
            final(file_manager).wf(),
    ;
}

/// The label of the popup in which a new file is named.
pub open spec fn new_file_label() -> Seq<char> {
    "New File"@
}

/// The windows, the mark of the active one, and the file manager that they
/// share.
pub struct Controller {
    pub explorer: ExplorerTable,
    pub sorting_popup: SortingPopUp,
    pub key_mapping_popup: KeyMappingPopup,
    pub confirmation_popup: ConfirmationPopup,
    pub text_field_popup: TextFieldPopup,
    pub new_file_popup: TextFieldPopup,
    pub current_state_index: AppWindows,
    pub file_manager: FileManager,
}

/// The state of a [`Controller`] as a mathematical value, with its reactions
/// as functions. The two popups that only show the host's text have no state.
pub struct ControllerView {
    pub explorer: ExplorerTableView,
    pub confirmation: ConfirmationPopupView,
    pub text_field: TextFieldPopupView,
    pub new_file: TextFieldPopupView,
    pub current: AppWindows,
    pub file_manager: FileManagerView,
}

impl ControllerView {
    /// A new controller for the directory `dir`: the explorer is active.
    pub open spec fn initial(dir: Seq<char>) -> ControllerView {
        ControllerView {
            explorer: ExplorerTableView::initial(),
            confirmation: ConfirmationPopupView::opened(None),
            text_field: TextFieldPopupView::opened(None),
            new_file: TextFieldPopupView::opened(None),
            current: AppWindows::Explorer,
            file_manager: FileManagerView::initial(dir),
        }
    }

    /// The state after a switch to the window `target`. The active window is
    /// left, which changes nothing today, then `target` is marked active and
    /// entered; the explorer, when entered, asks for a fresh enumeration. This
    /// holds also where `target` is the active window.
    pub open spec fn change_state(self, target: AppWindows) -> ControllerView {
        ControllerView {
            current: target,
            file_manager: if target == AppWindows::Explorer {
                self.file_manager.update()
            } else {
                self.file_manager
            },
            ..self
        }
    }

    /// The state after the active window has handled the key `code`, and what
    /// that window asks for.
    pub open spec fn key(self, code: KeyCode) -> (ControllerView, AppEvents) {
        match self.current {
            AppWindows::Explorer => {
                let (explorer, file_manager, event) = self.explorer.handle_key(
                    self.file_manager,
                    code,
                );
                (ControllerView { explorer, file_manager, ..self }, event)
            },
            AppWindows::SortingPopup => (self, help_key(code)),
            AppWindows::KeyMappingPopup => (self, help_key(code)),
            AppWindows::ConfirmationPopup => {
                let (confirmation, event) = self.confirmation.handle_key(code);
                (ControllerView { confirmation, ..self }, event)
            },
            AppWindows::TextFieldPopup => {
                let (text_field, event) = self.text_field.handle_key(code);
                (ControllerView { text_field, ..self }, event)
            },
            AppWindows::NewFilePopup => {
                let (new_file, event) = self.new_file.handle_key(code);
                (ControllerView { new_file, ..self }, event)
            },
        }
    }

    /// What the active window answers when it closes, and the state after
    /// the answer was fetched. Only the confirmation popup and the two
    /// text-field popups answer.
    pub open spec fn fetch_reply(self) -> (Option<MessageView>, ControllerView) {
        match self.current {
            AppWindows::ConfirmationPopup => (
                self.confirmation.reply(),
                ControllerView { confirmation: self.confirmation.fetched(), ..self },
            ),
            AppWindows::TextFieldPopup => (
                self.text_field.reply(),
                ControllerView { text_field: self.text_field.fetched(), ..self },
            ),
            AppWindows::NewFilePopup => (
                self.new_file.reply(),
                ControllerView { new_file: self.new_file.fetched(), ..self },
            ),
            _ => (None, self),
        }
    }

    /// The state after the controller has done what the window asked for with
    /// `event`, and what is left for the host: to go on, or to end.
    ///
    /// A popup is opened with the message that the explorer holds for it, and
    /// the new-file popup with its label. When a popup closes, its answer goes to
    /// the explorer first, and then the explorer is entered.
    pub open spec fn follow(self, event: AppEvents) -> (ControllerView, AppEvents) {
        match event {
            AppEvents::Stay => (self, AppEvents::Stay),
            AppEvents::Exit => (self, AppEvents::Exit),
            AppEvents::ChangeToSortingPopupWindow => (
                self.change_state(AppWindows::SortingPopup),
                AppEvents::Stay,
            ),
            AppEvents::ChangeToKeyMappingPopupWindow => (
                self.change_state(AppWindows::KeyMappingPopup),
                AppEvents::Stay,
            ),
            AppEvents::OpenConfirmationPopup => (
                ControllerView {
                    explorer: self.explorer.fetched(),
                    confirmation: ConfirmationPopupView::opened(self.explorer.message),
                    ..self
                }.change_state(AppWindows::ConfirmationPopup),
                AppEvents::Stay,
            ),
            AppEvents::OpenTextFieldPopup => (
                ControllerView {
                    explorer: self.explorer.fetched(),
                    text_field: TextFieldPopupView::opened(self.explorer.message),
                    ..self
                }.change_state(AppWindows::TextFieldPopup),
                AppEvents::Stay,
            ),
            AppEvents::OpenNewFilePopup => (
                ControllerView {
                    new_file: TextFieldPopupView::opened(
                        Some(MessageView::TwoStrings(new_file_label(), Seq::empty())),
                    ),
                    ..self
                }.change_state(AppWindows::NewFilePopup),
                AppEvents::Stay,
            ),
            AppEvents::ChangeToExplorerWindow => {
                let (reply, closed) = self.fetch_reply();
                let (explorer, file_manager) = closed.explorer.handle_message(
                    closed.file_manager,
                    reply,
                );
                (
                    ControllerView { explorer, file_manager, ..closed }.change_state(
                        AppWindows::Explorer,
                    ),
                    AppEvents::Stay,
                )
            },
        }
    }

    /// The state after one event of the terminal, and what is left for the
    /// host. Only a genuine key press reaches the active window: a repeat, a
    /// release and any other event change nothing.
    pub open spec fn handle_events(self, event: Event) -> (ControllerView, AppEvents) {
        match event.pressed() {
            Some(code) => {
                let (handled, asked) = self.key(code);
                handled.follow(asked)
            },
            None => (self, AppEvents::Stay),
        }
    }

    /// The state after the active window was drawn, and what it shows. Only
    /// the explorer changes anything when drawn: it takes the file manager's
    /// pending failures into its error panel.
    pub open spec fn draw(self) -> (ControllerView, ScreenView) {
        match self.current {
            AppWindows::Explorer => {
                let explorer = self.explorer.drawn(self.file_manager);
                let file_manager = self.file_manager.take_errors();
                (ControllerView { explorer, file_manager, ..self }, explorer.screen(file_manager))
            },
            AppWindows::SortingPopup => (self, ScreenView::Help(AppWindows::SortingPopup)),
            AppWindows::KeyMappingPopup => (self, ScreenView::Help(AppWindows::KeyMappingPopup)),
            AppWindows::ConfirmationPopup => (
                self,
                ScreenView::Confirmation { prompt: self.confirmation.prompt },
            ),
            AppWindows::TextFieldPopup => (
                self,
                ScreenView::TextField { label: self.text_field.label, text: self.text_field.text },
            ),
            AppWindows::NewFilePopup => (
                self,
                ScreenView::TextField { label: self.new_file.label, text: self.new_file.text },
            ),
        }
    }
}

impl View for Controller {
    type V = ControllerView;

    open spec fn view(&self) -> ControllerView {
        ControllerView {
            explorer: self.explorer@,
            confirmation: self.confirmation_popup@,
            text_field: self.text_field_popup@,
            new_file: self.new_file_popup@,
            current: self.current_state_index,
            file_manager: self.file_manager@,
        }
    }
}

impl Controller {
    /// The explorer and the file manager are well-formed.
    pub open spec fn wf(&self) -> bool {
        &&& self.explorer.wf()
        &&& self.file_manager.wf()
    }

    /// A controller for the directory `start_dir`, which the host gives as an
    /// absolute path. The explorer is the active window.
    pub fn new(start_dir: String) -> (r: Controller)
        ensures
            r.wf(),
            r@ == ControllerView::initial(start_dir@),
    {
        Controller {
            explorer: ExplorerTable::new(),
            sorting_popup: SortingPopUp::new(),
            key_mapping_popup: KeyMappingPopup::new(),
            confirmation_popup: ConfirmationPopup::new(),
            text_field_popup: TextFieldPopup::new(),
            new_file_popup: TextFieldPopup::new(),
            current_state_index: AppWindows::Explorer,
            file_manager: FileManager::new(start_dir),
        }
    }

    /// Leaves the active window, marks `new_window` active, and enters it.
    pub fn change_state(&mut self, new_window: AppWindows)
        requires
            old(self).wf(),
        ensures
            final(self).wf(),
            final(self)@ == old(self)@.change_state(new_window),
    {
        match self.current_state_index {
            AppWindows::Explorer => self.explorer.exit(&mut self.file_manager),
            AppWindows::SortingPopup => self.sorting_popup.exit(&mut self.file_manager),
            AppWindows::KeyMappingPopup => self.key_mapping_popup.exit(&mut self.file_manager),
            AppWindows::ConfirmationPopup => self.confirmation_popup.exit(&mut self.file_manager),
            AppWindows::TextFieldPopup => self.text_field_popup.exit(&mut self.file_manager),
            AppWindows::NewFilePopup => self.new_file_popup.exit(&mut self.file_manager),
        }
        self.current_state_index = new_window;
        match self.current_state_index {
            AppWindows::Explorer => self.explorer.enter(&mut self.file_manager),
            AppWindows::SortingPopup => self.sorting_popup.enter(&mut self.file_manager),
            AppWindows::KeyMappingPopup => self.key_mapping_popup.enter(&mut self.file_manager),
            AppWindows::ConfirmationPopup => self.confirmation_popup.enter(&mut self.file_manager),
            AppWindows::TextFieldPopup => self.text_field_popup.enter(&mut self.file_manager),
            AppWindows::NewFilePopup => self.new_file_popup.enter(&mut self.file_manager),
        }
    }

    /// Hands a key press to the active window.
    fn dispatch_key(&mut self, key_event: KeyEvent) -> (r: AppEvents)
        requires
            old(self).wf(),
        ensures
            final(self).wf(),
            (final(self)@, r) == old(self)@.key(key_event.code),
    {
        match self.current_state_index {
            AppWindows::Explorer => self.explorer.handle_key_event(
                key_event,
                &mut self.file_manager,
            ),
            AppWindows::SortingPopup => self.sorting_popup.handle_key_event(
                key_event,
                &mut self.file_manager,
            ),
            AppWindows::KeyMappingPopup => self.key_mapping_popup.handle_key_event(
                key_event,
                &mut self.file_manager,
            ),
            AppWindows::ConfirmationPopup => self.confirmation_popup.handle_key_event(
                key_event,
                &mut self.file_manager,
            ),
            AppWindows::TextFieldPopup => self.text_field_popup.handle_key_event(
                key_event,
                &mut self.file_manager,
            ),
            AppWindows::NewFilePopup => self.new_file_popup.handle_key_event(
                key_event,
                &mut self.file_manager,
            ),
        }
    }

    /// Fetches the answer of the window that is closing.
    fn fetch_reply(&mut self) -> (r: Option<Message>)
        requires
            old(self).wf(),
        ensures
            final(self).wf(),
            (crate::message::message_view(r), final(self)@) == old(self)@.fetch_reply(),
    {
        match self.current_state_index {
            AppWindows::ConfirmationPopup => self.confirmation_popup.get_message(),
            AppWindows::TextFieldPopup => self.text_field_popup.get_message(),
            AppWindows::NewFilePopup => self.new_file_popup.get_message(),
            _ => None,
        }
    }

    /// Does what a window asked for with `event`.
    fn follow(&mut self, event: AppEvents) -> (r: AppEvents)
        requires
            old(self).wf(),
        ensures
            final(self).wf(),
            (final(self)@, r) == old(self)@.follow(event),
    {
        match event {
            AppEvents::Stay => AppEvents::Stay,
            AppEvents::Exit => AppEvents::Exit,
            AppEvents::ChangeToSortingPopupWindow => {
                self.change_state(AppWindows::SortingPopup);
                AppEvents::Stay
            },
            AppEvents::ChangeToKeyMappingPopupWindow => {
                self.change_state(AppWindows::KeyMappingPopup);
                AppEvents::Stay
            },
            AppEvents::OpenConfirmationPopup => {
                let message = self.explorer.get_message();
                self.confirmation_popup.handle_message(message, &mut self.file_manager);
                self.change_state(AppWindows::ConfirmationPopup);
                AppEvents::Stay
            },
            AppEvents::OpenTextFieldPopup => {
                let message = self.explorer.get_message();
                self.text_field_popup.handle_message(message, &mut self.file_manager);
                self.change_state(AppWindows::TextFieldPopup);
                AppEvents::Stay
            },
            AppEvents::OpenNewFilePopup => {
                let message = Message::TwoStrings("New File".to_owned(), String::new());
                self.new_file_popup.handle_message(Some(message), &mut self.file_manager);
                self.change_state(AppWindows::NewFilePopup);
                AppEvents::Stay
            },
            AppEvents::ChangeToExplorerWindow => {
                let reply = self.fetch_reply();
                self.explorer.handle_message(reply, &mut self.file_manager);
                self.change_state(AppWindows::Explorer);
                AppEvents::Stay
            },
        }
    }

    /// Takes one event of the terminal. A key press goes to the active window,
    /// and what the window asks for is done; anything else is dropped. The
    /// result is [`AppEvents::Exit`] when the program is to end, and
    /// [`AppEvents::Stay`] otherwise.
    pub fn handle_events(&mut self, event: Event) -> (r: AppEvents)
        requires
            old(self).wf(),
        ensures
            final(self).wf(),
            (final(self)@, r) == old(self)@.handle_events(event),
            r == AppEvents::Stay || r == AppEvents::Exit,
    {
        match event {
            Event::Key(key_event) => {
                match key_event.kind {
                    KeyEventKind::Press => {
                        let app_event = self.dispatch_key(key_event);
                        self.follow(app_event)
                    },
                    _ => AppEvents::Stay,
                }
            },
            Event::Other => AppEvents::Stay,
        }
    }

    /// Draws the active window: says what it shows.
    pub fn draw(&mut self) -> (r: Screen)
        requires
            old(self).wf(),
        ensures
            final(self).wf(),
            (final(self)@, r@) == old(self)@.draw(),
    {
        match self.current_state_index {
            AppWindows::Explorer => self.explorer.draw(&mut self.file_manager),
            AppWindows::SortingPopup => self.sorting_popup.draw(&mut self.file_manager),
            AppWindows::KeyMappingPopup => self.key_mapping_popup.draw(&mut self.file_manager),
            AppWindows::ConfirmationPopup => self.confirmation_popup.draw(&mut self.file_manager),
            AppWindows::TextFieldPopup => self.text_field_popup.draw(&mut self.file_manager),
            AppWindows::NewFilePopup => self.new_file_popup.draw(&mut self.file_manager),
        }
    }
}

/// Asking for a fresh enumeration asks for no removal.
proof fn lemma_update_removes_nothing(file_manager: FileManagerView)
    ensures
        removals(file_manager.update()) == removals(file_manager),
{
    file_manager.requests.lemma_filter_push(
        crate::file_manager::FsRequestView::List { dir: file_manager.current_dir },
        is_removal(),
    );
}

/// Only a yes deletes. Whatever the state and whatever the event, the
/// controller asks the host for a removal in one case alone: the confirmation
/// popup is the active window, the explorer awaits the answer to its deletion
/// prompt, and the event is a press of `y`. Then what it asks for is the
/// removal of the selection, followed by a fresh enumeration. In every other
/// case the removals asked of the host are what they were.
pub proof fn lemma_only_a_yes_deletes(state: ControllerView, event: Event)
    ensures
        ({
            let after = state.handle_events(event).0;
            let confirmed = state.current == AppWindows::ConfirmationPopup
                && state.explorer.message_source == MessageSource::DeletionConfirmationPrompt
                && event.pressed() == Some(KeyCode::Char('y'));
            &&& confirmed ==> after.file_manager == state.file_manager.delete_selection().update()
            &&& !confirmed ==> removals(after.file_manager) == removals(state.file_manager)
        }),
{
    match event.pressed() {
        Some(code) => {
            let (handled, asked) = state.key(code);
            let (reply, closed) = handled.fetch_reply();
            lemma_deletion_needs_confirmation(state.explorer, state.file_manager, code, reply);
            lemma_deletion_needs_confirmation(closed.explorer, closed.file_manager, code, reply);
            lemma_update_removes_nothing(handled.file_manager);
            lemma_update_removes_nothing(
                closed.explorer.handle_message(closed.file_manager, reply).1,
            );
        },
        None => {},
    }
}

} // verus!
