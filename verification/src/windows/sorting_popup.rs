//! The popup that explains the sort modes.

use crate::controller::{AppEvents, AppWindows, State};
use crate::file_manager::FileManager;
use crate::input::{KeyCode, KeyEvent};
use crate::screen::{Screen, ScreenView};
use vstd::prelude::*;

verus! {

/// What a popup that only shows text asks for on a key: the escape key and
/// `q` close it, and every other key is ignored.
pub open spec fn help_key(code: KeyCode) -> AppEvents {
    if code == KeyCode::Esc || code == KeyCode::Char('q') {
        AppEvents::ChangeToExplorerWindow
    } else {
        AppEvents::Stay
    }
}

/// Computes [`help_key`].
pub fn handle_help_key(code: KeyCode) -> (r: AppEvents)
    ensures
        r == help_key(code),
{
    match code {
        KeyCode::Esc => AppEvents::ChangeToExplorerWindow,
        KeyCode::Char(c) => if c == 'q' {
            AppEvents::ChangeToExplorerWindow
        } else {
            AppEvents::Stay
        },
        _ => AppEvents::Stay,
    }
}

/// The sorting popup. It holds nothing: its text is the host's.
#[derive(Debug)]
pub struct SortingPopUp {}

impl SortingPopUp {
    /// The sorting popup.
    pub fn new() -> SortingPopUp {
        SortingPopUp {  }
    }
}

impl State for SortingPopUp {
    open spec fn wf(&self) -> bool {
        true
    }

    fn enter(&mut self, file_manager: &mut FileManager)
        ensures
            final(file_manager)@ == old(file_manager)@,
    {
    }

    fn exit(&mut self, file_manager: &mut FileManager)
        ensures
            final(file_manager)@ == old(file_manager)@,
    {
    }

    fn handle_key_event(&mut self, key_event: KeyEvent, file_manager: &mut FileManager) -> (r:
        AppEvents)
        ensures
            final(file_manager)@ == old(file_manager)@,
            r == help_key(key_event.code),
    {
        handle_help_key(key_event.code)
    }

    fn draw(&mut self, file_manager: &mut FileManager) -> (r: Screen)
        ensures
            final(file_manager)@ == old(file_manager)@,
            r@ == ScreenView::Help(AppWindows::SortingPopup),
    {
        Screen::Help(AppWindows::SortingPopup)
    }
}

} // verus!
