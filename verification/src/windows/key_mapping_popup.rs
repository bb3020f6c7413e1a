//! The popup that lists the key bindings.

use crate::controller::{AppEvents, AppWindows, State};
use crate::file_manager::FileManager;
use crate::input::KeyEvent;
use crate::screen::{Screen, ScreenView};
use crate::windows::sorting_popup::{handle_help_key, help_key};
use vstd::prelude::*;

verus! {

/// The key-mapping popup. It holds nothing: its text is the host's.
#[derive(Debug)]
pub struct KeyMappingPopup {}

impl KeyMappingPopup {
    /// The key-mapping popup.
    pub fn new() -> KeyMappingPopup {
        KeyMappingPopup {  }
    }
}

impl State for KeyMappingPopup {
    open spec fn wf(&self) -> bool {
        true
    }

    fn enter(&mut self, file_manager: &mut FileManager)
        ensures
            final(file_manager)@ == old(file_manager)@,
    {
    }

    fn exit(&mut self, file_manager: &mut FileManager)
        ensures
            final(file_manager)@ == old(file_manager)@,
    {
    }

    fn handle_key_event(&mut self, key_event: KeyEvent, file_manager: &mut FileManager) -> (r:
        AppEvents)
        ensures
            final(file_manager)@ == old(file_manager)@,
            r == help_key(key_event.code),
    {
        handle_help_key(key_event.code)
    }

    fn draw(&mut self, file_manager: &mut FileManager) -> (r: Screen)
        ensures
            final(file_manager)@ == old(file_manager)@,
            r@ == ScreenView::Help(AppWindows::KeyMappingPopup),
    {
        Screen::Help(AppWindows::KeyMappingPopup)
    }
}

} // verus!
