//! The popup in which a line of text is edited.

use crate::controller::{AppEvents, State};
use crate::file_manager::FileManager;
use crate::input::{KeyCode, KeyEvent};
use crate::message::{message_view, Message, MessageReceiver, MessageSender, MessageView};
use crate::screen::{Screen, ScreenView};
use vstd::prelude::*;

verus! {

/// `String::push` appends one character to the end of the string.
pub assume_specification[ std::string::String::push ](text: &mut std::string::String, ch: char)
    ensures
        final(text)@ == old(text)@.push(ch),
;

/// `String::pop` takes the last character off the string and returns it; of
/// an empty string it returns nothing and leaves it empty.
pub assume_specification[ std::string::String::pop ](text: &mut std::string::String) -> (r: Option<char>)
    ensures
        match r {
            Some(ch) => old(text)@.len() > 0 && ch == old(text)@.last() && final(text)@ == old(
                text,
            )@.drop_last(),
            None => old(text)@.len() == 0 && final(text)@ == old(text)@,
        },
;

/// The text-field popup: a label, the text being edited, and the text entered,
/// until it is fetched.
#[derive(Debug)]
pub struct TextFieldPopup {
    label: String,
    text: String,
    entered: Option<String>,
}

/// The state of a [`TextFieldPopup`] as a mathematical value.
pub struct TextFieldPopupView {
    pub label: Seq<char>,
    pub text: Seq<char>,
    pub entered: Option<Seq<char>>,
}

impl TextFieldPopupView {
    /// The popup after it was opened with `message`: a label and a value set
    /// the label and the text to start from; with anything else both are empty.
    /// Nothing is entered yet.
    pub open spec fn opened(message: Option<MessageView>) -> TextFieldPopupView {
        match message {
            Some(MessageView::TwoStrings(label, value)) => TextFieldPopupView {
                label,
                text: value,
                entered: None,
            },
            _ => TextFieldPopupView { label: Seq::empty(), text: Seq::empty(), entered: None },
        }
    }

    /// The popup after a key, and what it asks of the controller. A character
    /// is appended to the text, and backspace takes the last one off. The enter
    /// key enters the text and closes the popup; the escape key closes it with
    /// nothing entered. Every other key is ignored.
    pub open spec fn handle_key(self, code: KeyCode) -> (TextFieldPopupView, AppEvents) {
        match code {
            KeyCode::Char(ch) => (
                TextFieldPopupView { text: self.text.push(ch), ..self },
                AppEvents::Stay,
            ),
            KeyCode::Backspace => (
                TextFieldPopupView {
                    text: if self.text.len() > 0 {
                        self.text.drop_last()
                    } else {
                        self.text
                    },
                    ..self
                },
                AppEvents::Stay,
            ),
            KeyCode::Enter => (
                TextFieldPopupView { entered: Some(self.text), ..self },
                AppEvents::ChangeToExplorerWindow,
            ),
            KeyCode::Esc => (
                TextFieldPopupView { entered: None, ..self },
                AppEvents::ChangeToExplorerWindow,
            ),
            _ => (self, AppEvents::Stay),
        }
    }

    /// The message that the popup hands out: the text entered, if any.
    pub open spec fn reply(self) -> Option<MessageView> {
        match self.entered {
            Some(text) => Some(MessageView::String(text)),
            None => None,
        }
    }

    /// The popup after its message was fetched.
    pub open spec fn fetched(self) -> TextFieldPopupView {
        TextFieldPopupView { entered: None, ..self }
    }
}

impl View for TextFieldPopup {
    type V = TextFieldPopupView;

    closed spec fn view(&self) -> TextFieldPopupView {
        TextFieldPopupView {
            label: self.label@,
            text: self.text@,
            entered: match self.entered {
                Some(text) => Some(text@),
                None => None,
            },
        }
    }
}

impl TextFieldPopup {
    /// A popup with an empty label and an empty text.
    pub fn new() -> (r: TextFieldPopup)
        ensures
            r@ == TextFieldPopupView::opened(None),
    {
        TextFieldPopup { label: String::new(), text: String::new(), entered: None }
    }
}

impl MessageReceiver for TextFieldPopup {
    fn handle_message(&mut self, message: Option<Message>, file_manager: &mut FileManager)
        ensures
            final(self)@ == TextFieldPopupView::opened(message_view(message)),
            final(file_manager)@ == old(file_manager)@,
    {
        match message {
            Some(Message::TwoStrings(label, value)) => {
                self.label = label;
                self.text = value;
            },
            _ => {
                self.label = String::new();
                self.text = String::new();
            },
        }
        self.entered = None;
    }
}

impl MessageSender for TextFieldPopup {
    /// The text entered, as a message.
    open spec fn pending_message(&self) -> Option<MessageView> {
        self@.reply()
    }

    fn get_message(&mut self) -> (r: Option<Message>)
        ensures
            message_view(r) == old(self)@.reply(),
            final(self)@ == old(self)@.fetched(),
    {
        match self.entered.take() {
            Some(text) => Some(Message::String(text)),
            None => None,
        }
    }
}

impl State for TextFieldPopup {
    open spec fn wf(&self) -> bool {
        true
    }

    fn enter(&mut self, file_manager: &mut FileManager)
        ensures
            final(self)@ == old(self)@,
            final(file_manager)@ == old(file_manager)@,
    {
    }

    fn exit(&mut self, file_manager: &mut FileManager)
        ensures
            final(self)@ == old(self)@,
            final(file_manager)@ == old(file_manager)@,
    {
    }

    fn handle_key_event(&mut self, key_event: KeyEvent, file_manager: &mut FileManager) -> (r:
        AppEvents)
        ensures
            final(file_manager)@ == old(file_manager)@,
            (final(self)@, r) == old(self)@.handle_key(key_event.code),
    {
        match key_event.code {
            KeyCode::Char(ch) => {
                self.text.push(ch);
                AppEvents::Stay
            },
            KeyCode::Backspace => {
                self.text.pop();
                AppEvents::Stay
            },
            KeyCode::Enter => {
                self.entered = Some(self.text.clone());
                AppEvents::ChangeToExplorerWindow
            },
            KeyCode::Esc => {
                self.entered = None;
                AppEvents::ChangeToExplorerWindow
            },
            _ => AppEvents::Stay,
        }
    }

    fn draw(&mut self, file_manager: &mut FileManager) -> (r: Screen)
        ensures
            final(self)@ == old(self)@,
            final(file_manager)@ == old(file_manager)@,
            r@ == (ScreenView::TextField { label: old(self)@.label, text: old(self)@.text }),
    {
        Screen::TextField { label: self.label.clone(), text: self.text.clone() }
    }
}

} // verus!
