//! The popup that asks a question to be answered with yes or no.

use crate::controller::{AppEvents, State};
use crate::file_manager::FileManager;
use crate::input::{KeyCode, KeyEvent};
use crate::message::{message_view, Message, MessageReceiver, MessageSender, MessageView};
use crate::screen::{Screen, ScreenView};
use vstd::prelude::*;

verus! {

/// The confirmation popup: the question it shows, and the answer given, until
/// it is fetched.
#[derive(Debug)]
pub struct ConfirmationPopup {
    prompt: String,
    answer: Option<bool>,
}

/// The state of a [`ConfirmationPopup`] as a mathematical value.
pub struct ConfirmationPopupView {
    pub prompt: Seq<char>,
    pub answer: Option<bool>,
}

impl ConfirmationPopupView {
    /// The popup after it was opened with `message`: a text is the question;
    /// with anything else the question is empty. No answer is pending.
    pub open spec fn opened(message: Option<MessageView>) -> ConfirmationPopupView {
        ConfirmationPopupView {
            prompt: match message {
                Some(MessageView::String(text)) => text,
                _ => Seq::empty(),
            },
            answer: None,
        }
    }

    /// The popup after a key, and what it asks of the controller: `y`
    /// answers yes, `n` and the escape key answer no, and each closes the
    /// popup; every other key is ignored.
    pub open spec fn handle_key(self, code: KeyCode) -> (ConfirmationPopupView, AppEvents) {
        if code == KeyCode::Char('y') {
            (
                ConfirmationPopupView { answer: Some(true), ..self },
                AppEvents::ChangeToExplorerWindow,
            )
        } else if code == KeyCode::Char('n') || code == KeyCode::Esc {
            (
                ConfirmationPopupView { answer: Some(false), ..self },
                AppEvents::ChangeToExplorerWindow,
            )
        } else {
            (self, AppEvents::Stay)
        }
    }

    /// The message that the popup hands out: the answer, if one is pending.
    pub open spec fn reply(self) -> Option<MessageView> {
        match self.answer {
            Some(answer) => Some(MessageView::Bool(answer)),
            None => None,
        }
    }

    /// The popup after its message was fetched.
    pub open spec fn fetched(self) -> ConfirmationPopupView {
        ConfirmationPopupView { answer: None, ..self }
    }
}

impl View for ConfirmationPopup {
    type V = ConfirmationPopupView;

    closed spec fn view(&self) -> ConfirmationPopupView {
        ConfirmationPopupView { prompt: self.prompt@, answer: self.answer }
    }
}

impl ConfirmationPopup {
    /// A popup with an empty question and no answer.
    pub fn new() -> (r: ConfirmationPopup)
        ensures
            r@ == ConfirmationPopupView::opened(None),
    {
        ConfirmationPopup { prompt: String::new(), answer: None }
    }
}

impl MessageReceiver for ConfirmationPopup {
    fn handle_message(&mut self, message: Option<Message>, file_manager: &mut FileManager)
        ensures
            final(self)@ == ConfirmationPopupView::opened(message_view(message)),
            final(file_manager)@ == old(file_manager)@,
    {
        self.prompt =
        match message {
            Some(Message::String(text)) => text,
            _ => String::new(),
        };
        self.answer = None;
    }
}

impl MessageSender for ConfirmationPopup {
    /// The answer given, as a message.
    open spec fn pending_message(&self) -> Option<MessageView> {
        self@.reply()
    }

    fn get_message(&mut self) -> (r: Option<Message>)
        ensures
            message_view(r) == old(self)@.reply(),
            final(self)@ == old(self)@.fetched(),
    {
        match self.answer.take() {
            Some(answer) => Some(Message::Bool(answer)),
            None => None,
        }
    }
}

impl State for ConfirmationPopup {
    open spec fn wf(&self) -> bool {
        true
    }

    fn enter(&mut self, file_manager: &mut FileManager)
        ensures
            final(self)@ == old(self)@,
            final(file_manager)@ == old(file_manager)@,
    {
    }

    fn exit(&mut self, file_manager: &mut FileManager)
        ensures
            final(self)@ == old(self)@,
            final(file_manager)@ == old(file_manager)@,
    {
    }

    fn handle_key_event(&mut self, key_event: KeyEvent, file_manager: &mut FileManager) -> (r:
        AppEvents)
        ensures
            final(file_manager)@ == old(file_manager)@,
            (final(self)@, r) == old(self)@.handle_key(key_event.code),
    {
        match key_event.code {
            KeyCode::Char(c) => {
                if c == 'y' {
                    self.answer = Some(true);
                    AppEvents::ChangeToExplorerWindow
                } else if c == 'n' {
                    self.answer = Some(false);
                    AppEvents::ChangeToExplorerWindow
                } else {
                    AppEvents::Stay
                }
            },
            KeyCode::Esc => {
                self.answer = Some(false);
                AppEvents::ChangeToExplorerWindow
            },
            _ => AppEvents::Stay,
        }
    }

    fn draw(&mut self, file_manager: &mut FileManager) -> (r: Screen)
        ensures
            final(self)@ == old(self)@,
            final(file_manager)@ == old(file_manager)@,
            r@ == (ScreenView::Confirmation { prompt: old(self)@.prompt }),
    {
        Screen::Confirmation { prompt: self.prompt.clone() }
    }
}

} // verus!
