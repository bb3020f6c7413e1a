//! The payload that a window hands to another when a popup opens or closes.

use crate::file_manager::FileManager;
use vstd::prelude::*;

verus! {

/// What a popup is opened with, or what it answers when it closes.
#[derive(Debug, PartialEq, Eq)]
pub enum Message {
    String(String),
    Bool(bool),
    /// A label and a value.
    TwoStrings(String, String),
}

/// The mathematical value of a [`Message`].
pub enum MessageView {
    String(Seq<char>),
    Bool(bool),
    TwoStrings(Seq<char>, Seq<char>),
}

impl View for Message {
    type V = MessageView;

    open spec fn view(&self) -> MessageView {
        match self {
            Message::String(text) => MessageView::String(text@),
            Message::Bool(answer) => MessageView::Bool(*answer),
            Message::TwoStrings(label, value) => MessageView::TwoStrings(label@, value@),
        }
    }
}

/// The value of a message that may be absent.
pub open spec fn message_view(message: Option<Message>) -> Option<MessageView> {
    match message {
        Some(m) => Some(m@),
        None => None,
    }
}

/// A window that can hand a message to another. A window that has nothing to
/// say keeps the default.
pub trait MessageSender {
    /// Hands out the pending message, if there is one. It is handed out once.
    fn get_message(&mut self) -> (r: Option<Message>)
        ensures
            r matches Some(message) ==> old(self).pending_message() == Some(message@),
            r is Some ==> final(self).pending_message() is None,
            r is None ==> final(self).pending_message() == old(self).pending_message(),
    {
        None
    }

    /// The message that the window holds for another, if it holds one. A
    /// window that has nothing to say holds none.
    open spec fn pending_message(&self) -> Option<MessageView> {
        None
    }
}

/// A window that can take a message from another. A window that expects none
/// keeps the default, which ignores it.
pub trait MessageReceiver {
    /// Takes `_message`, which is `None` where the sender had nothing to say.
    fn handle_message(&mut self, _message: Option<Message>, _file_manager: &mut FileManager)
        requires
            old(_file_manager).wf(),
        ensures
            final(_file_manager).wf(),
    {
    }
}

} // verus!
