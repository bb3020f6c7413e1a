use file_explorer::controller::{AppEvents, AppWindows, State};
use file_explorer::file_manager::FileManager;
use file_explorer::input::{KeyCode, KeyEvent, KeyEventKind};
use file_explorer::message::{Message, MessageReceiver, MessageSender};
use file_explorer::screen::Screen;
use file_explorer::windows::confirmation_popup::ConfirmationPopup;
use file_explorer::windows::key_mapping_popup::KeyMappingPopup;
use file_explorer::windows::sorting_popup::{handle_help_key, SortingPopUp};
use file_explorer::windows::text_field_popup::TextFieldPopup;

fn key(code: KeyCode) -> KeyEvent {
    KeyEvent {
        code,
        kind: KeyEventKind::Press,
    }
}

fn file_manager() -> FileManager {
    let mut fm = FileManager::new("/home".to_string());
    fm.take_requests();
    fm
}

fn type_text(popup: &mut TextFieldPopup, fm: &mut FileManager, text: &str) {
    for ch in text.chars() {
        assert_eq!(
            popup.handle_key_event(key(KeyCode::Char(ch)), fm),
            AppEvents::Stay
        );
    }
}

fn text_of(popup: &mut TextFieldPopup, fm: &mut FileManager) -> (String, String) {
    match popup.draw(fm) {
        Screen::TextField { label, text } => (label, text),
        other => panic!("the text field drew {:?}", other),
    }
}

#[test]
fn help_popups_close_on_escape_and_q() {
    assert_eq!(
        handle_help_key(KeyCode::Esc),
        AppEvents::ChangeToExplorerWindow
    );
    assert_eq!(
        handle_help_key(KeyCode::Char('q')),
        AppEvents::ChangeToExplorerWindow
    );
    for code in [
        KeyCode::Char('x'),
        KeyCode::Char('d'),
        KeyCode::Enter,
        KeyCode::Down,
        KeyCode::Other,
    ] {
        assert_eq!(handle_help_key(code), AppEvents::Stay);
    }
}

#[test]
fn sorting_popup_shows_help_and_leaves_the_file_manager_alone() {
    let mut popup = SortingPopUp::new();
    let mut fm = file_manager();
    popup.enter(&mut fm);
    assert_eq!(
        popup.draw(&mut fm),
        Screen::Help(AppWindows::SortingPopup)
    );
    assert_eq!(
        popup.handle_key_event(key(KeyCode::Char('d')), &mut fm),
        AppEvents::Stay
    );
    assert_eq!(
        popup.handle_key_event(key(KeyCode::Esc), &mut fm),
        AppEvents::ChangeToExplorerWindow
    );
    popup.exit(&mut fm);
    assert!(fm.take_requests().is_empty());
}

#[test]
fn key_mapping_popup_shows_help_and_closes() {
    let mut popup = KeyMappingPopup::new();
    let mut fm = file_manager();
    popup.enter(&mut fm);
    assert_eq!(
        popup.draw(&mut fm),
        Screen::Help(AppWindows::KeyMappingPopup)
    );
    assert_eq!(
        popup.handle_key_event(key(KeyCode::Char('m')), &mut fm),
        AppEvents::Stay
    );
    assert_eq!(
        popup.handle_key_event(key(KeyCode::Char('q')), &mut fm),
        AppEvents::ChangeToExplorerWindow
    );
    popup.exit(&mut fm);
    assert!(fm.take_requests().is_empty());
}

#[test]
fn confirmation_popup_shows_the_question_it_was_opened_with() {
    let mut popup = ConfirmationPopup::new();
    let mut fm = file_manager();
    assert_eq!(
        popup.draw(&mut fm),
        Screen::Confirmation {
            prompt: String::new()
        }
    );
    popup.handle_message(Some(Message::String("Sure?".to_string())), &mut fm);
    assert_eq!(
        popup.draw(&mut fm),
        Screen::Confirmation {
            prompt: "Sure?".to_string()
        }
    );
    popup.handle_message(Some(Message::Bool(true)), &mut fm);
    assert_eq!(
        popup.draw(&mut fm),
        Screen::Confirmation {
            prompt: String::new()
        }
    );
}

#[test]
fn confirmation_popup_answers_yes_on_y() {
    let mut popup = ConfirmationPopup::new();
    let mut fm = file_manager();
    assert_eq!(
        popup.handle_key_event(key(KeyCode::Char('y')), &mut fm),
        AppEvents::ChangeToExplorerWindow
    );
    assert_eq!(popup.get_message(), Some(Message::Bool(true)));
    assert_eq!(popup.get_message(), None);
}

#[test]
fn confirmation_popup_answers_no_on_n_and_escape() {
    for code in [KeyCode::Char('n'), KeyCode::Esc] {
        let mut popup = ConfirmationPopup::new();
        let mut fm = file_manager();
        assert_eq!(
            popup.handle_key_event(key(code), &mut fm),
            AppEvents::ChangeToExplorerWindow
        );
        assert_eq!(popup.get_message(), Some(Message::Bool(false)));
    }
}

#[test]
fn confirmation_popup_ignores_other_keys() {
    let mut popup = ConfirmationPopup::new();
    let mut fm = file_manager();
    for code in [KeyCode::Enter, KeyCode::Char('Y'), KeyCode::Tab, KeyCode::Other] {
        assert_eq!(popup.handle_key_event(key(code), &mut fm), AppEvents::Stay);
    }
    assert_eq!(popup.get_message(), None);
}

#[test]
fn confirmation_popup_forgets_an_old_answer_when_opened_again() {
    let mut popup = ConfirmationPopup::new();
    let mut fm = file_manager();
    popup.handle_key_event(key(KeyCode::Char('y')), &mut fm);
    popup.handle_message(Some(Message::String("Again?".to_string())), &mut fm);
    assert_eq!(popup.get_message(), None);
}

#[test]
fn text_field_popup_starts_from_the_value_given() {
    let mut popup = TextFieldPopup::new();
    let mut fm = file_manager();
    assert_eq!(text_of(&mut popup, &mut fm), (String::new(), String::new()));
    popup.handle_message(
        Some(Message::TwoStrings(
            "Change Path".to_string(),
            "/home".to_string(),
        )),
        &mut fm,
    );
    assert_eq!(
        text_of(&mut popup, &mut fm),
        ("Change Path".to_string(), "/home".to_string())
    );
    popup.handle_message(Some(Message::String("x".to_string())), &mut fm);
    assert_eq!(text_of(&mut popup, &mut fm), (String::new(), String::new()));
}

#[test]
fn text_field_popup_appends_what_is_typed() {
    let mut popup = TextFieldPopup::new();
    let mut fm = file_manager();
    popup.handle_message(
        Some(Message::TwoStrings("Path".to_string(), "/ho".to_string())),
        &mut fm,
    );
    type_text(&mut popup, &mut fm, "me/q");
    assert_eq!(text_of(&mut popup, &mut fm).1, "/home/q");
}

#[test]
fn text_field_popup_backspace_removes_the_last_character() {
    let mut popup = TextFieldPopup::new();
    let mut fm = file_manager();
    type_text(&mut popup, &mut fm, "ab");
    assert_eq!(
        popup.handle_key_event(key(KeyCode::Backspace), &mut fm),
        AppEvents::Stay
    );
    assert_eq!(text_of(&mut popup, &mut fm).1, "a");
    popup.handle_key_event(key(KeyCode::Backspace), &mut fm);
    popup.handle_key_event(key(KeyCode::Backspace), &mut fm);
    assert_eq!(text_of(&mut popup, &mut fm).1, "");
}

#[test]
fn text_field_popup_enter_hands_out_the_text_once() {
    let mut popup = TextFieldPopup::new();
    let mut fm = file_manager();
    type_text(&mut popup, &mut fm, "/etc");
    assert_eq!(
        popup.handle_key_event(key(KeyCode::Enter), &mut fm),
        AppEvents::ChangeToExplorerWindow
    );
    assert_eq!(
        popup.get_message(),
        Some(Message::String("/etc".to_string()))
    );
    assert_eq!(popup.get_message(), None);
}

#[test]
fn text_field_popup_escape_hands_out_nothing() {
    let mut popup = TextFieldPopup::new();
    let mut fm = file_manager();
    type_text(&mut popup, &mut fm, "/etc");
    assert_eq!(
        popup.handle_key_event(key(KeyCode::Esc), &mut fm),
        AppEvents::ChangeToExplorerWindow
    );
    assert_eq!(popup.get_message(), None);
}

#[test]
fn text_field_popup_ignores_other_keys() {
    let mut popup = TextFieldPopup::new();
    let mut fm = file_manager();
    type_text(&mut popup, &mut fm, "a");
    for code in [KeyCode::Up, KeyCode::Tab, KeyCode::Other] {
        assert_eq!(popup.handle_key_event(key(code), &mut fm), AppEvents::Stay);
    }
    assert_eq!(text_of(&mut popup, &mut fm).1, "a");
    assert!(fm.take_requests().is_empty());
}

struct Silent;

impl MessageSender for Silent {}

#[test]
fn a_window_with_nothing_to_say_hands_out_no_message() {
    let mut silent = Silent;
    assert_eq!(silent.get_message(), None);
    assert_eq!(silent.get_message(), None);
}
