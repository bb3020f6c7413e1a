use file_explorer::controller::{AppEvents, AppWindows, Controller};
use file_explorer::entry::Entry;
use file_explorer::file_manager::FsRequest;
use file_explorer::input::{Event, KeyCode, KeyEvent, KeyEventKind};
use file_explorer::screen::Screen;
use file_explorer::windows::explorer_table::MessageSource;

fn press(code: KeyCode) -> Event {
    Event::Key(KeyEvent {
        code,
        kind: KeyEventKind::Press,
    })
}

fn entry(name: &str, is_dir: bool) -> Entry {
    Entry {
        name: name.to_string(),
        path: format!("/home/{}", name),
        size: 3,
        is_dir,
        readable: true,
    }
}

/// A controller for /home that lists `notes.txt` and `docs` (a directory),
/// with no request pending.
fn at_home() -> Controller {
    let mut controller = Controller::new("/home".to_string());
    controller.file_manager.take_requests();
    controller.file_manager.apply_listing(
        &"/home".to_string(),
        Ok(vec![entry("notes.txt", false), entry("docs", true)]),
    );
    controller
}

fn type_text(controller: &mut Controller, text: &str) {
    for ch in text.chars() {
        assert_eq!(
            controller.handle_events(press(KeyCode::Char(ch))),
            AppEvents::Stay
        );
    }
}

fn list_home() -> FsRequest {
    FsRequest::List {
        dir: "/home".to_string(),
    }
}

#[test]
fn controller_starts_in_the_explorer() {
    let mut controller = Controller::new("/home".to_string());
    assert_eq!(controller.current_state_index, AppWindows::Explorer);
    assert_eq!(controller.file_manager.take_requests(), vec![list_home()]);
    assert!(matches!(controller.draw(), Screen::Explorer(_)));
}

#[test]
fn controller_drops_what_is_no_key_press() {
    let mut controller = at_home();
    for kind in [KeyEventKind::Release, KeyEventKind::Repeat] {
        let event = Event::Key(KeyEvent {
            code: KeyCode::Char('q'),
            kind,
        });
        assert_eq!(controller.handle_events(event), AppEvents::Stay);
        let event = Event::Key(KeyEvent {
            code: KeyCode::Char('s'),
            kind,
        });
        assert_eq!(controller.handle_events(event), AppEvents::Stay);
        let event = Event::Key(KeyEvent {
            code: KeyCode::Down,
            kind,
        });
        assert_eq!(controller.handle_events(event), AppEvents::Stay);
    }
    assert_eq!(controller.handle_events(Event::Other), AppEvents::Stay);
    assert_eq!(controller.current_state_index, AppWindows::Explorer);
    assert_eq!(controller.explorer.cursor(), Some(0));
    assert!(controller.file_manager.take_requests().is_empty());
}

#[test]
fn controller_exits_on_q_in_the_explorer() {
    let mut controller = at_home();
    assert_eq!(
        controller.handle_events(press(KeyCode::Char('q'))),
        AppEvents::Exit
    );
}

#[test]
fn controller_forwards_presses_to_the_explorer() {
    let mut controller = at_home();
    assert_eq!(
        controller.handle_events(press(KeyCode::Down)),
        AppEvents::Stay
    );
    assert_eq!(controller.explorer.cursor(), Some(1));
    controller.handle_events(press(KeyCode::Char('y')));
    assert!(controller
        .file_manager
        .is_selected(&"/home/docs".to_string()));
}

#[test]
fn controller_opens_and_closes_the_sorting_popup() {
    let mut controller = at_home();
    assert_eq!(
        controller.handle_events(press(KeyCode::Char('s'))),
        AppEvents::Stay
    );
    assert_eq!(controller.current_state_index, AppWindows::SortingPopup);
    assert_eq!(controller.draw(), Screen::Help(AppWindows::SortingPopup));
    assert!(controller.file_manager.take_requests().is_empty());
    assert_eq!(
        controller.handle_events(press(KeyCode::Char('q'))),
        AppEvents::Stay
    );
    assert_eq!(controller.current_state_index, AppWindows::Explorer);
    assert_eq!(controller.file_manager.take_requests(), vec![list_home()]);
}

#[test]
fn controller_opens_and_closes_the_key_mapping_popup() {
    let mut controller = at_home();
    controller.handle_events(press(KeyCode::Char('m')));
    assert_eq!(controller.current_state_index, AppWindows::KeyMappingPopup);
    assert_eq!(
        controller.draw(),
        Screen::Help(AppWindows::KeyMappingPopup)
    );
    controller.handle_events(press(KeyCode::Down));
    assert_eq!(controller.explorer.cursor(), Some(0));
    controller.handle_events(press(KeyCode::Esc));
    assert_eq!(controller.current_state_index, AppWindows::Explorer);
}

#[test]
fn controller_change_state_leaves_and_enters() {
    let mut controller = at_home();
    controller.change_state(AppWindows::KeyMappingPopup);
    assert_eq!(controller.current_state_index, AppWindows::KeyMappingPopup);
    assert!(controller.file_manager.take_requests().is_empty());
    controller.change_state(AppWindows::Explorer);
    assert_eq!(controller.file_manager.take_requests(), vec![list_home()]);
    controller.change_state(AppWindows::Explorer);
    assert_eq!(controller.current_state_index, AppWindows::Explorer);
    assert_eq!(controller.file_manager.take_requests(), vec![list_home()]);
}

#[test]
fn controller_deletes_nothing_until_the_user_says_yes() {
    let mut controller = at_home();
    controller.handle_events(press(KeyCode::Char('y')));
    assert_eq!(
        controller.handle_events(press(KeyCode::Char('x'))),
        AppEvents::Stay
    );
    assert_eq!(
        controller.current_state_index,
        AppWindows::ConfirmationPopup
    );
    assert_eq!(
        controller.draw(),
        Screen::Confirmation {
            prompt: "The selected files will be deleted permanently, are you sure?".to_string()
        }
    );
    assert!(controller.file_manager.take_requests().is_empty());
    controller.handle_events(press(KeyCode::Char('z')));
    assert_eq!(
        controller.current_state_index,
        AppWindows::ConfirmationPopup
    );
    assert!(controller.file_manager.take_requests().is_empty());
    assert_eq!(
        controller.handle_events(press(KeyCode::Char('y'))),
        AppEvents::Stay
    );
    assert_eq!(controller.current_state_index, AppWindows::Explorer);
    assert_eq!(
        controller.file_manager.take_requests(),
        vec![
            FsRequest::Remove {
                target: "/home/notes.txt".to_string()
            },
            list_home()
        ]
    );
    assert_eq!(controller.explorer.message_source(), MessageSource::Idle);
}

#[test]
fn controller_deletes_nothing_after_a_no() {
    for code in [KeyCode::Char('n'), KeyCode::Esc] {
        let mut controller = at_home();
        controller.handle_events(press(KeyCode::Char('y')));
        controller.handle_events(press(KeyCode::Char('x')));
        controller.handle_events(press(code));
        assert_eq!(controller.current_state_index, AppWindows::Explorer);
        assert_eq!(controller.file_manager.take_requests(), vec![list_home()]);
        assert!(controller
            .file_manager
            .is_selected(&"/home/notes.txt".to_string()));
        assert_eq!(controller.explorer.message_source(), MessageSource::Idle);
    }
}

#[test]
fn controller_changes_the_path_through_the_text_field() {
    let mut controller = at_home();
    assert_eq!(
        controller.handle_events(press(KeyCode::Tab)),
        AppEvents::Stay
    );
    assert_eq!(controller.current_state_index, AppWindows::TextFieldPopup);
    assert_eq!(
        controller.draw(),
        Screen::TextField {
            label: "Change Path".to_string(),
            text: "/home".to_string()
        }
    );
    type_text(&mut controller, "/dox");
    controller.handle_events(press(KeyCode::Backspace));
    type_text(&mut controller, "cs");
    assert_eq!(
        controller.handle_events(press(KeyCode::Enter)),
        AppEvents::Stay
    );
    assert_eq!(controller.current_state_index, AppWindows::Explorer);
    assert_eq!(
        controller.file_manager.take_requests(),
        vec![
            FsRequest::ChangeDir {
                from: "/home".to_string(),
                target: "/home/docs".to_string()
            },
            list_home()
        ]
    );
}

#[test]
fn controller_keeps_the_path_when_the_text_field_is_cancelled() {
    let mut controller = at_home();
    controller.handle_events(press(KeyCode::Tab));
    type_text(&mut controller, "/elsewhere");
    controller.handle_events(press(KeyCode::Esc));
    assert_eq!(controller.current_state_index, AppWindows::Explorer);
    assert_eq!(controller.file_manager.take_requests(), vec![list_home()]);
    assert_eq!(controller.explorer.message_source(), MessageSource::Idle);
}

#[test]
fn controller_q_typed_into_a_text_field_does_not_exit() {
    let mut controller = at_home();
    controller.handle_events(press(KeyCode::Tab));
    assert_eq!(
        controller.handle_events(press(KeyCode::Char('q'))),
        AppEvents::Stay
    );
    assert_eq!(controller.current_state_index, AppWindows::TextFieldPopup);
    assert_eq!(
        controller.draw(),
        Screen::TextField {
            label: "Change Path".to_string(),
            text: "/homeq".to_string()
        }
    );
}

#[test]
fn controller_new_file_popup_opens_empty_and_its_text_is_dropped() {
    let mut controller = at_home();
    assert_eq!(
        controller.handle_events(press(KeyCode::Char('n'))),
        AppEvents::Stay
    );
    assert_eq!(controller.current_state_index, AppWindows::NewFilePopup);
    assert_eq!(
        controller.draw(),
        Screen::TextField {
            label: "New File".to_string(),
            text: String::new()
        }
    );
    type_text(&mut controller, "draft");
    controller.handle_events(press(KeyCode::Enter));
    assert_eq!(controller.current_state_index, AppWindows::Explorer);
    assert_eq!(controller.file_manager.take_requests(), vec![list_home()]);
    assert_eq!(controller.file_manager.current_dir(), "/home");
}

#[test]
fn controller_a_text_typed_after_the_delete_key_was_cancelled_deletes_nothing() {
    let mut controller = at_home();
    controller.handle_events(press(KeyCode::Char('y')));
    controller.handle_events(press(KeyCode::Char('x')));
    controller.handle_events(press(KeyCode::Esc));
    controller.handle_events(press(KeyCode::Char('n')));
    type_text(&mut controller, "y");
    controller.handle_events(press(KeyCode::Enter));
    let requests = controller.file_manager.take_requests();
    assert!(requests
        .iter()
        .all(|r| matches!(r, FsRequest::List { .. })));
}

#[test]
fn controller_draws_the_explorer_with_its_rows() {
    let mut controller = at_home();
    match controller.draw() {
        Screen::Explorer(screen) => {
            assert_eq!(screen.path, "/home");
            assert_eq!(screen.rows.len(), 2);
            assert_eq!(screen.cursor, Some(0));
        }
        other => panic!("drew {:?}", other),
    }
}
