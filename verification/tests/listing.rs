use file_explorer::entry::{arrange_entries, Entry, SortDir};

fn file(name: &str) -> Entry {
    Entry {
        name: name.to_string(),
        path: format!("/work/{}", name),
        size: 10,
        is_dir: false,
        readable: true,
    }
}

fn dir(name: &str) -> Entry {
    Entry {
        name: name.to_string(),
        path: format!("/work/{}", name),
        size: 0,
        is_dir: true,
        readable: true,
    }
}

fn names(entries: &[Entry]) -> Vec<String> {
    entries.iter().map(|e| e.name.clone()).collect()
}

fn mixed() -> Vec<Entry> {
    vec![
        file("b.txt"),
        dir("zoo"),
        file(".env"),
        dir(".git"),
        file("a.txt"),
        dir("apps"),
    ]
}

#[test]
fn listing_hides_dot_files_and_puts_directories_first() {
    let listing = vec![file("a.txt"), file(".hidden"), dir("subdir")];
    let shown = arrange_entries(&listing, false, SortDir::Start);
    assert_eq!(names(&shown), vec!["subdir", "a.txt"]);
}

#[test]
fn listing_unsorted_keeps_enumeration_order() {
    let shown = arrange_entries(&mixed(), true, SortDir::Unsorted);
    assert_eq!(
        names(&shown),
        vec!["b.txt", "zoo", ".env", ".git", "a.txt", "apps"]
    );
    assert_eq!(shown, mixed());
}

#[test]
fn listing_directories_first_is_a_stable_partition() {
    let shown = arrange_entries(&mixed(), true, SortDir::Start);
    assert_eq!(
        names(&shown),
        vec!["zoo", ".git", "apps", "b.txt", ".env", "a.txt"]
    );
}

#[test]
fn listing_directories_last_is_a_stable_partition() {
    let shown = arrange_entries(&mixed(), true, SortDir::End);
    assert_eq!(
        names(&shown),
        vec!["b.txt", ".env", "a.txt", "zoo", ".git", "apps"]
    );
}

#[test]
fn listing_every_directory_precedes_every_file_when_first() {
    let shown = arrange_entries(&mixed(), false, SortDir::Start);
    let first_file = shown.iter().position(|e| !e.is_dir).unwrap();
    assert!(shown[..first_file].iter().all(|e| e.is_dir));
    assert!(shown[first_file..].iter().all(|e| !e.is_dir));
    assert_eq!(names(&shown), vec!["zoo", "apps", "b.txt", "a.txt"]);
}

#[test]
fn listing_every_file_precedes_every_directory_when_last() {
    let shown = arrange_entries(&mixed(), false, SortDir::End);
    assert_eq!(names(&shown), vec!["b.txt", "a.txt", "zoo", "apps"]);
}

#[test]
fn listing_without_hidden_excludes_every_dot_name() {
    for sorting in [SortDir::Unsorted, SortDir::Start, SortDir::End] {
        let shown = arrange_entries(&mixed(), false, sorting);
        assert_eq!(shown.len(), 4);
        assert!(shown.iter().all(|e| !e.name.starts_with('.')));
    }
}

#[test]
fn listing_with_hidden_includes_everything() {
    for sorting in [SortDir::Unsorted, SortDir::Start, SortDir::End] {
        let shown = arrange_entries(&mixed(), true, sorting);
        assert_eq!(shown.len(), 6);
        for entry in mixed() {
            assert!(shown.contains(&entry));
        }
    }
}

#[test]
fn listing_of_nothing_is_empty() {
    for sorting in [SortDir::Unsorted, SortDir::Start, SortDir::End] {
        assert!(arrange_entries(&Vec::new(), false, sorting).is_empty());
    }
}

#[test]
fn listing_keeps_an_entry_with_an_empty_name() {
    let shown = arrange_entries(&vec![file("")], false, SortDir::Unsorted);
    assert_eq!(shown.len(), 1);
}

#[test]
fn listing_a_dot_inside_a_name_does_not_hide_it() {
    let shown = arrange_entries(&vec![file("a.b"), file("..")], false, SortDir::Unsorted);
    assert_eq!(names(&shown), vec!["a.b"]);
}

#[test]
fn listing_keeps_the_fields_of_each_entry() {
    let entry = Entry {
        name: "data.bin".to_string(),
        path: "/srv/data.bin".to_string(),
        size: 4096,
        is_dir: false,
        readable: false,
    };
    let shown = arrange_entries(&vec![entry.clone()], false, SortDir::End);
    assert_eq!(shown, vec![entry]);
}

#[test]
fn hidden_names_begin_with_a_dot() {
    assert!(file(".profile").is_hidden());
    assert!(dir(".config").is_hidden());
    assert!(!file("profile").is_hidden());
    assert!(!file("").is_hidden());
}

#[test]
fn sort_mode_cycles_through_three_modes() {
    assert_eq!(SortDir::Unsorted.next(), SortDir::Start);
    assert_eq!(SortDir::Start.next(), SortDir::End);
    assert_eq!(SortDir::End.next(), SortDir::Unsorted);
}
