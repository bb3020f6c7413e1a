use file_explorer::string_ring_buffer::StringRingBuffer;

fn filled(capacity: usize, messages: &[&str]) -> StringRingBuffer {
    let mut buffer = StringRingBuffer::with_capacity(capacity);
    for message in messages {
        buffer.push(message.to_string());
    }
    buffer
}

#[test]
fn ring_buffer_starts_empty() {
    let buffer = StringRingBuffer::with_capacity(3);
    assert_eq!(buffer.len(), 0);
    assert_eq!(buffer.capacity(), 3);
    assert_eq!(buffer.to_string(), "");
}

#[test]
fn ring_buffer_keeps_messages_in_arrival_order() {
    let mut buffer = filled(3, &["one", "two"]);
    assert_eq!(buffer.len(), 2);
    assert_eq!(buffer.drain(), vec!["one".to_string(), "two".to_string()]);
}

#[test]
fn ring_buffer_keeps_messages_as_given() {
    let buffer = filled(3, &["disk full"]);
    assert_eq!(buffer.to_string(), "disk full");
}

#[test]
fn ring_buffer_evicts_the_oldest_when_full() {
    let mut buffer = filled(3, &["a", "b", "c", "d", "e"]);
    assert_eq!(buffer.len(), 3);
    assert_eq!(
        buffer.drain(),
        vec!["c".to_string(), "d".to_string(), "e".to_string()]
    );
}

#[test]
fn ring_buffer_holds_exactly_its_capacity_after_many_pushes() {
    let mut buffer = StringRingBuffer::with_capacity(20);
    for i in 0..57 {
        buffer.push(format!("error {}", i));
    }
    let expected: Vec<String> = (37..57).map(|i| format!("error {}", i)).collect();
    assert_eq!(buffer.len(), 20);
    assert_eq!(buffer.drain(), expected);
}

#[test]
fn ring_buffer_of_capacity_one_keeps_the_latest() {
    let mut buffer = filled(1, &["first", "second"]);
    assert_eq!(buffer.drain(), vec!["second".to_string()]);
}

#[test]
fn ring_buffer_of_capacity_zero_keeps_nothing() {
    let mut buffer = filled(0, &["lost", "lost too"]);
    assert_eq!(buffer.len(), 0);
    assert_eq!(buffer.capacity(), 0);
    assert!(buffer.drain().is_empty());
}

#[test]
fn ring_buffer_clear_forgets_everything_and_keeps_the_capacity() {
    let mut buffer = filled(2, &["a", "b"]);
    buffer.clear();
    assert_eq!(buffer.len(), 0);
    assert_eq!(buffer.capacity(), 2);
    buffer.push("c".to_string());
    assert_eq!(buffer.drain(), vec!["c".to_string()]);
}

#[test]
fn ring_buffer_drain_empties_the_buffer() {
    let mut buffer = filled(4, &["a", "b"]);
    assert_eq!(buffer.drain().len(), 2);
    assert_eq!(buffer.len(), 0);
    assert!(buffer.drain().is_empty());
}

#[test]
fn ring_buffer_to_string_joins_with_newlines() {
    let buffer = filled(3, &["first", "second", "third"]);
    assert_eq!(buffer.to_string(), "first\nsecond\nthird");
    assert_eq!(buffer.len(), 3);
}

#[test]
fn ring_buffer_to_string_shows_only_what_is_kept() {
    let buffer = filled(2, &["first", "second", "third"]);
    assert_eq!(buffer.to_string(), "second\nthird");
}
