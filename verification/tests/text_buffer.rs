use term_picker::text::TextBuffer;

#[test]
fn new_buffer_is_empty() {
    let buffer = TextBuffer::new();
    assert_eq!(buffer.as_str(), "");
}

#[test]
fn push_appends_at_the_end() {
    let mut buffer = TextBuffer::new();
    buffer.push('a');
    assert_eq!(buffer.as_str(), "a");
    buffer.push('b');
    assert_eq!(buffer.as_str(), "ab");
}

#[test]
fn pop_removes_and_returns_the_last_character() {
    let mut buffer = TextBuffer::new();
    buffer.push('a');
    buffer.push('b');
    assert_eq!(buffer.pop(), Some('b'));
    assert_eq!(buffer.as_str(), "a");
    assert_eq!(buffer.pop(), Some('a'));
    assert_eq!(buffer.as_str(), "");
}

#[test]
fn pop_on_empty_buffer_does_nothing() {
    let mut buffer = TextBuffer::new();
    assert_eq!(buffer.pop(), None);
    assert_eq!(buffer.as_str(), "");
    assert_eq!(buffer.pop(), None);
    assert_eq!(buffer.as_str(), "");
}

#[test]
fn as_many_pops_as_pushes_empty_the_buffer() {
    let typed = "archive-2024_é.zip";
    let mut buffer = TextBuffer::new();
    for c in typed.chars() {
        buffer.push(c);
    }
    assert_eq!(buffer.as_str(), typed);
    for _ in typed.chars() {
        buffer.pop();
    }
    assert_eq!(buffer.as_str(), "");
}

#[test]
fn pops_after_pushes_restore_earlier_text() {
    let mut buffer = TextBuffer::new();
    for c in "out".chars() {
        buffer.push(c);
    }
    for c in "put.zip".chars() {
        buffer.push(c);
    }
    for _ in 0..7 {
        buffer.pop();
    }
    assert_eq!(buffer.as_str(), "out");
}

#[test]
fn more_pops_than_characters_leave_buffer_empty() {
    let mut buffer = TextBuffer::new();
    buffer.push('x');
    buffer.pop();
    buffer.pop();
    buffer.pop();
    assert_eq!(buffer.as_str(), "");
    buffer.push('y');
    assert_eq!(buffer.as_str(), "y");
}

#[test]
fn pop_removes_a_whole_character_of_several_bytes() {
    let mut buffer = TextBuffer::new();
    buffer.push('n');
    buffer.push('ñ');
    assert_eq!(buffer.pop(), Some('ñ'));
    assert_eq!(buffer.as_str(), "n");
}

#[test]
fn typing_myout_then_backspaces() {
    let mut buffer = TextBuffer::new();
    for c in "myout".chars() {
        buffer.push(c);
    }
    buffer.pop();
    buffer.pop();
    assert_eq!(buffer.as_str(), "myo");
    buffer.pop();
    assert_eq!(buffer.as_str(), "my");
}
