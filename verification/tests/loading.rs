use levorg::app::App;
use levorg::text::{line_text, load, push_line, serialize};
use std::path::PathBuf;

fn texts(buffer: &[Vec<char>]) -> Vec<String> {
    buffer.iter().map(|line| line.iter().collect()).collect()
}

fn buffer(lines: &[&str]) -> Vec<Vec<char>> {
    lines.iter().map(|line| line.chars().collect()).collect()
}

#[test]
fn load_splits_at_line_feeds() {
    assert_eq!(texts(&load("x\ny\n")), vec!["x", "y"]);
    assert_eq!(texts(&load("x\ny")), vec!["x", "y"]);
    assert_eq!(texts(&load("one line")), vec!["one line"]);
}

#[test]
fn load_then_serialize_adds_no_trailing_line_feed() {
    let buffer = load("x\ny\n");
    assert_eq!(texts(&buffer), vec!["x", "y"]);
    assert_eq!(serialize(&buffer), "x\ny");
}

#[test]
fn load_of_nothing_is_one_empty_line() {
    assert_eq!(texts(&load("")), vec![""]);
    assert_eq!(texts(&load("\n")), vec![""]);
}

#[test]
fn load_keeps_empty_lines() {
    assert_eq!(texts(&load("x\n\n")), vec!["x", ""]);
    assert_eq!(texts(&load("\n\nx")), vec!["", "", "x"]);
    assert_eq!(texts(&load("\n\n")), vec!["", ""]);
}

#[test]
fn load_takes_carriage_return_line_feed_as_one_terminator() {
    assert_eq!(texts(&load("a\r\nb\r\n")), vec!["a", "b"]);
    assert_eq!(texts(&load("a\r\n\r\nb")), vec!["a", "", "b"]);
    assert_eq!(texts(&load("\r\n")), vec![""]);
}

#[test]
fn load_keeps_a_carriage_return_that_ends_no_line() {
    assert_eq!(texts(&load("a\rb\nc\r")), vec!["a\rb", "c\r"]);
    assert_eq!(texts(&load("a\r\r\nb")), vec!["a\r", "b"]);
}

#[test]
fn load_agrees_with_the_lines_of_the_standard_library() {
    let samples = [
        "x", "x\n", "\nx", "x\r\ny", "\r", "\r\r\n", "a\n\r\nb\n", "é\nü\r\n", "\n\n\n", "a\r",
    ];
    for text in samples {
        let expected: Vec<String> = text.lines().map(|line| line.to_string()).collect();
        assert_eq!(texts(&load(text)), expected);
    }
}

#[test]
fn load_counts_characters_not_bytes() {
    let buffer = load("héllo\nwörld");
    assert_eq!(buffer[0].len(), 5);
    assert_eq!(buffer[1].len(), 5);
}

#[test]
fn serialize_joins_with_single_line_feeds() {
    assert_eq!(serialize(&buffer(&["x", "y"])), "x\ny");
    assert_eq!(serialize(&buffer(&["x", "", "y", ""])), "x\n\ny\n");
    assert_eq!(serialize(&buffer(&["only"])), "only");
    assert_eq!(serialize(&buffer(&[""])), "");
    assert_eq!(serialize(&buffer(&["", ""])), "\n");
    assert_eq!(serialize(&buffer(&[])), "");
}

#[test]
fn line_text_holds_the_characters_of_the_line() {
    assert_eq!(line_text(&vec!['h', 'é', '!']), "hé!");
    assert_eq!(line_text(&Vec::new()), "");
}

#[test]
fn load_content_opens_the_text_that_was_read() {
    let mut app = App::new(PathBuf::from("notes.txt"));
    app.load_content(Ok("x\ny\n".to_string()));
    assert_eq!(app.content, "x\ny\n");
    assert_eq!(texts(&app.buffer), vec!["x", "y"]);
    assert_eq!(app.serialize(), "x\ny");
    assert!(!app.dirty);
    assert_eq!(app.path, PathBuf::from("notes.txt"));
}

#[test]
fn load_content_opens_the_reason_when_reading_failed() {
    let mut app = App::new(PathBuf::from("does_not_exist.txt"));
    app.load_content(Err("Can't read file does_not_exist.txt".to_string()));
    assert_eq!(app.content, "Error: Can't read file does_not_exist.txt");
    assert_eq!(texts(&app.buffer), vec!["Error: Can't read file does_not_exist.txt"]);
    assert!(!app.dirty);
}

#[test]
fn load_content_of_an_empty_file_leaves_a_line_to_type_on() {
    let mut app = App::new(PathBuf::from("empty.txt"));
    app.load_content(Ok(String::new()));
    assert_eq!(texts(&app.buffer), vec![""]);
    assert_eq!((app.cursor_row, app.cursor_col), (0, 0));
}

#[test]
fn load_content_puts_cursor_and_viewport_back() {
    let mut app = App::new(PathBuf::from("notes.txt"));
    app.load_content(Ok("a\nb\nc\nd".to_string()));
    app.cursor_row = 3;
    app.cursor_col = 1;
    app.scroll_row = 2;
    app.dirty = true;
    app.load_content(Ok("z".to_string()));
    assert_eq!((app.cursor_row, app.cursor_col), (0, 0));
    assert_eq!((app.scroll_row, app.scroll_col), (0, 0));
    assert!(!app.dirty);
    assert_eq!(texts(&app.buffer), vec!["z"]);
}

#[test]
fn push_line_appends_the_characters_of_the_line() {
    let mut text = String::from("ab");
    push_line(&mut text, &vec!['c', 'é']);
    assert_eq!(text, "abcé");
    push_line(&mut text, &Vec::new());
    assert_eq!(text, "abcé");
}
