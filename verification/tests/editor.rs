use iced_interaction::text_input::cursor::{Cursor, State};
use iced_interaction::text_input::editor::Editor;
use iced_interaction::text_input::value::Value;

#[test]
fn inserting_combining_mark_keeps_cursor_after_combined_grapheme() {
    let mut value = Value::new("");
    let mut cursor = Cursor::default();

    let mut editor = Editor::new(&mut value, &mut cursor);
    editor.insert("e");
    editor.insert("\u{301}");

    assert_eq!(editor.contents(), "e\u{301}");
    assert_eq!(value.len(), 1);
    assert_eq!(cursor.state(&value), State::Index(1));

    let mut editor = Editor::new(&mut value, &mut cursor);
    editor.backspace();

    assert_eq!(editor.contents(), "");
    assert_eq!(value.len(), 0);
    assert_eq!(cursor.state(&value), State::Index(0));
}

#[test]
fn inserting_zwj_emoji_keeps_cursor_after_grapheme() {
    let mut value = Value::new("");
    let mut cursor = Cursor::default();
    let emoji = "👨\u{200d}👩\u{200d}👧\u{200d}👦";

    let mut editor = Editor::new(&mut value, &mut cursor);
    editor.insert(emoji);

    assert_eq!(editor.contents(), emoji);
    assert_eq!(value.len(), 1);
    assert_eq!(cursor.state(&value), State::Index(1));

    let mut editor = Editor::new(&mut value, &mut cursor);
    editor.backspace();

    assert_eq!(editor.contents(), "");
    assert_eq!(value.len(), 0);
    assert_eq!(cursor.state(&value), State::Index(0));
}

#[test]
fn inserting_before_combining_mark_recomposes_next_grapheme() {
    let mut value = Value::new("\u{301}");
    let mut cursor = Cursor::default();

    let mut editor = Editor::new(&mut value, &mut cursor);
    editor.insert("e");

    assert_eq!(editor.contents(), "e\u{301}");
    assert_eq!(value.len(), 1);
    assert_eq!(cursor.state(&value), State::Index(1));
}

#[test]
fn value_splits_text_into_grapheme_clusters() {
    let value = Value::new("a\u{310}e\u{301}o\u{308}\u{332}");
    assert_eq!(value.len(), 3);
    assert_eq!(value.to_string(), "a\u{310}e\u{301}o\u{308}\u{332}");
    assert!(Value::new("").is_empty());
    assert_eq!(Value::new("abc").len(), 3);
}

#[test]
fn insert_many_at_returns_position_after_inserted_text() {
    let mut value = Value::new("ad");
    let position = value.insert_many_at(1, Value::new("bc"));
    assert_eq!(position, 3);
    assert_eq!(value.to_string(), "abcd");
    assert_eq!(value.len(), 4);
}

#[test]
fn remove_and_remove_many() {
    let mut value = Value::new("abcdef");
    value.remove(0);
    assert_eq!(value.to_string(), "bcdef");
    value.remove_many(1, 3);
    assert_eq!(value.to_string(), "bef");
}

#[test]
fn typing_replaces_the_selection() {
    let mut value = Value::new("hello world");
    let mut cursor = Cursor::default();
    cursor.select_range(11, 6);
    let mut editor = Editor::new(&mut value, &mut cursor);
    editor.insert("there");
    assert_eq!(editor.contents(), "hello there");
    assert_eq!(cursor.state(&value), State::Index(11));
}

#[test]
fn paste_inserts_at_cursor() {
    let mut value = Value::new("ac");
    let mut cursor = Cursor::default();
    cursor.move_to(1);
    let mut editor = Editor::new(&mut value, &mut cursor);
    editor.paste(Value::new("b"));
    assert_eq!(editor.contents(), "abc");
    assert_eq!(cursor.state(&value), State::Index(2));
}

#[test]
fn backspace_at_start_does_nothing() {
    let mut value = Value::new("abc");
    let mut cursor = Cursor::default();
    let mut editor = Editor::new(&mut value, &mut cursor);
    editor.backspace();
    assert_eq!(editor.contents(), "abc");
    assert_eq!(cursor.state(&value), State::Index(0));
}

#[test]
fn backspace_removes_the_selection() {
    let mut value = Value::new("abcdef");
    let mut cursor = Cursor::default();
    cursor.select_range(4, 1);
    let mut editor = Editor::new(&mut value, &mut cursor);
    editor.backspace();
    assert_eq!(editor.contents(), "aef");
    assert_eq!(cursor.state(&value), State::Index(1));
}

#[test]
fn delete_removes_the_cluster_after_the_cursor() {
    let mut value = Value::new("abc");
    let mut cursor = Cursor::default();
    cursor.move_to(1);
    let mut editor = Editor::new(&mut value, &mut cursor);
    editor.delete();
    assert_eq!(editor.contents(), "ac");
    assert_eq!(cursor.state(&value), State::Index(1));
    let mut editor = Editor::new(&mut value, &mut cursor);
    editor.delete();
    editor.delete();
    assert_eq!(editor.contents(), "a");
    assert_eq!(cursor.state(&value), State::Index(1));
}

#[test]
fn delete_removes_the_selection_like_backspace() {
    let mut value = Value::new("abcdef");
    let mut cursor = Cursor::default();
    cursor.select_range(2, 5);
    let mut editor = Editor::new(&mut value, &mut cursor);
    editor.delete();
    assert_eq!(editor.contents(), "abf");
    assert_eq!(cursor.state(&value), State::Index(2));
}

#[test]
fn cursor_is_clamped_to_the_value() {
    let value = Value::new("ab");
    let mut cursor = Cursor::default();
    cursor.move_to(9);
    assert_eq!(cursor.state(&value), State::Index(2));
    assert_eq!(cursor.start(&value), 2);
    cursor.select_range(1, 7);
    assert_eq!(cursor.state(&value), State::Selection { start: 1, end: 2 });
    assert_eq!(cursor.selection(&value), Some((1, 2)));
    assert_eq!(cursor.end(&value), 2);
    cursor.select_range(5, 7);
    assert_eq!(cursor.selection(&value), None);
    cursor.move_left(&value);
    assert_eq!(cursor.state(&value), State::Index(1));
}

#[test]
fn insert_splices_text_at_the_cursor() {
    let mut value = Value::new("ab");
    let mut cursor = Cursor::default();
    let mut editor = Editor::new(&mut value, &mut cursor);
    editor.insert("x");
    assert_eq!(editor.contents(), "xab");
    assert_eq!(cursor.state(&value), State::Index(1));
}
