use ledger_cli::editor::{to_raw_mode_text, InputEvent, Key, LineEditor};
use ledger_cli::store::{FileStore, CURRENT_VERSION};
use ledger_cli::text::{eq_ignore_ascii_case, is_whitespace, to_ascii_lowercase, trim_whitespace};

fn type_text(editor: &mut LineEditor, text: &str) {
    for c in text.chars() {
        assert!(editor.handle_key(Some(Key::Char(c))).is_none());
    }
}

#[test]
fn enter_submits_trimmed_line_and_clears() {
    let mut editor = LineEditor::new();
    type_text(&mut editor, "  account --list \t");
    assert_eq!(editor.input_buffer(), "  account --list \t");
    match editor.handle_key(Some(Key::Char('\n'))) {
        Some(InputEvent::Text(t)) => assert_eq!(t, "account --list"),
        _ => panic!("expected a submitted line"),
    }
    assert_eq!(editor.input_buffer(), "");
}

#[test]
fn backspace_removes_last_character() {
    let mut editor = LineEditor::new();
    type_text(&mut editor, "ab€");
    assert!(editor.handle_key(Some(Key::Backspace)).is_none());
    assert_eq!(editor.input_buffer(), "ab");
    editor.handle_key(Some(Key::Backspace));
    editor.handle_key(Some(Key::Backspace));
    editor.handle_key(Some(Key::Backspace));
    assert_eq!(editor.input_buffer(), "");
}

#[test]
fn arrows_and_interrupts_are_reported() {
    let mut editor = LineEditor::new();
    type_text(&mut editor, "x");
    assert!(matches!(editor.handle_key(Some(Key::Up)), Some(InputEvent::ArrowUp)));
    assert!(matches!(editor.handle_key(Some(Key::Down)), Some(InputEvent::ArrowDown)));
    assert!(matches!(editor.handle_key(Some(Key::Ctrl('c'))), Some(InputEvent::Interrupt)));
    assert!(matches!(editor.handle_key(None), Some(InputEvent::Interrupt)));
    assert!(editor.handle_key(Some(Key::Ctrl('d'))).is_none());
    assert!(editor.handle_key(Some(Key::Other)).is_none());
    assert_eq!(editor.input_buffer(), "x");
}

#[test]
fn set_input_buffer_replaces_line() {
    let mut editor = LineEditor::new();
    type_text(&mut editor, "old");
    editor.set_input_buffer("recalled".to_string());
    assert_eq!(editor.input_buffer(), "recalled");
}

#[test]
fn raw_mode_text_adds_carriage_returns() {
    assert_eq!(to_raw_mode_text("a\nb\n"), "a\r\nb\r\n");
    assert_eq!(to_raw_mode_text("plain"), "plain");
    assert_eq!(to_raw_mode_text(""), "");
}

#[test]
fn text_helpers() {
    for c in ['\t', '\n', '\r', ' ', '\u{85}', '\u{a0}', '\u{1680}', '\u{2000}', '\u{200a}', '\u{2028}', '\u{2029}', '\u{202f}', '\u{205f}', '\u{3000}'] {
        assert!(is_whitespace(c));
        assert_eq!(is_whitespace(c), c.is_whitespace());
    }
    for c in ['x', '\\', '"', '\'', '\u{200b}', '\u{180e}', '\u{feff}'] {
        assert!(!is_whitespace(c));
        assert_eq!(is_whitespace(c), c.is_whitespace());
    }
    assert_eq!(trim_whitespace("\u{a0} a b \n"), "a b");
    assert_eq!(trim_whitespace("   "), "");
    assert_eq!(to_ascii_lowercase("FoOd É"), "food É");
    assert!(eq_ignore_ascii_case("HeLP", "help"));
    assert!(!eq_ignore_ascii_case("help", "helps"));
    assert!(!eq_ignore_ascii_case("É", "é"));
}

#[test]
fn new_file_store() {
    let file_store = FileStore::new("foo");
    assert_eq!(file_store.root_path(), "foo")
}

#[test]
fn version_check() {
    assert!(FileStore::check_version(CURRENT_VERSION).is_ok());
    assert_eq!(FileStore::check_version(7), Err("Version mismatch, cannot load file".to_string()));
}
