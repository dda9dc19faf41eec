use pages::text_tool::{TextEvent, TextTool};

#[test]
fn typed_text_is_appended_and_echoed() {
    let mut t = TextTool::new();
    assert_eq!(t.text(), "");
    assert!(t.handle_event(&TextEvent::TextInput("ab".to_string())));
    assert!(t.handle_event(&TextEvent::TextInput("cé".to_string())));
    assert_eq!(t.text(), "abcé");
}

#[test]
fn backspace_removes_last_character() {
    let mut t = TextTool::new();
    t.handle_event(&TextEvent::TextInput("xyé".to_string()));
    assert!(t.handle_event(&TextEvent::Backspace));
    assert_eq!(t.text(), "xy");
}

#[test]
fn backspace_on_empty_text_does_nothing() {
    let mut t = TextTool::new();
    assert!(!t.handle_event(&TextEvent::Backspace));
    assert_eq!(t.text(), "");
}

#[test]
fn return_appends_newline_without_echo() {
    let mut t = TextTool::new();
    t.handle_event(&TextEvent::TextInput("a".to_string()));
    assert!(!t.handle_event(&TextEvent::Return));
    assert!(!t.handle_event(&TextEvent::Other));
    assert_eq!(t.text(), "a\n");
}

#[test]
fn paste_only_while_input_is_active() {
    let mut t = TextTool::new();
    t.paste(false, "lost".to_string());
    assert_eq!(t.text(), "");
    t.paste(true, "kept".to_string());
    t.paste(true, "!".to_string());
    assert_eq!(t.text(), "kept!");
}
