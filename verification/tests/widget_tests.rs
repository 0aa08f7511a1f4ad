use gpm::keys::InputKey;
use gpm::multi_input::MultiInputState;

fn two_fields() -> MultiInputState {
    MultiInputState::new(
        " Title ".to_string(),
        vec!["first".to_string(), "second".to_string()],
    )
}

fn type_text(s: &mut MultiInputState, text: &str) {
    for c in text.chars() {
        assert!(!s.handle_event(&InputKey::Char(c)));
    }
}

#[test]
fn typing_fills_the_focused_field() {
    let mut s = two_fields();
    assert_eq!(s.field_count(), 2);
    type_text(&mut s, "hello");
    assert_eq!(s.get_content_at(0), "hello");
    assert_eq!(s.get_content_at(1), "");
}

#[test]
fn tab_rotates_focus_and_keeps_contents() {
    let mut s = two_fields();
    type_text(&mut s, "one");
    assert!(!s.handle_event(&InputKey::Tab));
    assert_eq!(s.focused(), 1);
    type_text(&mut s, "two");
    // no data loss on tab
    assert_eq!(s.get_content_at(0), "one");
    assert_eq!(s.get_content_at(1), "two");
    assert!(!s.handle_event(&InputKey::Tab));
    assert_eq!(s.focused(), 0);
}

#[test]
fn backspace_deletes_before_the_cursor() {
    let mut s = two_fields();
    type_text(&mut s, "abc");
    assert!(!s.handle_event(&InputKey::Backspace));
    assert_eq!(s.get_content_at(0), "ab");
    // at the start nothing happens
    assert!(!s.handle_event(&InputKey::Home));
    assert!(!s.handle_event(&InputKey::Backspace));
    assert_eq!(s.get_content_at(0), "ab");
}

#[test]
fn cursor_movement_and_mid_insertion() {
    let mut s = two_fields();
    type_text(&mut s, "ac");
    assert!(!s.handle_event(&InputKey::Left));
    type_text(&mut s, "b");
    assert_eq!(s.get_content_at(0), "abc");
    assert!(!s.handle_event(&InputKey::End));
    type_text(&mut s, "d");
    assert_eq!(s.get_content_at(0), "abcd");
    assert!(!s.handle_event(&InputKey::Home));
    type_text(&mut s, "z");
    assert_eq!(s.get_content_at(0), "zabcd");
    assert!(!s.handle_event(&InputKey::Right));
    assert_eq!(s.cursor_at(0), 2);
}

#[test]
fn escape_and_enter_close_the_widget() {
    let mut s = two_fields();
    type_text(&mut s, "kept");
    assert!(s.handle_event(&InputKey::Esc));
    assert!(s.handle_event(&InputKey::Enter));
    assert_eq!(s.get_content_at(0), "kept");
}

#[test]
fn single_field_tab_is_a_no_op() {
    let mut s = MultiInputState::new("t".to_string(), vec!["only".to_string()]);
    s.next_box();
    assert_eq!(s.focused(), 0);
}
