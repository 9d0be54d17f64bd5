use gb_core::input::Button;
use gb_core::server::parse_button;

#[test]
fn test_parse_button_all_valid_names() {
    for (name, expected) in [
        ("a",      Button::A),
        ("b",      Button::B),
        ("start",  Button::Start),
        ("select", Button::Select),
        ("up",     Button::Up),
        ("down",   Button::Down),
        ("left",   Button::Left),
        ("right",  Button::Right),
    ] {
        assert_eq!(parse_button(name), Some(expected), "Failed for '{}'", name);
    }
}

#[test]
fn test_parse_button_case_insensitive() {
    assert_eq!(parse_button("A"),     Some(Button::A));
    assert_eq!(parse_button("START"), Some(Button::Start));
    assert_eq!(parse_button("Up"),    Some(Button::Up));
}

#[test]
fn test_parse_button_invalid_returns_none() {
    assert_eq!(parse_button("turbo"),  None);
    assert_eq!(parse_button(""),       None);
    assert_eq!(parse_button("select2"),None);
}
