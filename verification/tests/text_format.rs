use todo_tui::text::{list_line, string_of_chars, usize_to_string};

#[test]
fn decimal_of_small_numbers() {
    assert_eq!(usize_to_string(0), "0");
    assert_eq!(usize_to_string(7), "7");
    assert_eq!(usize_to_string(9), "9");
}

#[test]
fn decimal_of_larger_numbers() {
    assert_eq!(usize_to_string(10), "10");
    assert_eq!(usize_to_string(42), "42");
    assert_eq!(usize_to_string(100), "100");
    assert_eq!(usize_to_string(12345), "12345");
}

#[test]
fn string_of_chars_keeps_every_character() {
    assert_eq!(string_of_chars(&vec![]), "");
    assert_eq!(string_of_chars(&vec!['a']), "a");
    assert_eq!(string_of_chars(&vec!['m', 'i', 'l', 'k']), "milk");
}

#[test]
fn list_line_joins_position_and_text() {
    assert_eq!(list_line(0, &"a".to_string()), "0: a");
    assert_eq!(list_line(3, &"buy milk".to_string()), "3: buy milk");
    assert_eq!(list_line(12, &"".to_string()), "12: ");
}
