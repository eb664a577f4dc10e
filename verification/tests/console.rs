use bl602_app::console::{labelled, null_terminated, Line, CAPACITY, GREETING};
use bl602_app::Fatal;

#[test]
fn greeting_gets_its_terminator() {
    let line = null_terminated(GREETING).unwrap();
    assert_eq!(line.as_str(), "Hello from Rust!\0");
    assert_eq!(line.len(), 17);
}

#[test]
fn empty_message_is_only_the_terminator() {
    let line = null_terminated("").unwrap();
    assert_eq!(line.as_str(), "\0");
}

#[test]
fn message_of_63_bytes_fits() {
    let message = "a".repeat(63);
    let line = null_terminated(&message).unwrap();
    assert_eq!(line.len(), CAPACITY);
    assert_eq!(line.as_str(), format!("{}\0", message));
}

#[test]
fn message_of_64_bytes_leaves_no_room_for_the_terminator() {
    let message = "b".repeat(64);
    assert_eq!(null_terminated(&message).unwrap_err(), Fatal::PutsOverflow);
}

#[test]
fn message_of_65_bytes_cannot_be_taken_over() {
    let message = "c".repeat(65);
    assert_eq!(null_terminated(&message).unwrap_err(), Fatal::PutsConversion);
    let long = "d".repeat(1000);
    assert_eq!(null_terminated(&long).unwrap_err(), Fatal::PutsConversion);
}

#[test]
fn message_length_counts_bytes_not_characters() {
    // 21 characters of three bytes each: 63 bytes.
    let fits = "\u{20ac}".repeat(21);
    assert_eq!(fits.chars().count(), 21);
    assert_eq!(null_terminated(&fits).unwrap().len(), 64);
    // 32 characters of two bytes each: 64 bytes.
    let full = "\u{e9}".repeat(32);
    assert_eq!(null_terminated(&full).unwrap_err(), Fatal::PutsOverflow);
    // 22 characters of three bytes each: 66 bytes.
    let over = "\u{20ac}".repeat(22);
    assert_eq!(null_terminated(&over).unwrap_err(), Fatal::PutsConversion);
}

#[test]
fn new_line_is_empty() {
    let line = Line::new();
    assert_eq!(line.as_str(), "");
    assert_eq!(line.len(), 0);
}

#[test]
fn push_str_appends() {
    let mut line = Line::new();
    assert_eq!(line.push_str("foo"), Ok(()));
    assert_eq!(line.push_str("bar"), Ok(()));
    assert_eq!(line.as_str(), "foobar");
}

#[test]
fn push_str_that_does_not_fit_leaves_the_line_as_it_was() {
    let mut line = Line::new();
    assert_eq!(line.push_str(&"x".repeat(60)), Ok(()));
    assert_eq!(line.push_str("12345"), Err(Fatal::BufferOverflow));
    assert_eq!(line.as_str(), "x".repeat(60));
    assert_eq!(line.push_str("1234"), Ok(()));
    assert_eq!(line.len(), 64);
    assert_eq!(line.push_str(""), Ok(()));
    assert_eq!(line.push_str("5"), Err(Fatal::BufferOverflow));
}

#[test]
fn push_appends_one_character() {
    let mut line = Line::new();
    assert_eq!(line.push('a'), Ok(()));
    assert_eq!(line.push('\u{20ac}'), Ok(()));
    assert_eq!(line.as_str(), "a\u{20ac}");
    assert_eq!(line.len(), 4);
}

#[test]
fn push_that_does_not_fit_leaves_the_line_as_it_was() {
    let mut line = Line::new();
    assert_eq!(line.push_str(&"y".repeat(62)), Ok(()));
    assert_eq!(line.push('\u{20ac}'), Err(Fatal::BufferOverflow));
    assert_eq!(line.len(), 62);
    assert_eq!(line.push('\u{e9}'), Ok(()));
    assert_eq!(line.len(), 64);
    assert_eq!(line.push('z'), Err(Fatal::BufferOverflow));
    assert_eq!(line.as_str(), format!("{}\u{e9}", "y".repeat(62)));
}

#[test]
fn push_decimal_writes_digits_most_significant_first() {
    let mut line = Line::new();
    assert_eq!(line.push_decimal(0), Ok(()));
    assert_eq!(line.push(' '), Ok(()));
    assert_eq!(line.push_decimal(7), Ok(()));
    assert_eq!(line.push(' '), Ok(()));
    assert_eq!(line.push_decimal(10), Ok(()));
    assert_eq!(line.push(' '), Ok(()));
    assert_eq!(line.push_decimal(1599), Ok(()));
    assert_eq!(line.push(' '), Ok(()));
    assert_eq!(line.push_decimal(4_294_967_295), Ok(()));
    assert_eq!(line.as_str(), "0 7 10 1599 4294967295");
}

#[test]
fn push_decimal_writes_a_sign_for_negative_values() {
    let mut line = Line::new();
    assert_eq!(line.push_decimal(-1), Ok(()));
    assert_eq!(line.push(' '), Ok(()));
    assert_eq!(line.push_decimal(-42), Ok(()));
    assert_eq!(line.as_str(), "-1 -42");
}

#[test]
fn push_decimal_takes_the_ends_of_the_range() {
    let mut line = Line::new();
    assert_eq!(line.push_decimal(i64::MAX), Ok(()));
    assert_eq!(line.push(' '), Ok(()));
    assert_eq!(line.push_decimal(i64::MIN), Ok(()));
    assert_eq!(line.as_str(), "9223372036854775807 -9223372036854775808");
    assert_eq!(line.as_str(), format!("{} {}", i64::MAX, i64::MIN));
}

#[test]
fn push_decimal_that_does_not_fit_leaves_the_line_as_it_was() {
    let mut line = Line::new();
    assert_eq!(line.push_str(&"p".repeat(61)), Ok(()));
    assert_eq!(line.push_decimal(1000), Err(Fatal::BufferOverflow));
    assert_eq!(line.push_decimal(-100), Err(Fatal::BufferOverflow));
    assert_eq!(line.as_str(), "p".repeat(61));
    assert_eq!(line.push_decimal(-1), Ok(()));
    assert_eq!(line.push_decimal(10), Err(Fatal::BufferOverflow));
    assert_eq!(line.push_decimal(5), Ok(()));
    assert_eq!(line.len(), 64);
    assert_eq!(line.push_decimal(0), Err(Fatal::BufferOverflow));
    assert_eq!(line.as_str(), format!("{}-15", "p".repeat(61)));
}

#[test]
fn labelled_line_is_label_and_number() {
    assert_eq!(labelled("[Rust] Average: ", 1599).unwrap().as_str(), "[Rust] Average: 1599");
    assert_eq!(labelled("", 0).unwrap().as_str(), "0");
    assert_eq!(labelled("n = ", -5).unwrap().as_str(), "n = -5");
}

#[test]
fn labelled_line_agrees_with_format() {
    for value in [0i64, 9, 10, 99, 100, 3199, 65535, -1, -10, 1 << 40, i64::MAX, i64::MIN] {
        let line = labelled("v=", value).unwrap();
        assert_eq!(line.as_str(), format!("v={}", value));
    }
}

#[test]
fn labelled_line_overflows_with_its_own_failure() {
    let label = "q".repeat(62);
    assert_eq!(labelled(&label, 12).unwrap().len(), 64);
    assert_eq!(labelled(&label, 123).unwrap_err(), Fatal::BufferOverflow);
    assert_eq!(labelled(&label, -1).unwrap().len(), 64);
    assert_eq!(labelled(&label, -12).unwrap_err(), Fatal::BufferOverflow);
    let long = "r".repeat(65);
    assert_eq!(labelled(&long, 1).unwrap_err(), Fatal::BufferOverflow);
    assert_ne!(Fatal::BufferOverflow, Fatal::PutsOverflow);
    assert_ne!(Fatal::BufferOverflow, Fatal::PutsConversion);
}
