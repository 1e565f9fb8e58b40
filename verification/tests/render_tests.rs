use konsole::{blank_row, chars_of, printout_text, string_from_chars};

#[test]
fn blank_rows() {
    assert_eq!(blank_row(0), "\r");
    assert_eq!(blank_row(3), "\r   ");
}

#[test]
fn printout_pads_and_ends_lines() {
    assert_eq!(printout_text("hi", 5), "\r     \rhi   \n");
    assert_eq!(printout_text("hi\n", 5), "\r     \rhi\n  ");
    assert_eq!(printout_text("toolong", 3), "\r   \rtoolong\n");
    assert_eq!(printout_text("", 2), "\r  \r  \n");
    assert_eq!(printout_text("é", 3), "\r   \ré  \n");
}

#[test]
fn char_conversions() {
    assert_eq!(string_from_chars(&['a', 'b', 'ç']), "abç");
    assert_eq!(chars_of("héllo"), vec!['h', 'é', 'l', 'l', 'o']);
    assert_eq!(string_from_chars(&[]), "");
}
