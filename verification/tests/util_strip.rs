use traccia::strip_ansi_codes;

#[test]
fn strip_removes_color_codes() {
    assert_eq!(strip_ansi_codes("\x1b[31mred\x1b[0m"), "red");
    assert_eq!(strip_ansi_codes("\x1b[38;5;200mwide\x1b[0m"), "wide");
    assert_eq!(
        strip_ansi_codes("a \x1b[1mbold\x1b[0m and \x1b[4munderlined\x1b[0m b"),
        "a bold and underlined b"
    );
}

#[test]
fn strip_leaves_plain_text_unchanged() {
    assert_eq!(strip_ansi_codes(""), "");
    assert_eq!(strip_ansi_codes("no codes here"), "no codes here");
    assert_eq!(strip_ansi_codes("brackets [still] stay"), "brackets [still] stay");
}

#[test]
fn strip_drops_unterminated_escape() {
    assert_eq!(strip_ansi_codes("tail\x1b[31"), "tail");
}

#[test]
fn stripped_text_has_no_escape_characters() {
    let stripped = strip_ansi_codes("\x1b[31ma\x1b[0m\x1b[44mb\x1b[0m");
    assert!(!stripped.contains('\x1b'));
    assert_eq!(stripped, "ab");
}
