use traccia::Color;
use traccia::Colorize;
use traccia::Style;

#[test]
fn color_wraps_text_in_escape_codes() {
    assert_eq!("Warning".color(Color::Yellow), "\x1b[33mWarning\x1b[0m");
    let message = String::from("Error occurred");
    assert_eq!(message.color(Color::Red), "\x1b[31mError occurred\x1b[0m");
}

#[test]
fn background_wraps_text_in_escape_codes() {
    assert_eq!("note".background(Color::Blue), "\x1b[44mnote\x1b[0m");
    let s = String::from("note");
    assert_eq!(s.background(Color::BrightWhite), "\x1b[107mnote\x1b[0m");
}

#[test]
fn foreground_codes_match_ansi_table() {
    assert_eq!(Color::Black.ansi_code_foreground(), "\x1b[30m");
    assert_eq!(Color::Red.ansi_code_foreground(), "\x1b[31m");
    assert_eq!(Color::Green.ansi_code_foreground(), "\x1b[32m");
    assert_eq!(Color::Yellow.ansi_code_foreground(), "\x1b[33m");
    assert_eq!(Color::Blue.ansi_code_foreground(), "\x1b[34m");
    assert_eq!(Color::Magenta.ansi_code_foreground(), "\x1b[35m");
    assert_eq!(Color::Cyan.ansi_code_foreground(), "\x1b[36m");
    assert_eq!(Color::White.ansi_code_foreground(), "\x1b[37m");
    assert_eq!(Color::Default.ansi_code_foreground(), "\x1b[39m");
    assert_eq!(Color::BrightBlack.ansi_code_foreground(), "\x1b[90m");
    assert_eq!(Color::BrightRed.ansi_code_foreground(), "\x1b[91m");
    assert_eq!(Color::BrightWhite.ansi_code_foreground(), "\x1b[97m");
}

#[test]
fn background_codes_match_ansi_table() {
    assert_eq!(Color::Black.ansi_code_background(), "\x1b[40m");
    assert_eq!(Color::White.ansi_code_background(), "\x1b[47m");
    assert_eq!(Color::Default.ansi_code_background(), "\x1b[49m");
    assert_eq!(Color::BrightBlack.ansi_code_background(), "\x1b[100m");
    assert_eq!(Color::BrightWhite.ansi_code_background(), "\x1b[107m");
}

#[test]
fn palette_and_rgb_codes_render_decimals() {
    assert_eq!(Color::ID(0).ansi_code_foreground(), "\x1b[38;5;0m");
    assert_eq!(Color::ID(7).ansi_code_foreground(), "\x1b[38;5;7m");
    assert_eq!(Color::ID(42).ansi_code_foreground(), "\x1b[38;5;42m");
    assert_eq!(Color::ID(255).ansi_code_foreground(), "\x1b[38;5;255m");
    assert_eq!(Color::ID(200).ansi_code_background(), "\x1b[48;5;200m");
    assert_eq!(
        Color::RGB(1, 22, 255).ansi_code_foreground(),
        "\x1b[38;2;1;22;255m"
    );
    assert_eq!(
        Color::RGB(0, 100, 10).ansi_code_background(),
        "\x1b[48;2;0;100;10m"
    );
}

#[test]
fn ansi_code_is_the_foreground_code() {
    assert_eq!(Color::Cyan.ansi_code(), "\x1b[36m");
    assert_eq!(Color::ID(9).ansi_code(), "\x1b[38;5;9m");
}

#[test]
fn styles_wrap_text_in_escape_codes() {
    assert_eq!("x".bold(), "\x1b[1mx\x1b[0m");
    assert_eq!("x".dim(), "\x1b[2mx\x1b[0m");
    assert_eq!("x".italic(), "\x1b[3mx\x1b[0m");
    assert_eq!("x".underline(), "\x1b[4mx\x1b[0m");
    assert_eq!("x".blink(), "\x1b[5mx\x1b[0m");
    assert_eq!("x".reverse(), "\x1b[7mx\x1b[0m");
    assert_eq!("x".hidden(), "\x1b[8mx\x1b[0m");
    assert_eq!("x".striketrough(), "\x1b[9mx\x1b[0m");
    let owned = String::from("y");
    assert_eq!(owned.bold(), "\x1b[1my\x1b[0m");
}
