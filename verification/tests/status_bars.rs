use serial_term::ansi::{push_decimal, SetMargin};
use serial_term::status::{compose, render_bar_line, Position, Statusbar, TermSize};

#[test]
fn compose_pads_between_left_and_right() {
    let line = compose(20, "hi", "bye").unwrap();
    assert_eq!(line, format!("hi{}bye", " ".repeat(15)));
    assert_eq!(line.chars().count(), 20);
}

#[test]
fn compose_uses_display_width_not_byte_count() {
    // The ideograph is three bytes but two columns wide; the accented e is
    // two bytes but one column wide.
    let line = compose(10, "\u{65e5}", "x").unwrap();
    assert_eq!(line, format!("\u{65e5}{}x", " ".repeat(7)));
    let line = compose(10, "h\u{e9}", "x").unwrap();
    assert_eq!(line, format!("h\u{e9}{}x", " ".repeat(7)));
}

#[test]
fn compose_rejects_texts_wider_than_the_bar() {
    assert_eq!(compose(4, "hi", "bye"), None);
    assert_eq!(compose(0, "", "x"), None);
    // An exact fit leaves no padding but succeeds.
    assert_eq!(compose(5, "hi", "bye").unwrap(), "hibye");
}

#[test]
fn compose_of_empty_texts_is_all_spaces() {
    assert_eq!(compose(3, "", "").unwrap(), "   ");
}

#[test]
fn set_margin_bytes_are_exact() {
    assert_eq!(SetMargin(2, 23).ansi_bytes(), b"\x1b[2;23r".to_vec());
    assert_eq!(SetMargin(1, 9).ansi_bytes(), b"\x1b[1;9r".to_vec());
}

#[test]
fn push_decimal_writes_all_digits() {
    let mut out = Vec::new();
    push_decimal(&mut out, 0);
    push_decimal(&mut out, 7);
    push_decimal(&mut out, 65535);
    assert_eq!(out, b"0765535".to_vec());
}

#[test]
fn bar_line_render_is_byte_exact() {
    let out = render_bar_line(24, "hi");
    assert_eq!(out, b"\x1b7\x1b[24;1H\x1b[44m\x1b[37mhi\x1b[0m\x1b8".to_vec());
}

#[test]
fn statusbar_renders_on_its_fixed_row() {
    let size = TermSize(12, 5);
    let top = Statusbar::top(size, "ab".to_string(), "cd".to_string());
    let expected_line = format!("ab{}cd", " ".repeat(8));
    let expected = format!("\x1b7\x1b[1;1H\x1b[44m\x1b[37m{}\x1b[0m\x1b8", expected_line);
    assert_eq!(top.render().unwrap(), expected.as_bytes().to_vec());

    let bottom = Statusbar::bottom(size, "ab".to_string(), "cd".to_string());
    let expected = format!("\x1b7\x1b[5;1H\x1b[44m\x1b[37m{}\x1b[0m\x1b8", expected_line);
    assert_eq!(bottom.render().unwrap(), expected.as_bytes().to_vec());
}

#[test]
fn statusbar_render_fails_only_when_too_wide() {
    let size = TermSize(3, 5);
    let bar = Statusbar::new(size, Position::Bottom, "abc".to_string(), "d".to_string());
    assert_eq!(bar.render(), None);
}

#[test]
fn term_size_from_pair() {
    let size = TermSize::from((80u16, 24u16));
    assert_eq!(size.width(), 80);
    assert_eq!(size.height(), 24);
}
