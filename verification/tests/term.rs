use lifegame::term::utils;
use lifegame::term::TermString;

#[test]
fn test_wrap_keeps_text_and_counts_visible() {
    let t = TermString::wrap("hello");
    assert_eq!(t.len(), 5);
    assert_eq!(t.into_string(), "hello");
}

#[test]
fn test_wrap_counts_characters_not_bytes() {
    let t = TermString::wrap("生死");
    assert_eq!(t.len(), 2);
}

#[test]
fn test_styling_keeps_visible_width() {
    let t = TermString::wrap("ab").set_bold();
    assert_eq!(t.len(), 2);
    assert_eq!(t.into_string(), "\x1b[1mab\x1b[22m");

    let t = TermString::wrap("ab").set_dim();
    assert_eq!(t.into_string(), "\x1b[2mab\x1b[22m");

    let t = TermString::wrap("ab").set_bold_dim();
    assert_eq!(t.into_string(), "\x1b[1m\x1b[2mab\x1b[22m");

    let t = TermString::wrap("ab").set_italic();
    assert_eq!(t.into_string(), "\x1b[3mab\x1b[23m");

    let t = TermString::wrap("ab").set_underline();
    assert_eq!(t.into_string(), "\x1b[4mab\x1b[24m");

    let t = TermString::wrap("ab").set_strikethrough();
    assert_eq!(t.into_string(), "\x1b[9mab\x1b[29m");
}

#[test]
fn test_colors() {
    let t = TermString::wrap("x").set_color("red").unwrap();
    assert_eq!(t.len(), 1);
    assert_eq!(t.into_string(), "\x1b[31mx\x1b[39m");

    let t = TermString::wrap("x").set_color_bg("cyan").unwrap();
    assert_eq!(t.into_string(), "\x1b[46mx\x1b[49m");

    assert_eq!(
        TermString::wrap("x").set_color("chartreuse").unwrap_err(),
        "invalid color"
    );
    assert_eq!(
        TermString::wrap("x").set_color_bg("").unwrap_err(),
        "invalid color"
    );
}

#[test]
fn test_justification_pads_to_visible_width() {
    let t = TermString::wrap("hi").ljust(5);
    assert_eq!(t.len(), 5);
    assert_eq!(t.into_string(), "hi   ");

    let t = TermString::wrap("hi").rjust(5);
    assert_eq!(t.into_string(), "   hi");

    let t = TermString::wrap("hi").center(5);
    assert_eq!(t.into_string(), " hi  ");

    let t = TermString::wrap("hi").center(6);
    assert_eq!(t.into_string(), "  hi  ");

    // Text at least as wide as requested is unchanged.
    let t = TermString::wrap("hello").ljust(3);
    assert_eq!(t.into_string(), "hello");
}

#[test]
fn test_justification_ignores_escape_sequences() {
    let t = TermString::wrap("hi").set_bold().rjust(4);
    assert_eq!(t.len(), 4);
    assert_eq!(t.into_string(), "  \x1b[1mhi\x1b[22m");
}

#[test]
fn test_from_escseq() {
    let t = TermString::from_escseq("style", "bold").unwrap();
    assert_eq!(t.len(), 0);
    assert_eq!(t.into_string(), "\x1b[1m");

    let t = TermString::from_escseq("erase", "screen").unwrap();
    assert_eq!(t.into_string(), "\x1b[2J");

    let t = TermString::from_escseq("reset", "cursor").unwrap();
    assert_eq!(t.into_string(), "\x1b[H");

    let t = TermString::from_escseq("reset", "all").unwrap();
    assert_eq!(t.into_string(), "\x1b[0m");

    let t = TermString::from_escseq("foreground", "magenta").unwrap();
    assert_eq!(t.into_string(), "\x1b[35m");

    let t = TermString::from_escseq("background", "yellow").unwrap();
    assert_eq!(t.into_string(), "\x1b[43m");

    assert!(TermString::from_escseq("style", "blink").is_none());
    assert!(TermString::from_escseq("sound", "bell").is_none());
}

#[test]
fn test_concat_adds_visible_widths() {
    let t = TermString::wrap("ab").set_bold().concat_tstr(TermString::wrap("cd"));
    assert_eq!(t.len(), 4);
    assert_eq!(t.into_string(), "\x1b[1mab\x1b[22mcd");
}

#[test]
fn test_utils_plain_text_helpers() {
    assert_eq!(utils::set_bold("a").into_string(), "\x1b[1ma\x1b[22m");
    assert_eq!(utils::set_dim("a").into_string(), "\x1b[2ma\x1b[22m");
    assert_eq!(
        utils::set_bold_dim("a").into_string(),
        "\x1b[1m\x1b[2ma\x1b[22m"
    );
    assert_eq!(
        utils::set_color("a", "green").into_string(),
        "\x1b[32ma\x1b[39m"
    );
    assert_eq!(
        utils::set_color_bg("a", "blue").into_string(),
        "\x1b[44ma\x1b[49m"
    );
}

#[test]
fn test_utils_term_text_helpers() {
    let styled = utils::set_bold_t(TermString::wrap("v"));
    assert_eq!(styled.len(), 1);
    assert_eq!(styled.into_string(), "\x1b[1mv\x1b[22m");
    assert_eq!(
        utils::set_dim_t(TermString::wrap("v")).into_string(),
        "\x1b[2mv\x1b[22m"
    );
    assert_eq!(
        utils::set_bold_dim_t(TermString::wrap("v")).into_string(),
        "\x1b[1m\x1b[2mv\x1b[22m"
    );
    assert_eq!(
        utils::set_color_t(TermString::wrap("v"), "white").into_string(),
        "\x1b[37mv\x1b[39m"
    );
    assert_eq!(
        utils::set_color_bg_t(TermString::wrap("v"), "black").into_string(),
        "\x1b[40mv\x1b[49m"
    );
}
