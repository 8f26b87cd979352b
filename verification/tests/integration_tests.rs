use coloring::{Color, Formatting, Styles};

#[test]
fn fg() {
    let fg = Formatting::new().foreground(Color::Blue).apply_to("text");
    assert_eq!(fg, "\x1B[34mtext\x1B[0m");
}

#[test]
fn bg() {
    let bg = Formatting::new().background(Color::Blue).apply_to("text");
    assert_eq!(bg, "\x1B[44mtext\x1B[0m");
}

#[test]
fn style() {
    let styled = Formatting::new().styles(vec![Styles::Bold]).apply_to("text");
    assert_eq!(styled, "\x1B[1mtext\x1B[0m");
}

#[test]
fn styles() {
    let styled = Formatting::new().styles(vec![Styles::Bold, Styles::Invert]).apply_to("text");
    assert_eq!(styled, "\x1B[1;7mtext\x1B[0m");
}

#[test]
fn fg_bg() {
    let formatted = Formatting::new()
        .foreground(Color::Blue)
        .background(Color::Blue)
        .apply_to("text");
    assert_eq!(formatted, "\x1B[34;44mtext\x1B[0m");
}

#[test]
fn fg_style() {
    let formatted = Formatting::new()
        .foreground(Color::Blue)
        .styles(vec![Styles::Bold])
        .apply_to("text");
    assert_eq!(formatted, "\x1B[34;1mtext\x1B[0m");
}

#[test]
fn bg_style() {
    let formatted = Formatting::new()
        .background(Color::Blue)
        .styles(vec![Styles::Bold])
        .apply_to("text");
    assert_eq!(formatted, "\x1B[44;1mtext\x1B[0m");
}

#[test]
fn all() {
    let formatted = Formatting::new()
        .foreground(Color::Blue)
        .background(Color::Blue)
        .styles(vec![Styles::Bold])
        .apply_to("text");
    assert_eq!(formatted, "\x1B[34;44;1mtext\x1B[0m");
}

#[test]
fn none() {
    let formatted = Formatting::new().apply_to("text");
    assert_eq!(formatted, "\x1B[mtext\x1B[0m");
}

#[test]
fn base_foreground_codes() {
    let cases: Vec<(Color, &str)> = vec![
        (Color::Black, "\x1B[30mtext\x1B[0m"),
        (Color::Red, "\x1B[31mtext\x1B[0m"),
        (Color::Green, "\x1B[32mtext\x1B[0m"),
        (Color::Yellow, "\x1B[33mtext\x1B[0m"),
        (Color::Blue, "\x1B[34mtext\x1B[0m"),
        (Color::Magenta, "\x1B[35mtext\x1B[0m"),
        (Color::Cyan, "\x1B[36mtext\x1B[0m"),
        (Color::White, "\x1B[37mtext\x1B[0m"),
    ];
    for (color, expected) in cases {
        assert_eq!(Formatting::new().foreground(color).apply_to("text"), expected);
    }
}

#[test]
fn base_background_codes() {
    let cases: Vec<(Color, &str)> = vec![
        (Color::Black, "\x1B[40mtext\x1B[0m"),
        (Color::Red, "\x1B[41mtext\x1B[0m"),
        (Color::Green, "\x1B[42mtext\x1B[0m"),
        (Color::Yellow, "\x1B[43mtext\x1B[0m"),
        (Color::Blue, "\x1B[44mtext\x1B[0m"),
        (Color::Magenta, "\x1B[45mtext\x1B[0m"),
        (Color::Cyan, "\x1B[46mtext\x1B[0m"),
        (Color::White, "\x1B[47mtext\x1B[0m"),
    ];
    for (color, expected) in cases {
        assert_eq!(Formatting::new().background(color).apply_to("text"), expected);
    }
}

#[test]
fn bright_foreground_codes() {
    let cases: Vec<(Color, &str)> = vec![
        (Color::BrightBlack, "\x1B[90mtext\x1B[0m"),
        (Color::BrightRed, "\x1B[91mtext\x1B[0m"),
        (Color::BrightGreen, "\x1B[92mtext\x1B[0m"),
        (Color::BrightYellow, "\x1B[93mtext\x1B[0m"),
        (Color::BrightBlue, "\x1B[94mtext\x1B[0m"),
        (Color::BrightMagenta, "\x1B[95mtext\x1B[0m"),
        (Color::BrightCyan, "\x1B[96mtext\x1B[0m"),
        (Color::BrightWhite, "\x1B[97mtext\x1B[0m"),
    ];
    for (color, expected) in cases {
        assert_eq!(Formatting::new().foreground(color).apply_to("text"), expected);
    }
}

#[test]
fn bright_background_codes() {
    let cases: Vec<(Color, &str)> = vec![
        (Color::BrightBlack, "\x1B[100mtext\x1B[0m"),
        (Color::BrightRed, "\x1B[101mtext\x1B[0m"),
        (Color::BrightGreen, "\x1B[102mtext\x1B[0m"),
        (Color::BrightYellow, "\x1B[103mtext\x1B[0m"),
        (Color::BrightBlue, "\x1B[104mtext\x1B[0m"),
        (Color::BrightMagenta, "\x1B[105mtext\x1B[0m"),
        (Color::BrightCyan, "\x1B[106mtext\x1B[0m"),
        (Color::BrightWhite, "\x1B[107mtext\x1B[0m"),
    ];
    for (color, expected) in cases {
        assert_eq!(Formatting::new().background(color).apply_to("text"), expected);
    }
}

#[test]
fn palette_foreground() {
    let formatted = Formatting::new().foreground(Color::Colors256(5)).apply_to("text");
    assert_eq!(formatted, "\x1B[38;5;5mtext\x1B[0m");
    let formatted = Formatting::new().foreground(Color::Colors256(123)).apply_to("text");
    assert_eq!(formatted, "\x1B[38;5;123mtext\x1B[0m");
    let formatted = Formatting::new().foreground(Color::Colors256(255)).apply_to("text");
    assert_eq!(formatted, "\x1B[38;5;255mtext\x1B[0m");
}

#[test]
fn palette_background() {
    let formatted = Formatting::new().background(Color::Colors256(0)).apply_to("text");
    assert_eq!(formatted, "\x1B[48;5;0mtext\x1B[0m");
    let formatted = Formatting::new().background(Color::Colors256(200)).apply_to("text");
    assert_eq!(formatted, "\x1B[48;5;200mtext\x1B[0m");
}

#[test]
fn rgb_foreground() {
    let formatted = Formatting::new()
        .foreground(Color::RGB { r: 1, g: 22, b: 255 })
        .apply_to("text");
    assert_eq!(formatted, "\x1B[38;2;1;22;255mtext\x1B[0m");
}

#[test]
fn rgb_background() {
    let formatted = Formatting::new()
        .background(Color::RGB { r: 0, g: 128, b: 9 })
        .apply_to("text");
    assert_eq!(formatted, "\x1B[48;2;0;128;9mtext\x1B[0m");
}

#[test]
fn every_style_code() {
    let cases: Vec<(Styles, &str)> = vec![
        (Styles::Reset, "\x1B[0mtext\x1B[0m"),
        (Styles::Bold, "\x1B[1mtext\x1B[0m"),
        (Styles::Faint, "\x1B[2mtext\x1B[0m"),
        (Styles::Italic, "\x1B[3mtext\x1B[0m"),
        (Styles::Underline, "\x1B[4mtext\x1B[0m"),
        (Styles::Blink, "\x1B[5mtext\x1B[0m"),
        (Styles::Invert, "\x1B[7mtext\x1B[0m"),
        (Styles::Invisible, "\x1B[8mtext\x1B[0m"),
        (Styles::Strikethrough, "\x1B[9mtext\x1B[0m"),
    ];
    for (style, expected) in cases {
        assert_eq!(Formatting::new().styles(vec![style]).apply_to("text"), expected);
    }
}

#[test]
fn duplicate_styles_preserved() {
    let formatted = Formatting::new()
        .styles(vec![Styles::Bold, Styles::Bold, Styles::Underline])
        .apply_to("text");
    assert_eq!(formatted, "\x1B[1;1;4mtext\x1B[0m");
}

#[test]
fn empty_style_list_is_present() {
    // An empty list is distinct from "never set": it still contributes a
    // (empty) segment, so a preceding foreground code gets its separator.
    let formatted = Formatting::new()
        .foreground(Color::Blue)
        .styles(vec![])
        .apply_to("text");
    assert_eq!(formatted, "\x1B[34;mtext\x1B[0m");
    let formatted = Formatting::new().styles(vec![]).apply_to("text");
    assert_eq!(formatted, "\x1B[mtext\x1B[0m");
}

#[test]
fn later_setter_overwrites() {
    let formatted = Formatting::new()
        .foreground(Color::Red)
        .foreground(Color::Green)
        .apply_to("text");
    assert_eq!(formatted, "\x1B[32mtext\x1B[0m");
    let formatted = Formatting::new()
        .styles(vec![Styles::Bold])
        .styles(vec![Styles::Italic])
        .apply_to("text");
    assert_eq!(formatted, "\x1B[3mtext\x1B[0m");
}

#[test]
fn empty_text() {
    let formatted = Formatting::new().foreground(Color::Blue).apply_to("");
    assert_eq!(formatted, "\x1B[34m\x1B[0m");
}

#[test]
fn render_is_pure() {
    let formatting = Formatting::new()
        .foreground(Color::Cyan)
        .background(Color::Colors256(17))
        .styles(vec![Styles::Bold, Styles::Blink]);
    let first = formatting.apply_to("HI MOM!");
    let second = formatting.apply_to("HI MOM!");
    assert_eq!(first, second);
    assert_eq!(first, "\x1B[36;48;5;17;1;5mHI MOM!\x1B[0m");
}
