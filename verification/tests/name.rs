use colored::color::Color;

#[test]
fn parse() {
    let color: Result<Color, _> = "blue".parse();
    assert_eq!(Ok(Color::Blue), color);
}

#[test]
fn error() {
    let color: Result<Color, ()> = "bloublou".parse();
    assert_eq!(Ok(Color::White), color);
}

fn from_str_gives(src: &str, expected: Color) {
    let color: Color = src.into();
    assert_eq!(expected, color);
}

fn from_string_gives(src: &str, expected: Color) {
    let src = String::from(src);
    let color: Color = src.into();
    assert_eq!(expected, color);
}

#[test]
fn from_str_black() {
    from_str_gives("black", Color::Black);
}

#[test]
fn from_str_red() {
    from_str_gives("red", Color::Red);
}

#[test]
fn from_str_green() {
    from_str_gives("green", Color::Green);
}

#[test]
fn from_str_yellow() {
    from_str_gives("yellow", Color::Yellow);
}

#[test]
fn from_str_blue() {
    from_str_gives("blue", Color::Blue);
}

#[test]
fn from_str_magenta() {
    from_str_gives("magenta", Color::Magenta);
}

#[test]
fn from_str_purple() {
    from_str_gives("purple", Color::Magenta);
}

#[test]
fn from_str_cyan() {
    from_str_gives("cyan", Color::Cyan);
}

#[test]
fn from_str_white() {
    from_str_gives("white", Color::White);
}

#[test]
fn from_str_brightblack() {
    from_str_gives("bright black", Color::BrightBlack);
}

#[test]
fn from_str_brightred() {
    from_str_gives("bright red", Color::BrightRed);
}

#[test]
fn from_str_brightgreen() {
    from_str_gives("bright green", Color::BrightGreen);
}

#[test]
fn from_str_brightyellow() {
    from_str_gives("bright yellow", Color::BrightYellow);
}

#[test]
fn from_str_brightblue() {
    from_str_gives("bright blue", Color::BrightBlue);
}

#[test]
fn from_str_brightmagenta() {
    from_str_gives("bright magenta", Color::BrightMagenta);
}

#[test]
fn from_str_brightcyan() {
    from_str_gives("bright cyan", Color::BrightCyan);
}

#[test]
fn from_str_brightwhite() {
    from_str_gives("bright white", Color::BrightWhite);
}

#[test]
fn from_str_invalid() {
    from_str_gives("invalid", Color::White);
}

#[test]
fn from_str_capitalized() {
    from_str_gives("BLUE", Color::Blue);
}

#[test]
fn from_str_mixed_case() {
    from_str_gives("bLuE", Color::Blue);
}

#[test]
fn from_string_black() {
    from_string_gives("black", Color::Black);
}

#[test]
fn from_string_red() {
    from_string_gives("red", Color::Red);
}

#[test]
fn from_string_green() {
    from_string_gives("green", Color::Green);
}

#[test]
fn from_string_yellow() {
    from_string_gives("yellow", Color::Yellow);
}

#[test]
fn from_string_blue() {
    from_string_gives("blue", Color::Blue);
}

#[test]
fn from_string_magenta() {
    from_string_gives("magenta", Color::Magenta);
}

#[test]
fn from_string_cyan() {
    from_string_gives("cyan", Color::Cyan);
}

#[test]
fn from_string_white() {
    from_string_gives("white", Color::White);
}

#[test]
fn from_string_brightblack() {
    from_string_gives("bright black", Color::BrightBlack);
}

#[test]
fn from_string_brightred() {
    from_string_gives("bright red", Color::BrightRed);
}

#[test]
fn from_string_brightgreen() {
    from_string_gives("bright green", Color::BrightGreen);
}

#[test]
fn from_string_brightyellow() {
    from_string_gives("bright yellow", Color::BrightYellow);
}

#[test]
fn from_string_brightblue() {
    from_string_gives("bright blue", Color::BrightBlue);
}

#[test]
fn from_string_brightmagenta() {
    from_string_gives("bright magenta", Color::BrightMagenta);
}

#[test]
fn from_string_brightcyan() {
    from_string_gives("bright cyan", Color::BrightCyan);
}

#[test]
fn from_string_brightwhite() {
    from_string_gives("bright white", Color::BrightWhite);
}

#[test]
fn from_string_invalid() {
    from_string_gives("invalid", Color::White);
}

#[test]
fn from_string_capitalized() {
    from_string_gives("BLUE", Color::Blue);
}

#[test]
fn from_string_mixed_case() {
    from_string_gives("bLuE", Color::Blue);
}

#[test]
fn parsing_ignores_case() {
    assert_eq!(Ok(Color::BrightMagenta), "Bright MAGENTA".parse::<Color>());
    assert_eq!(Ok(Color::Magenta), "PuRpLe".parse::<Color>());
    assert_eq!(Ok(Color::Cyan), "cyan".parse::<Color>());
    assert_eq!(Color::BrightMagenta, Color::from_name("Bright MAGENTA"));
}

#[test]
fn parsing_never_fails() {
    assert_eq!(Ok(Color::White), "notacolor".parse::<Color>());
    assert_eq!(Ok(Color::White), "".parse::<Color>());
    assert_eq!(Ok(Color::White), " blue".parse::<Color>());
    assert_eq!(Ok(Color::White), "brightblue".parse::<Color>());
    assert_eq!(Ok(Color::White), "bright  blue".parse::<Color>());
}

#[test]
fn from_name_defaults_to_white() {
    assert_eq!(Color::White, Color::from_name("notacolor"));
    assert_eq!(Color::White, Color::from_name(""));
    assert_eq!(Color::Magenta, Color::from_name("Purple"));
}

#[test]
fn from_lowercase_name_is_exact_about_case() {
    assert_eq!(Some(Color::Blue), Color::from_lowercase_name("blue"));
    assert_eq!(Some(Color::Magenta), Color::from_lowercase_name("purple"));
    assert_eq!(Some(Color::Magenta), Color::from_lowercase_name("magenta"));
    assert_eq!(Some(Color::White), Color::from_lowercase_name("white"));
    assert_eq!(None, Color::from_lowercase_name("BLUE"));
    assert_eq!(None, Color::from_lowercase_name("Blue"));
    assert_eq!(None, Color::from_lowercase_name("notacolor"));
    assert_eq!(None, Color::from_lowercase_name(""));
}

#[test]
fn from_lowercase_name_or_white_defaults_to_white() {
    assert_eq!(Color::Blue, Color::from_lowercase_name_or_white("blue"));
    assert_eq!(Color::Magenta, Color::from_lowercase_name_or_white("purple"));
    assert_eq!(Color::BrightCyan, Color::from_lowercase_name_or_white("bright cyan"));
    assert_eq!(Color::White, Color::from_lowercase_name_or_white("white"));
    assert_eq!(Color::White, Color::from_lowercase_name_or_white("notacolor"));
    assert_eq!(Color::White, Color::from_lowercase_name_or_white("BLUE"));
    assert_eq!(Color::White, Color::from_lowercase_name_or_white(""));
}

#[test]
fn parsing_lowers_letters_outside_ascii() {
    // U+212A, the Kelvin sign, has the small letter k as its lowercase.
    assert_eq!(Ok(Color::Black), "blac\u{212A}".parse::<Color>());
    assert_eq!(Color::Black, Color::from_name("blac\u{212A}"));
    assert_eq!(None, Color::from_lowercase_name("blac\u{212A}"));
}

#[test]
fn names_with_one_lowercase_form_give_one_color() {
    for (a, b) in [("BLUE", "blue"), ("Bright Red", "bRIGHT rED"), ("NOPE", "nope")] {
        assert_eq!(a.to_lowercase(), b.to_lowercase());
        assert_eq!(Color::from_name(a), Color::from_name(b));
        assert_eq!(a.parse::<Color>(), b.parse::<Color>());
    }
}
