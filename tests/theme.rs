use crossterm::style::Color as C;
use crossterm::style::Stylize;
use sysfetch::color::Color;
use sysfetch::text::split_lines;
use sysfetch::theme::{DefaultTheme, Theme, ALONE_ART, DESERT_ART, WAVEY_ART};

#[test]
fn longest_line_of_empty_art_is_zero() {
    let t = Theme::new("", Color::Blue, Color::White);
    assert_eq!(t.get_longest_line_len(), 0);
}

#[test]
fn longest_line_is_widest_line() {
    let t = Theme::new("ab\nabcd\nc", Color::Blue, Color::White);
    assert_eq!(t.get_longest_line_len(), 4);
    let t = Theme::new("abc\n", Color::Blue, Color::White);
    assert_eq!(t.get_longest_line_len(), 3);
}

#[test]
fn longest_line_counts_characters() {
    let t = Theme::new("ééé\nab", Color::Blue, Color::White);
    assert_eq!(t.get_longest_line_len(), 3);
}

#[test]
fn theme_keeps_art_and_colours() {
    let t = Theme::new("x\ny", Color::Cyan, Color::Green);
    assert_eq!(t.get_art(), "x\ny");
    assert_eq!(t.get_primary(), Color::Cyan);
    assert_eq!(t.get_secondary(), Color::Green);
}

#[test]
fn default_themes() {
    let w = Theme::create_default_theme(DefaultTheme::Wavey);
    assert_eq!(w.get_art(), WAVEY_ART);
    assert_eq!(w.get_primary(), Color::Blue);
    assert_eq!(w.get_secondary(), Color::White);
    let widest = WAVEY_ART.lines().map(|l| l.chars().count()).max().unwrap();
    assert_eq!(w.get_longest_line_len(), widest);

    let a = Theme::create_default_theme(DefaultTheme::Alone);
    assert_eq!(a.get_art(), ALONE_ART);
    assert_eq!(a.get_primary(), Color::DarkRed);
    assert_eq!(split_lines(ALONE_ART).len(), ALONE_ART.lines().count());

    let d = Theme::create_default_theme(DefaultTheme::Desert);
    assert_eq!(d.get_art(), DESERT_ART);
    assert_eq!(d.get_primary(), Color::DarkYellow);
    let widest = DESERT_ART.lines().map(|l| l.chars().count()).max().unwrap();
    assert_eq!(d.get_longest_line_len(), widest);
}

#[test]
fn theme_visual_is_eight_swatches() {
    let expected: String = [C::Black, C::Red, C::Green, C::Yellow, C::Blue, C::Magenta, C::Cyan, C::White]
        .iter()
        .map(|c| format!("{}", "███".with(*c)))
        .collect();
    let t = Theme::create_default_theme(DefaultTheme::Desert);
    assert_eq!(t.get_theme_visual(), expected);
    let other = Theme::new("", Color::Red, Color::Red);
    assert_eq!(other.get_theme_visual(), expected);
    assert!(expected.starts_with("\u{1b}[38;5;0m███\u{1b}[39m\u{1b}[38;5;9m███"));
}
