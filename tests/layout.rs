use crossterm::style::Stylize;
use sysfetch::color::Color;
use sysfetch::terminal::Terminal;
use sysfetch::text::split_lines;

fn strings(v: &[&str]) -> Vec<String> {
    v.iter().map(|s| s.to_string()).collect()
}

fn blue(s: &str) -> String {
    format!("{}", s.with(crossterm::style::Color::Blue))
}

#[test]
fn scenario_a_two_paired_rows() {
    let term = Terminal::new(10);
    let out = term.render(&strings(&["AB", "C"]), &strings(&["x: 1", "y: 2"]), 2, Color::Blue);
    let expected = format!(" {}  x: 1\n {}   y: 2\n", blue("AB"), blue("C"));
    assert_eq!(out, expected);
}

#[test]
fn left_lines_are_wrapped_in_colour_codes() {
    let term = Terminal::new(10);
    let out = term.render(&strings(&["AB"]), &strings(&["x"]), 2, Color::Blue);
    assert_eq!(out, " \u{1b}[38;5;12mAB\u{1b}[39m  x\n");
}

#[test]
fn scenario_b_only_right_lines() {
    let term = Terminal::new(10);
    let out = term.render(&Vec::new(), &strings(&["only"]), 0, Color::Blue);
    assert_eq!(out, "     only\n");
}

#[test]
fn equal_columns_pair_line_by_line() {
    let term = Terminal::new(20);
    let out = term.render(&strings(&["a", "bb", "ccc"]), &strings(&["1", "2", "3"]), 3, Color::Red);
    let rows: Vec<&str> = out.lines().collect();
    assert_eq!(rows.len(), 3);
    let red = |s: &str| format!("{}", s.with(crossterm::style::Color::Red));
    // half = 10, margin = (10 - 3) / 2 = 3
    assert_eq!(rows[0], format!("   {}      1", red("a")));
    assert_eq!(rows[1], format!("   {}     2", red("bb")));
    assert_eq!(rows[2], format!("   {}    3", red("ccc")));
}

#[test]
fn leftover_right_lines_follow_half_width_margin() {
    let term = Terminal::new(8);
    let out = term.render(&strings(&["A"]), &strings(&["r1", "r2", "r3"]), 1, Color::Blue);
    let expected = format!(" {}  r1\n    r2\n    r3\n", blue("A"));
    assert_eq!(out, expected);
}

#[test]
fn leftover_left_lines_get_empty_right_side() {
    let term = Terminal::new(10);
    let out = term.render(&strings(&["AB", "C", "D"]), &strings(&["x"]), 2, Color::Blue);
    let expected = format!(" {}  x\n {}   \n {}   \n", blue("AB"), blue("C"), blue("D"));
    assert_eq!(out, expected);
}

#[test]
fn empty_right_column_keeps_left_alignment() {
    let term = Terminal::new(10);
    let out = term.render(&strings(&["AB"]), &Vec::new(), 2, Color::Blue);
    assert_eq!(out, format!(" {}  \n", blue("AB")));
}

#[test]
fn narrow_terminal_saturates_padding() {
    let term = Terminal::new(3);
    let out = term.render(&strings(&["ABCDEF"]), &strings(&["x"]), 6, Color::Blue);
    assert_eq!(out, format!("{}x\n", blue("ABCDEF")));
}

#[test]
fn zero_width_terminal() {
    let term = Terminal::new(0);
    let out = term.render(&Vec::new(), &strings(&["a", "b"]), 0, Color::Blue);
    assert_eq!(out, "a\nb\n");
}

#[test]
fn nothing_to_lay_out() {
    let term = Terminal::new(80);
    assert_eq!(term.render(&Vec::new(), &Vec::new(), 0, Color::Blue), "");
}

#[test]
fn split_lines_like_str_lines() {
    assert_eq!(split_lines(""), Vec::<String>::new());
    assert_eq!(split_lines("a"), strings(&["a"]));
    assert_eq!(split_lines("a\n"), strings(&["a"]));
    assert_eq!(split_lines("a\n\nb"), strings(&["a", "", "b"]));
    assert_eq!(split_lines("a\n\n"), strings(&["a", ""]));
    assert_eq!(split_lines("\n"), strings(&[""]));
    assert_eq!(split_lines("é\nü"), strings(&["é", "ü"]));
}
