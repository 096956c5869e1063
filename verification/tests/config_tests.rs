use rust_tig::config::{parse_color, parse_style, Config};
use rust_tig::text::Color;

#[test]
fn test_parse_basic_colors() {
    assert_eq!(parse_color("red"), Color::Red);
    assert_eq!(parse_color("green"), Color::Green);
    assert_eq!(parse_color("blue"), Color::Blue);
}

#[test]
fn test_parse_dark_colors() {
    // The display palette has no separate dark red or dark green;
    // these map to the base colors.
    assert_eq!(parse_color("dark red"), Color::Red);
    assert_eq!(parse_color("dark green"), Color::Green);
}

#[test]
fn test_parse_grey_variants() {
    assert_eq!(parse_color("grey"), Color::Gray);
    assert_eq!(parse_color("gray"), Color::Gray);
    assert_eq!(parse_color("dark grey"), Color::DarkGray);
    assert_eq!(parse_color("dark gray"), Color::DarkGray);
}

#[test]
fn test_parse_style_simple() {
    let style = parse_style("green");
    assert_eq!(style.fg, Some(Color::Green));
    assert_eq!(style.bg, None);
}

#[test]
fn test_parse_style_compound() {
    let style = parse_style("black on white");
    assert_eq!(style.fg, Some(Color::Black));
    assert_eq!(style.bg, Some(Color::White));
}

#[test]
fn test_case_insensitive() {
    assert_eq!(parse_color("RED"), Color::Red);
    assert_eq!(parse_color("Green"), Color::Green);
    assert_eq!(parse_color("DARK BLUE"), Color::Blue);
}

#[test]
fn test_parse_color_trims_whitespace() {
    assert_eq!(parse_color("  red  "), Color::Red);
    assert_eq!(parse_color("\tcyan "), Color::Cyan);
}

#[test]
fn test_parse_color_unknown_falls_back_to_white() {
    assert_eq!(parse_color("chartreuse"), Color::White);
    assert_eq!(parse_color(""), Color::White);
}

#[test]
fn test_default_config() {
    let config = Config::default();

    assert_eq!(config.keybindings.global.get("quit"), Some(&"q".to_string()));
    assert_eq!(config.colors.added, "green");
    assert_eq!(config.settings.commit_chunk_size, 50);
}

#[test]
fn test_default_keybindings_complete() {
    let config = Config::default();
    assert_eq!(config.keybindings.global.get("help"), Some(&"?".to_string()));
    assert_eq!(config.keybindings.global.get("refresh"), Some(&"r".to_string()));
    assert_eq!(config.keybindings.main.get("search"), Some(&"/".to_string()));
    assert_eq!(config.keybindings.status.get("unstage"), Some(&"u".to_string()));
    assert_eq!(config.keybindings.diff.get("scroll_down"), Some(&"j".to_string()));
    assert_eq!(config.keybindings.global.get("missing"), None);
}

#[test]
fn test_keymap_insertion_order_lookup() {
    let mut map = rust_tig::config::KeyMap::new();
    map.push_binding("a".to_string(), "1".to_string());
    map.push_binding("b".to_string(), "2".to_string());
    assert_eq!(map.len(), 2);
    assert_eq!(map.get("a"), Some(&"1".to_string()));
    assert_eq!(map.get("b"), Some(&"2".to_string()));
    assert_eq!(map.get("c"), None);
    let (name, key) = map.entry(1);
    assert_eq!(name, "b");
    assert_eq!(key, "2");
}
