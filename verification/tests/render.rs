use hostprobe::render::{add_item, ColorTable};

fn table() -> ColorTable {
    let mut colors = ColorTable::new();
    colors.insert("red", "\x1b[31m");
    colors.insert("green", "\x1b[32m");
    colors.insert("reset", "\x1b[0m");
    colors
}

#[test]
fn item_line_has_icon_label_and_content() {
    let line = add_item(&table(), "*", "user", "alice", "red");
    assert_eq!(line, "│ \x1b[31m* \x1b[0muser     │ \x1b[31malice\x1b[0m");
}

#[test]
fn label_of_nine_characters_is_not_filled_up() {
    let line = add_item(&table(), "#", "processor", "x", "green");
    assert_eq!(line, "│ \x1b[32m# \x1b[0mprocessor│ \x1b[32mx\x1b[0m");
}

#[test]
fn longer_label_is_kept_whole() {
    let line = add_item(&table(), "#", "processors", "x", "green");
    assert_eq!(line, "│ \x1b[32m# \x1b[0mprocessors│ \x1b[32mx\x1b[0m");
}

#[test]
fn label_is_measured_in_characters() {
    let line = add_item(&table(), "", "mémoire", "", "green");
    assert_eq!(line, "│ \x1b[32m \x1b[0mmémoire  │ \x1b[32m\x1b[0m");
}

#[test]
fn missing_colour_gives_an_empty_line() {
    assert_eq!(add_item(&table(), "*", "user", "alice", "blue"), "");
}

#[test]
fn missing_reset_gives_an_empty_line() {
    let mut colors = ColorTable::new();
    colors.insert("red", "\x1b[31m");
    assert_eq!(add_item(&colors, "*", "user", "alice", "red"), "");
}

#[test]
fn reset_can_be_the_items_colour() {
    let line = add_item(&table(), "o", "colors", "...", "reset");
    assert_eq!(line, "│ \x1b[0mo \x1b[0mcolors   │ \x1b[0m...\x1b[0m");
}

#[test]
fn insert_replaces_the_code_of_a_name() {
    let mut colors = table();
    assert_eq!(colors.get("red"), Some("\x1b[31m".to_string()));
    colors.insert("red", "\x1b[91m");
    assert_eq!(colors.get("red"), Some("\x1b[91m".to_string()));
    assert_eq!(colors.get("green"), Some("\x1b[32m".to_string()));
    assert_eq!(colors.get("blue"), None);
}
