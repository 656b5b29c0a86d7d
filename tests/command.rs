use myedit::command::{get_color_from_tag, parse_remote_command, SendError};
use myedit::types::{Cmd, Color};

#[test]
fn edit_loads_the_trimmed_path() {
    assert_eq!(
        parse_remote_command("edit test.rs"),
        Ok(Cmd::LoadFile(String::from("test.rs")))
    );
    assert_eq!(
        parse_remote_command("edit src/main.rs\n"),
        Ok(Cmd::LoadFile(String::from("src/main.rs")))
    );
    assert_eq!(
        parse_remote_command("edit a.rs b.rs"),
        Ok(Cmd::LoadFile(String::from("a.rs")))
    );
    assert_eq!(parse_remote_command("edit "), Ok(Cmd::LoadFile(String::new())));
}

#[test]
fn edit_without_a_path_is_refused() {
    assert_eq!(parse_remote_command("edit"), Err(SendError::MissingFile));
}

#[test]
fn unknown_commands_are_refused() {
    assert_eq!(parse_remote_command("open x"), Err(SendError::UnknownCommand));
    assert_eq!(parse_remote_command(""), Err(SendError::UnknownCommand));
    assert_eq!(parse_remote_command(" edit x"), Err(SendError::UnknownCommand));
    assert_eq!(parse_remote_command("editx y"), Err(SendError::UnknownCommand));
}

#[test]
fn syntax_tags_have_their_colors() {
    let blue = Some(Color { r: 128, g: 160, b: 255 });
    assert_eq!(get_color_from_tag("function"), blue);
    assert_eq!(get_color_from_tag("variable"), blue);
    assert_eq!(get_color_from_tag("string"), Some(Color { r: 207, g: 207, b: 176 }));
    assert_eq!(get_color_from_tag("keyword"), Some(Color { r: 133, g: 220, b: 133 }));
    assert_eq!(get_color_from_tag("keyword.control"), Some(Color { r: 133, g: 220, b: 133 }));
    assert_eq!(get_color_from_tag("comment"), Some(Color { r: 142, g: 144, b: 140 }));
    assert_eq!(get_color_from_tag("attribute"), Some(Color { r: 200, g: 40, b: 41 }));
    assert_eq!(get_color_from_tag("type"), Some(Color { r: 66, g: 113, b: 174 }));
    assert_eq!(get_color_from_tag("literal"), None);
    assert_eq!(get_color_from_tag(""), None);
}
