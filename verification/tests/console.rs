use lanshare::command::{is_space, parse_command, trim, Command};

#[test]
fn console_words_are_commands() {
    assert_eq!(parse_command("up"), Command::Up);
    assert_eq!(parse_command("down"), Command::Down);
    assert_eq!(parse_command("upgrade"), Command::Upgrade);
    assert_eq!(parse_command("quit"), Command::Quit);
    assert_eq!(parse_command("name alice"), Command::Login { name: "alice".to_string() });
}

#[test]
fn console_ignores_white_space_at_the_ends() {
    assert_eq!(parse_command("up\n"), Command::Up);
    assert_eq!(parse_command("  \t down \r\n"), Command::Down);
    assert_eq!(parse_command("\u{3000}quit\u{a0}"), Command::Quit);
    assert_eq!(parse_command("name alice \n"), Command::Login { name: "alice".to_string() });
    assert_eq!(parse_command("name  alice"), Command::Login { name: " alice".to_string() });
    assert_eq!(parse_command("name a b"), Command::Login { name: "a b".to_string() });
}

#[test]
fn console_turns_down_what_it_does_not_know() {
    assert_eq!(parse_command(""), Command::Unknown);
    assert_eq!(parse_command("   "), Command::Unknown);
    assert_eq!(parse_command("UP"), Command::Unknown);
    assert_eq!(parse_command("u p"), Command::Unknown);
    assert_eq!(parse_command("upgrad"), Command::Unknown);
    assert_eq!(parse_command("quit now"), Command::Unknown);
    assert_eq!(parse_command("name"), Command::Unknown);
    assert_eq!(parse_command("name\u{e9}bob"), Command::Unknown);
}

#[test]
fn console_takes_the_name_after_the_fifth_character() {
    assert_eq!(parse_command("namex"), Command::Login { name: "".to_string() });
    assert_eq!(parse_command("names"), Command::Login { name: "".to_string() });
    assert_eq!(parse_command("name=bob"), Command::Login { name: "bob".to_string() });
    assert_eq!(parse_command("name b\u{f6}b"), Command::Login { name: "b\u{f6}b".to_string() });
}

#[test]
fn trim_agrees_with_the_standard_library() {
    let samples = [
        "",
        " ",
        "up",
        " up",
        "up ",
        "\t\r\n up \u{2003}\u{2028}",
        "a b",
        "\u{85}x\u{1680}",
        "\u{200b}x",
        "\u{feff}x ",
        " \u{e9} ",
        "\u{1f}x\u{1c}",
    ];
    for sample in samples {
        assert_eq!(trim(sample), sample.trim());
    }
    for code in 0..0x3100u32 {
        if let Some(c) = char::from_u32(code) {
            assert_eq!(is_space(c), c.is_whitespace());
        }
    }
}
