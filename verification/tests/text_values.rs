use video_upscaler::text::{
    answer, blank, clean, decimal, first_line, join_texts, push_text, signed_decimal, strip_ends, Strip,
};

#[test]
fn white_space_is_what_the_standard_library_says() {
    for code in 0..=0x10ffff_u32 {
        if let Some(c) = char::from_u32(code) {
            assert_eq!(Strip::Space.matches_char(c), c.is_whitespace());
        }
    }
}

#[test]
fn one_character_matches_itself_only() {
    assert!(Strip::Only('"').matches_char('"'));
    assert!(!Strip::Only('"').matches_char('\''));
    assert!(!Strip::Only('"').matches_char(' '));
}

#[test]
fn ends_are_stripped() {
    assert_eq!(strip_ends(" \t a b \r\n", Strip::Space), "a b");
    assert_eq!(strip_ends("\u{3000}视频\u{a0}", Strip::Space), "视频");
    assert_eq!(strip_ends("\"\"a\"b\"", Strip::Only('"')), "a\"b");
    assert_eq!(strip_ends("''''", Strip::Only('\'')), "");
    assert_eq!(strip_ends("", Strip::Space), "");
    assert_eq!(strip_ends("plain", Strip::Space), "plain");
}

#[test]
fn stripping_agrees_with_the_standard_library() {
    let samples = [
        "", " ", "a", " a", "a ", "\t\u{2003}a \u{85}", "\"", "\"a\"", "a\"", "\"a", "''b''",
        "\u{200b}a\u{200b}", "中 文", " 中 文 ",
    ];
    for sample in samples {
        assert_eq!(strip_ends(sample, Strip::Space), sample.trim());
        assert_eq!(strip_ends(sample, Strip::Only('"')), sample.trim_matches('"'));
        assert_eq!(strip_ends(sample, Strip::Only('\'')), sample.trim_matches('\''));
    }
}

#[test]
fn quotes_are_taken_off() {
    assert_eq!(clean("\"/videos/a b.mp4\"\n"), "/videos/a b.mp4");
    assert_eq!(clean("  '/videos/a.mp4'  \r\n"), "/videos/a.mp4");
    assert_eq!(clean("\"' a '\""), "a");
    assert_eq!(clean("a.mp4"), "a.mp4");
    assert_eq!(clean("it's"), "it's");
    assert_eq!(clean("\n"), "");
    assert_eq!(clean("\"\""), "");
}

#[test]
fn white_space_and_quotes_are_what_wraps_an_answer() {
    for code in 0..=0x10ffff_u32 {
        if let Some(c) = char::from_u32(code) {
            let wraps = c.is_whitespace() || c == '"' || c == '\'';
            assert_eq!(Strip::Around.matches_char(c), wraps);
        }
    }
}

#[test]
fn answers_lose_all_that_is_around_them() {
    assert_eq!(answer("'\"a\"'"), "a");
    assert_eq!(answer("\"'a'\"\r\n"), "a");
    assert_eq!(answer("' \" a b \" '\n"), "a b");
    assert_eq!(answer("\"\"'' a"), "a");
    assert_eq!(answer("\"/videos/it's \"this\" one.mp4\"\n"), "/videos/it's \"this\" one.mp4");
    assert_eq!(answer("a"), "a");
}

#[test]
fn wrapping_alone_answers_nothing() {
    for line in ["", "\n", "\"\"\n", "'\"\"'\r\n", "\" '\u{3000}' \"", "'"] {
        assert_eq!(answer(line), "");
    }
}

#[test]
fn an_answer_is_not_changed_by_cleaning() {
    for line in ["a", " 'a b' \n", "'\"a\"'", "\" it's \"", "''", "\u{3000}视频\n"] {
        let value = answer(line);
        assert_eq!(answer(&value), value);
        assert_eq!(clean(&value), value);
    }
}

#[test]
fn a_path_is_unwrapped_in_order() {
    assert_eq!(clean("\"'a'\""), "a");
    assert_eq!(clean("'\"a\"'"), "\"a\"");
}

#[test]
fn white_space_inside_quotes_is_taken_off() {
    assert_eq!(clean("\" a \""), "a");
}

#[test]
fn blank_texts() {
    assert!(blank(""));
    assert!(blank(" \t\u{3000}\n"));
    assert!(!blank(" x "));
    assert!(!blank("\"\""));
}

#[test]
fn first_lines() {
    assert_eq!(first_line(""), None);
    assert_eq!(first_line("ffmpeg version 6.1.1\nbuilt with gcc"), Some("ffmpeg version 6.1.1".to_string()));
    assert_eq!(first_line("ffmpeg version 6.1.1\r\nbuilt"), Some("ffmpeg version 6.1.1".to_string()));
    assert_eq!(first_line("\nrest"), Some(String::new()));
    assert_eq!(first_line("\r\nrest"), Some(String::new()));
    assert_eq!(first_line("one\r"), Some("one\r".to_string()));
    assert_eq!(first_line("one\r\r\n"), Some("one\r".to_string()));
    assert_eq!(first_line("版本 1"), Some("版本 1".to_string()));
}

#[test]
fn first_lines_agree_with_the_standard_library() {
    let samples = ["", "\n", "\r\n", "a", "a\n", "a\r\n", "a\r", "\r", "a\rb\nc", "a\n\nb", "\r\r\n"];
    for sample in samples {
        assert_eq!(first_line(sample), sample.lines().next().map(|line| line.to_string()));
    }
}

#[test]
fn numbers_are_written_in_decimal() {
    let samples = [0_u64, 1, 9, 10, 19, 100, 101, 4294967295, 18446744073709551615];
    for sample in samples {
        assert_eq!(decimal(sample), sample.to_string());
    }
    assert_ne!(decimal(12), decimal(21));
}

#[test]
fn signed_numbers_are_written_in_decimal() {
    let samples = [0_i32, 1, -1, 255, -1073741515, 2147483647, -2147483648];
    for sample in samples {
        assert_eq!(signed_decimal(sample), sample.to_string());
    }
}

#[test]
fn lists_are_joined() {
    let mut list: Vec<String> = Vec::new();
    assert_eq!(join_texts(&list, ", "), "");
    push_text(&mut list, "a");
    assert_eq!(join_texts(&list, ", "), "a");
    push_text(&mut list, "b");
    push_text(&mut list, "");
    assert_eq!(list, vec!["a".to_string(), "b".to_string(), String::new()]);
    assert_eq!(join_texts(&list, ", "), "a, b, ");
}
