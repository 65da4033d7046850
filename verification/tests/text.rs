use golemate::text::{chars_of, join_lines, space, split_lines, split_words, string_of, terminate_lines};

fn word_strings(line: &str) -> Vec<String> {
    split_words(line).iter().map(|w| w.iter().collect()).collect()
}

#[test]
fn chars_of_keeps_every_character() {
    assert_eq!(chars_of("go ♞"), vec!['g', 'o', ' ', '♞']);
    assert_eq!(chars_of(""), Vec::<char>::new());
}

#[test]
fn string_of_takes_the_range() {
    let chars = chars_of("bestmove e2e4");
    assert_eq!(string_of(&chars, 9, 13), "e2e4");
    assert_eq!(string_of(&chars, 4, 4), "");
    assert_eq!(string_of(&chars, 0, 13), "bestmove e2e4");
}

#[test]
fn space_agrees_with_the_standard_library() {
    for code in 0u32..0x11_0000 {
        if let Some(c) = char::from_u32(code) {
            assert_eq!(space(c), c.is_whitespace(), "U+{:04X}", code);
        }
    }
}

#[test]
fn words_are_split_at_white_space() {
    assert_eq!(word_strings("info depth 20"), vec!["info", "depth", "20"]);
    assert_eq!(word_strings("  info\t depth\u{a0}20  "), vec!["info", "depth", "20"]);
    assert_eq!(word_strings("bestmove"), vec!["bestmove"]);
}

#[test]
fn a_blank_line_has_no_words() {
    assert!(split_words("").is_empty());
    assert!(split_words(" \t \r").is_empty());
}

#[test]
fn words_agree_with_split_whitespace() {
    let samples = [
        "info depth 20 seldepth 31 multipv 1 score cp 35 nodes 1000 pv e2e4 e7e5",
        " a  b\u{2003}c\u{3000}d\n",
        "\u{1680}x\u{85}y",
        "readyok",
    ];
    for line in samples {
        let expected: Vec<String> = line.split_whitespace().map(str::to_owned).collect();
        assert_eq!(word_strings(line), expected);
    }
}

#[test]
fn lines_end_at_line_feeds() {
    assert_eq!(split_lines("uciok\nreadyok\n"), vec!["uciok", "readyok"]);
    assert_eq!(split_lines("a\n\nb\n"), vec!["a", "", "b"]);
}

#[test]
fn carriage_return_before_line_feed_is_dropped() {
    assert_eq!(split_lines("uciok\r\nreadyok\r\n"), vec!["uciok", "readyok"]);
    assert_eq!(split_lines("a\r\r\n"), vec!["a\r"]);
    assert_eq!(split_lines("\r\n"), vec![""]);
    assert_eq!(split_lines("a\rb\n"), vec!["a\rb"]);
}

#[test]
fn unfinished_last_line_is_left_out() {
    assert_eq!(split_lines("info depth 1\nbestmove e2"), vec!["info depth 1"]);
    assert_eq!(split_lines("bestmove e2e4"), Vec::<String>::new());
    assert_eq!(split_lines(""), Vec::<String>::new());
}

#[test]
fn terminated_lines_each_end_in_a_line_feed() {
    let lines = vec!["uci".to_string(), "quit".to_string()];
    assert_eq!(terminate_lines(&lines), "uci\nquit\n");
    assert_eq!(terminate_lines(&Vec::new()), "");
}

#[test]
fn joined_lines_have_line_feeds_between_them() {
    let lines = vec!["uci".to_string(), "ucinewgame".to_string(), "quit".to_string()];
    assert_eq!(join_lines(&lines), "uci\nucinewgame\nquit");
    assert_eq!(join_lines(&vec!["uci".to_string()]), "uci");
    assert_eq!(join_lines(&Vec::new()), "");
}

#[test]
fn terminated_lines_split_back_into_the_lines() {
    let lines = vec!["uci".to_string(), "go depth 3".to_string(), "quit".to_string()];
    assert_eq!(split_lines(&terminate_lines(&lines)), lines);
}
