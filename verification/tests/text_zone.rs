use text_editor::text_zone::TextContent;

fn buffer(text: &str, cursor: (usize, usize)) -> TextContent {
    let mut b = TextContent::from_string(text.to_string());
    b.set_cursor(cursor);
    b
}

fn lines(b: &TextContent) -> Vec<String> {
    b.get_text()
}

#[test]
fn new_buffer_is_one_empty_line() {
    let b = TextContent::new();
    assert_eq!(lines(&b), vec![String::new()]);
    assert_eq!(b.get_cursor(), (0, 0));
    assert_eq!(b.line_count(), 1);
    assert_eq!(b.size(), (1, 0));
    assert!(b._empty());
}

#[test]
fn from_string_splits_on_line_feeds() {
    let b = TextContent::from_string("ab\ncd\n\nef".to_string());
    assert_eq!(lines(&b), vec!["ab", "cd", "", "ef"]);
    assert_eq!(b.get_cursor(), (0, 0));
}

#[test]
fn from_string_ignores_one_final_line_feed() {
    let b = TextContent::from_string("ab\ncd\n".to_string());
    assert_eq!(lines(&b), vec!["ab", "cd"]);
    let b = TextContent::from_string("ab\n\n".to_string());
    assert_eq!(lines(&b), vec!["ab", ""]);
}

#[test]
fn from_string_takes_carriage_return_line_feed_as_one_ending() {
    let b = TextContent::from_string("ab\r\ncd\r\n".to_string());
    assert_eq!(lines(&b), vec!["ab", "cd"]);
    let b = TextContent::from_string("a\rb\r".to_string());
    assert_eq!(lines(&b), vec!["a\rb\r"]);
    let b = TextContent::from_string("a\r\r\nb".to_string());
    assert_eq!(lines(&b), vec!["a\r", "b"]);
}

#[test]
fn from_string_agrees_with_the_standard_line_iterator() {
    for text in ["", "\n", "\r\n", "a", "a\n", "a\nb", "\n\na\r\n\r\nb\r", "x\r\n\ny\n\n"] {
        let b = TextContent::from_string(text.to_string());
        let mut expected: Vec<String> = text.lines().map(|l| l.to_string()).collect();
        if expected.is_empty() {
            expected.push(String::new());
        }
        assert_eq!(lines(&b), expected, "for {:?}", text);
    }
}

#[test]
fn from_empty_string_is_one_empty_line() {
    let b = TextContent::from_string(String::new());
    assert_eq!(lines(&b), vec![String::new()]);
    assert_eq!(b.line_count(), 1);
}

#[test]
fn get_string_joins_with_line_feeds() {
    let b = TextContent::from_string("ab\ncd\n\nef".to_string());
    assert_eq!(b.get_string(), "ab\ncd\n\nef");
    assert_eq!(TextContent::new().get_string(), "");
    assert_eq!(TextContent::from_string("a\r\nb\n".to_string()).get_string(), "a\nb");
}

#[test]
fn size_is_line_count_and_longest_line() {
    let b = TextContent::from_string("ab\nabcd\n\nabc".to_string());
    assert_eq!(b.line_count(), 4);
    assert_eq!(b.longest_line_length(), 4);
    assert_eq!(b.size(), (4, 4));
}

#[test]
fn insert_at_end_of_single_line() {
    let mut b = buffer("abc", (0, 3));
    b.append("d".to_string());
    assert_eq!(lines(&b), vec!["abcd"]);
    assert_eq!(b.get_cursor(), (0, 4));
}

#[test]
fn insert_in_the_middle_of_a_line() {
    let mut b = buffer("abef\nxy", (0, 2));
    b.append("cd".to_string());
    assert_eq!(lines(&b), vec!["abcdef", "xy"]);
    assert_eq!(b.get_cursor(), (0, 4));
}

#[test]
fn insert_at_end_of_a_line_that_is_not_the_last() {
    let mut b = buffer("ab\ncd", (0, 2));
    b.append("x".to_string());
    assert_eq!(lines(&b), vec!["abx", "cd"]);
    assert_eq!(b.get_cursor(), (0, 3));
}

#[test]
fn insert_nothing_at_end_of_a_line_wraps_like_a_move_right() {
    let mut b = buffer("ab\ncd", (0, 2));
    b.append(String::new());
    assert_eq!(lines(&b), vec!["ab", "cd"]);
    assert_eq!(b.get_cursor(), (1, 0));
    let mut b = buffer("ab\ncd", (1, 2));
    b.append(String::new());
    assert_eq!(b.get_cursor(), (1, 2));
}

#[test]
fn insert_uses_the_column_within_the_line() {
    let mut b = buffer("abcdef\nxy", (0, 6));
    b.move_cursor_down(1);
    b.append("z".to_string());
    assert_eq!(lines(&b), vec!["abcdef", "xyz"]);
    assert_eq!(b.get_cursor(), (1, 3));
}

#[test]
fn break_line_then_backspace_round_trip() {
    let mut b = buffer("abcd", (0, 1));
    b.break_line();
    assert_eq!(lines(&b), vec!["a", "bcd"]);
    assert_eq!(b.get_cursor(), (1, 0));
    b.remove();
    assert_eq!(lines(&b), vec!["abcd"]);
    assert_eq!(b.get_cursor(), (0, 1));
}

#[test]
fn break_line_round_trip_at_every_column() {
    for column in 0..=5 {
        let mut b = buffer("xy\nabcd\nz", (1, column));
        let before = (lines(&b), b.get_cursor());
        b.break_line();
        assert_eq!(b.line_count(), 4);
        assert_eq!(b.get_cursor(), (2, 0));
        b.remove();
        assert_eq!((lines(&b), b.get_cursor()), before);
    }
}

#[test]
fn break_line_at_end_adds_an_empty_line() {
    let mut b = buffer("ab\ncd", (0, 2));
    b.break_line();
    assert_eq!(lines(&b), vec!["ab", "", "cd"]);
    assert_eq!(b.get_cursor(), (1, 0));
}

#[test]
fn break_line_at_start_leaves_an_empty_line_above() {
    let mut b = buffer("ab", (0, 0));
    b.break_line();
    assert_eq!(lines(&b), vec!["", "ab"]);
    assert_eq!(b.get_cursor(), (1, 0));
}

#[test]
fn new_line_ignores_the_column() {
    let mut b = buffer("abcd\nef", (0, 2));
    b.new_line();
    assert_eq!(lines(&b), vec!["abcd", "", "ef"]);
    assert_eq!(b.get_cursor(), (1, 0));
}

#[test]
fn move_line_down_then_up() {
    let mut b = buffer("ab\ncd", (0, 1));
    b.move_line_down();
    assert_eq!(lines(&b), vec!["cd", "ab"]);
    assert_eq!(b.get_cursor(), (1, 1));
    b.move_line_up();
    assert_eq!(lines(&b), vec!["ab", "cd"]);
    assert_eq!(b.get_cursor(), (0, 1));
}

#[test]
fn move_line_stops_at_the_ends() {
    let mut b = buffer("ab\ncd", (0, 0));
    b.move_line_up();
    assert_eq!(lines(&b), vec!["ab", "cd"]);
    assert_eq!(b.get_cursor(), (0, 0));
    b.set_cursor((1, 0));
    b.move_line_down();
    assert_eq!(lines(&b), vec!["ab", "cd"]);
    assert_eq!(b.get_cursor(), (1, 0));
}

#[test]
fn move_line_in_a_longer_document() {
    let mut b = buffer("a\nb\nc\nd", (1, 0));
    b.move_line_down();
    assert_eq!(lines(&b), vec!["a", "c", "b", "d"]);
    assert_eq!(b.get_cursor(), (2, 0));
    b.move_line_down();
    assert_eq!(lines(&b), vec!["a", "c", "d", "b"]);
    b.move_line_up();
    b.move_line_up();
    b.move_line_up();
    assert_eq!(lines(&b), vec!["b", "a", "c", "d"]);
    assert_eq!(b.get_cursor(), (0, 0));
}

#[test]
fn backspace_at_document_start_does_nothing() {
    let mut b = buffer("ab\ncd", (0, 0));
    b.remove();
    assert_eq!(lines(&b), vec!["ab", "cd"]);
    assert_eq!(b.get_cursor(), (0, 0));
}

#[test]
fn backspace_joins_lines() {
    let mut b = buffer("ab\ncd\nef", (1, 0));
    b.remove();
    assert_eq!(lines(&b), vec!["abcd", "ef"]);
    assert_eq!(b.get_cursor(), (0, 2));
}

#[test]
fn backspace_deletes_the_character_before_the_cursor() {
    let mut b = buffer("abcd", (0, 2));
    b.remove();
    assert_eq!(lines(&b), vec!["acd"]);
    assert_eq!(b.get_cursor(), (0, 1));
}

#[test]
fn backspace_from_beyond_the_line_end_deletes_the_last_character() {
    let mut b = buffer("abcdef\nxy", (0, 6));
    b.move_cursor_down(1);
    b.remove();
    assert_eq!(lines(&b), vec!["abcdef", "x"]);
    assert_eq!(b.get_cursor(), (1, 1));
}

#[test]
fn set_cursor_clamps_line_and_column() {
    let mut b = buffer("ab\ncdef", (0, 0));
    b.set_cursor((7, 0));
    assert_eq!(b.get_cursor(), (1, 4));
    b.set_cursor((2, 1));
    assert_eq!(b.get_cursor(), (1, 4));
    b.set_cursor((usize::MAX, usize::MAX));
    assert_eq!(b.get_cursor(), (1, 4));
    b.set_cursor((0, 9));
    assert_eq!(b.get_cursor(), (0, 2));
    b.set_cursor((1, 3));
    assert_eq!(b.get_cursor(), (1, 3));
}

#[test]
fn vertical_moves_clamp_and_keep_the_column() {
    let mut b = buffer("abcdef\nxy\nabcdef", (0, 5));
    b.move_cursor_down(1);
    assert_eq!(b.get_cursor(), (1, 2));
    b.move_cursor_down(1);
    assert_eq!(b.get_cursor(), (2, 5));
    b.move_cursor_down(10);
    assert_eq!(b.get_cursor(), (2, 5));
    b.move_cursor_down(usize::MAX);
    assert_eq!(b.get_cursor(), (2, 5));
    b.move_cursor_up(1);
    assert_eq!(b.get_cursor(), (1, 2));
    b.move_cursor_up(usize::MAX);
    assert_eq!(b.get_cursor(), (0, 5));
}

#[test]
fn move_right_within_a_line_and_across_its_end() {
    let mut b = buffer("abc\nde", (0, 1));
    b.move_cursor_right(1);
    assert_eq!(b.get_cursor(), (0, 2));
    b.move_cursor_right(1);
    assert_eq!(b.get_cursor(), (0, 3));
    b.move_cursor_right(1);
    assert_eq!(b.get_cursor(), (1, 0));
    b.move_cursor_right(2);
    assert_eq!(b.get_cursor(), (1, 2));
    b.move_cursor_right(1);
    assert_eq!(b.get_cursor(), (1, 2));
}

#[test]
fn move_right_wraps_once_whatever_the_count() {
    let mut b = buffer("abc\nde\nfg", (0, 3));
    b.move_cursor_right(5);
    assert_eq!(b.get_cursor(), (1, 0));
    let mut b = buffer("abc\nde\nfg", (0, 1));
    b.move_cursor_right(5);
    assert_eq!(b.get_cursor(), (0, 3));
    b.move_cursor_right(1);
    assert_eq!(b.get_cursor(), (1, 0));
}

#[test]
fn move_right_by_the_largest_count_does_not_overflow() {
    let mut b = buffer("abc", (0, 1));
    b.move_cursor_right(usize::MAX);
    assert_eq!(b.get_cursor(), (0, 3));
}

#[test]
fn move_left_within_a_line_and_across_its_start() {
    let mut b = buffer("abc\nde", (1, 1));
    b.move_cursor_left(1);
    assert_eq!(b.get_cursor(), (1, 0));
    b.move_cursor_left(1);
    assert_eq!(b.get_cursor(), (0, 3));
    b.move_cursor_left(2);
    assert_eq!(b.get_cursor(), (0, 1));
    b.move_cursor_left(1);
    assert_eq!(b.get_cursor(), (0, 0));
    b.move_cursor_left(1);
    assert_eq!(b.get_cursor(), (0, 0));
}

#[test]
fn move_left_wraps_once_whatever_the_count() {
    let mut b = buffer("abc\nde\nfg", (2, 1));
    b.move_cursor_left(5);
    assert_eq!(b.get_cursor(), (1, 2));
    let mut b = buffer("abc\nde", (0, 1));
    b.move_cursor_left(2);
    assert_eq!(b.get_cursor(), (0, 3));
}

#[test]
fn snap_cursor_to_the_ends_of_the_line() {
    let mut b = buffer("abc\nde", (0, 1));
    b.snap_cursor_end_of_line();
    assert_eq!(b.get_cursor(), (0, 3));
    assert_eq!(b._current_line_length(), 3);
    b.snap_cursor_start_of_line();
    assert_eq!(b.get_cursor(), (0, 0));
}

#[test]
fn get_cursor_never_leaves_the_line() {
    let mut b = buffer("abcdef\n\nxyz", (0, 6));
    for _ in 0..3 {
        let (l, c) = b.get_cursor();
        assert!(c <= lines(&b)[l].chars().count());
        b.move_cursor_down(1);
    }
    b.move_cursor_up(1);
    assert_eq!(b.get_cursor(), (1, 0));
}

#[test]
fn a_buffer_never_runs_out_of_lines() {
    let mut b = TextContent::new();
    for _ in 0..3 {
        b.remove();
        b.move_line_up();
        b.move_line_down();
        assert_eq!(b.line_count(), 1);
    }
    b.append("a".to_string());
    b.remove();
    b.remove();
    assert_eq!(lines(&b), vec![String::new()]);
}

#[test]
fn text_with_characters_outside_ascii_counts_characters() {
    let mut b = buffer("h\u{e9}llo", (0, 2));
    b.append("\u{4e16}".to_string());
    assert_eq!(lines(&b), vec!["h\u{e9}\u{4e16}llo"]);
    assert_eq!(b.get_cursor(), (0, 3));
    assert_eq!(b.size(), (1, 6));
}

#[test]
fn written_text_reads_back_as_the_same_lines() {
    for text in ["", "a", "ab\ncd", "ab\n\ncd", "\n\nx", "a\rb\nc\r"] {
        let b = TextContent::from_string(text.to_string());
        let again = TextContent::from_string(b.get_string());
        assert_eq!(lines(&again), lines(&b), "for {:?}", text);
        assert_eq!(b.get_string(), text);
    }
}

#[test]
fn an_empty_last_line_is_not_read_back() {
    let mut b = buffer("ab", (0, 2));
    b.break_line();
    assert_eq!(lines(&b), vec!["ab", ""]);
    assert_eq!(b.get_string(), "ab\n");
    let again = TextContent::from_string(b.get_string());
    assert_eq!(lines(&again), vec!["ab"]);
}

#[test]
fn a_clone_is_a_buffer_of_its_own() {
    let mut b = buffer("ab\ncd", (1, 1));
    let c = b.clone();
    b.append("x".to_string());
    assert_eq!(lines(&c), vec!["ab", "cd"]);
    assert_eq!(c.get_cursor(), (1, 1));
    assert_eq!(lines(&b), vec!["ab", "cxd"]);
}
