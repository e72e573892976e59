use rwc::{do_count, try_count, CountResults};

fn counts(lines: u64, words: u64, bytes: u64, chars: u64, max_line_length: u64) -> CountResults {
    CountResults { bytes, chars, lines, words, max_line_length }
}

/// The counts as cutting the text at its line feeds and counting line by
/// line gives them, for comparison.
fn line_by_line(text: &str) -> CountResults {
    let mut res = counts(0, 0, 0, 0, 0);
    for line in text.split_terminator('\n') {
        let length: u64 = line.chars().count() as u64;
        res.lines += 1;
        res.bytes += line.len() as u64 + 1;
        res.words += line.split_whitespace().count() as u64;
        res.chars += length + 1;
        if length > res.max_line_length {
            res.max_line_length = length;
        }
    }
    res
}

#[test]
fn empty_text_has_zero_counts() {
    assert_eq!(do_count(""), counts(0, 0, 0, 0, 0));
}

#[test]
fn two_terminated_lines() {
    // 16 bytes: 11 + 1 + 3 + 1
    assert_eq!(do_count("hello world\nfoo\n"), counts(2, 3, 16, 16, 11));
}

#[test]
fn one_line_without_terminator_counts_as_terminated() {
    assert_eq!(do_count("hello"), counts(1, 1, 6, 6, 5));
}

#[test]
fn one_line_of_wide_characters() {
    // 'é' takes 2 bytes, '€' 3, '𝄞' 4, 'a' 1
    let text = "é€𝄞a";
    assert_eq!(text.len(), 10);
    assert_eq!(do_count(text), counts(1, 1, 11, 5, 4));
}

#[test]
fn last_line_without_terminator_is_a_line() {
    assert_eq!(do_count("a\nbc"), counts(2, 2, 5, 5, 2));
}

#[test]
fn a_lone_line_feed_is_one_empty_line() {
    assert_eq!(do_count("\n"), counts(1, 0, 1, 1, 0));
}

#[test]
fn empty_lines_are_lines() {
    assert_eq!(do_count("\n\n\n"), counts(3, 0, 3, 3, 0));
    assert_eq!(do_count("a\n\nb\n"), counts(3, 2, 5, 5, 1));
}

#[test]
fn carriage_return_before_line_feed_belongs_to_the_line() {
    assert_eq!(do_count("ab\r\n"), counts(1, 1, 4, 4, 3));
    assert_eq!(do_count("ab\r\ncd\r\n"), counts(2, 2, 8, 8, 3));
    assert_eq!(do_count("\r\n"), counts(1, 0, 2, 2, 1));
}

#[test]
fn carriage_return_elsewhere_belongs_to_the_line() {
    // at the end of a last line without line feed
    assert_eq!(do_count("ab\r"), counts(1, 1, 4, 4, 3));
    // in the middle of a line, where it parts two words
    assert_eq!(do_count("a\rb\n"), counts(1, 2, 4, 4, 3));
    // two of them before the line feed
    assert_eq!(do_count("a\r\r\n"), counts(1, 1, 4, 4, 3));
}

#[test]
fn only_a_line_feed_ends_a_line() {
    // vertical tab, form feed, next line, line separator, paragraph separator
    assert_eq!(do_count("a\u{b}b\u{c}c\u{85}d\u{2028}e\u{2029}f").lines, 1);
    assert_eq!(do_count("a\rb\rc").lines, 1);
}

#[test]
fn leading_and_trailing_whitespace_adds_no_word() {
    assert_eq!(do_count("  a  b  \n").words, 2);
    assert_eq!(do_count("   \n \t \n").words, 0);
}

#[test]
fn words_are_parted_by_any_unicode_whitespace() {
    // no-break space, ideographic space, en quad, next line
    assert_eq!(do_count("a\u{a0}b\u{3000}c\u{2000}d\u{85}e").words, 5);
    // a zero width space is no whitespace
    assert_eq!(do_count("a\u{200b}b").words, 1);
}

#[test]
fn more_whitespace_between_words_leaves_their_number() {
    let narrow: CountResults = do_count("one two\tthree\nfour");
    let wide: CountResults = do_count("one  \t two\t\n\t three\n\n  four");
    assert_eq!(narrow.words, 4);
    assert_eq!(wide.words, 4);
}

#[test]
fn counts_of_terminated_sources_add_up() {
    let first = "alpha beta\ngamma\n";
    let second = "a much longer line than before\nx";
    let a: CountResults = do_count(first);
    let b: CountResults = do_count(second);
    let both: CountResults = do_count(&format!("{}{}", first, second));
    assert_eq!(both.lines, a.lines + b.lines);
    assert_eq!(both.words, a.words + b.words);
    assert_eq!(both.bytes, a.bytes + b.bytes);
    assert_eq!(both.chars, a.chars + b.chars);
    assert_eq!(both.max_line_length, 30);
    assert_eq!(a.max_line_length, 10);
    assert_eq!(b.max_line_length, 30);
}

#[test]
fn an_unterminated_source_joins_its_last_line_to_the_next() {
    assert_eq!(do_count("a").lines + do_count("b").lines, 2);
    assert_eq!(do_count("ab"), counts(1, 1, 3, 3, 2));
}

#[test]
fn longest_line_is_measured_in_characters() {
    // three characters in nine bytes against four in four
    assert_eq!(do_count("€€€\nabcd\n").max_line_length, 4);
    assert_eq!(do_count("€€€€€\nabcd\n").max_line_length, 5);
}

#[test]
fn agrees_with_reading_line_by_line() {
    let texts = vec![
        "",
        "\n",
        "\r",
        "\r\n",
        "\n\r",
        "a",
        "a\n",
        "a\r\nb\rc\n\rd",
        "hello world\nfoo\n",
        "  leading\ttabs \u{a0} and\u{2003}wide   spaces  \n\n\nlast",
        "ünï cödé\n𝄞𝄞 𝄞\r\n€",
        "x\u{b}y\u{c}z\u{1680}w\u{2028}v\u{2029}u\u{202f}t\u{205f}s",
    ];
    for text in texts {
        assert_eq!(do_count(text), line_by_line(text));
    }
}

#[test]
fn a_text_of_ordinary_length_is_counted() {
    assert_eq!(try_count(""), Some(counts(0, 0, 0, 0, 0)));
    assert_eq!(try_count("hello world\nfoo\n"), Some(counts(2, 3, 16, 16, 11)));
    assert_eq!(try_count("é€\r\nx"), Some(counts(2, 2, 9, 6, 3)));
}
