use rwc::decimal::push_decimal;
use rwc::{do_count, format_open_error, format_results, CountResults, RequestedMetrics};

fn metrics(lines: bool, words: bool, bytes: bool, chars: bool, max_line_length: bool) -> RequestedMetrics {
    RequestedMetrics { lines, words, bytes, chars, max_line_length }
}

fn in_decimal(n: u64) -> String {
    let mut out = String::new();
    push_decimal(&mut out, n);
    out
}

#[test]
fn lines_words_and_bytes_of_two_lines() {
    let counts: CountResults = do_count("hello world\nfoo\n");
    let line = format_results(&counts, &metrics(true, true, true, false, false), "notes.txt");
    assert_eq!(line, "2 3 16 notes.txt");
}

#[test]
fn longest_line_of_empty_input() {
    let counts: CountResults = do_count("");
    let line = format_results(&counts, &metrics(false, false, false, false, true), "<stdin>");
    assert_eq!(line, "0 <stdin>");
}

#[test]
fn without_flags_only_the_label_is_written() {
    let counts: CountResults = do_count("some text\nof two lines\n");
    let line = format_results(&counts, &metrics(false, false, false, false, false), "a file");
    assert_eq!(line, "a file");
    let none: CountResults = do_count("");
    assert_eq!(format_results(&none, &metrics(false, false, false, false, false), ""), "");
}

#[test]
fn all_metrics_come_in_the_fixed_order() {
    let counts = CountResults { bytes: 3, chars: 4, lines: 1, words: 2, max_line_length: 5 };
    let line = format_results(&counts, &metrics(true, true, true, true, true), "f");
    assert_eq!(line, "1 2 3 4 5 f");
}

#[test]
fn each_metric_alone() {
    let counts = CountResults { bytes: 30, chars: 40, lines: 10, words: 20, max_line_length: 50 };
    assert_eq!(format_results(&counts, &metrics(true, false, false, false, false), "f"), "10 f");
    assert_eq!(format_results(&counts, &metrics(false, true, false, false, false), "f"), "20 f");
    assert_eq!(format_results(&counts, &metrics(false, false, true, false, false), "f"), "30 f");
    assert_eq!(format_results(&counts, &metrics(false, false, false, true, false), "f"), "40 f");
    assert_eq!(format_results(&counts, &metrics(false, false, false, false, true), "f"), "50 f");
}

#[test]
fn characters_and_longest_line() {
    let counts: CountResults = do_count("é€\nabc");
    let line = format_results(&counts, &metrics(false, false, true, true, true), "x y");
    assert_eq!(line, "10 7 3 x y");
}

#[test]
fn decimal_of_small_and_large_numbers() {
    assert_eq!(in_decimal(0), "0");
    assert_eq!(in_decimal(7), "7");
    assert_eq!(in_decimal(10), "10");
    assert_eq!(in_decimal(1234567890), "1234567890");
    assert_eq!(in_decimal(u64::MAX), "18446744073709551615");
}

#[test]
fn decimal_is_written_behind_what_is_there() {
    let mut out = String::from("n = ");
    push_decimal(&mut out, 405);
    assert_eq!(out, "n = 405");
}

#[test]
fn open_error_names_the_file_and_the_reason() {
    assert_eq!(
        format_open_error("missing.txt", "No such file or directory (os error 2)"),
        "missing.txt: No such file or directory (os error 2)"
    );
}
