use pete_runtime::transitions::transition_record_lines;

#[test]
fn record_lines_skip_blank_lines_and_keep_order() {
    let text = "{\"a\":1}\n\n   \n{\"b\":2}\n";
    assert_eq!(
        transition_record_lines(text),
        vec!["{\"a\":1}".to_string(), "{\"b\":2}".to_string()]
    );
}

#[test]
fn record_lines_drop_carriage_returns() {
    let text = "{\"a\":1}\r\n{\"b\":2}\r\n\r\n";
    assert_eq!(
        transition_record_lines(text),
        vec!["{\"a\":1}".to_string(), "{\"b\":2}".to_string()]
    );
}

#[test]
fn record_lines_keep_a_last_line_without_line_feed() {
    assert_eq!(
        transition_record_lines("x\ny"),
        vec!["x".to_string(), "y".to_string()]
    );
}

#[test]
fn record_lines_of_empty_or_white_text_are_none() {
    assert!(transition_record_lines("").is_empty());
    assert!(transition_record_lines("\n\t \u{3000}\n\u{a0}").is_empty());
}

#[test]
fn record_lines_agree_with_std_lines_and_trim() {
    let text = "  lead\n\u{2003}\nmid \r\n\r\ntail\r";
    let expected: Vec<String> = text
        .lines()
        .filter(|line| !line.trim().is_empty())
        .map(|line| line.to_string())
        .collect();
    assert_eq!(transition_record_lines(text), expected);
}

#[test]
fn record_lines_keep_a_lone_carriage_return_at_the_end() {
    assert_eq!(
        transition_record_lines("a\r\nb\r"),
        vec!["a".to_string(), "b\r".to_string()]
    );
}
