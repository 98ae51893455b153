use rdp_probe::targets::{read_targets, split_lines, TargetListError};

fn lines(text: &[u8]) -> Vec<Vec<u8>> {
    split_lines(&text.to_vec())
}

#[test]
fn lines_end_at_line_feeds() {
    assert_eq!(lines(b"10.0.0.1\n10.0.0.2\n"), vec![b"10.0.0.1".to_vec(), b"10.0.0.2".to_vec()]);
    assert_eq!(lines(b"10.0.0.1\n10.0.0.2"), vec![b"10.0.0.1".to_vec(), b"10.0.0.2".to_vec()]);
}

#[test]
fn empty_text_has_no_lines() {
    assert_eq!(lines(b""), Vec::<Vec<u8>>::new());
}

#[test]
fn blank_lines_are_lines() {
    assert_eq!(lines(b"\n"), vec![b"".to_vec()]);
    assert_eq!(lines(b"a\n\nb\n"), vec![b"a".to_vec(), b"".to_vec(), b"b".to_vec()]);
    assert_eq!(lines(b"\n\n"), vec![b"".to_vec(), b"".to_vec()]);
}

#[test]
fn carriage_return_before_line_feed_is_dropped() {
    assert_eq!(lines(b"a\r\nb\r\n"), vec![b"a".to_vec(), b"b".to_vec()]);
    assert_eq!(lines(b"a\r\r\n"), vec![b"a\r".to_vec()]);
    assert_eq!(lines(b"\r\n"), vec![b"".to_vec()]);
    assert_eq!(lines(b"a\rb\n"), vec![b"a\rb".to_vec()]);
}

#[test]
fn last_line_without_line_feed_is_taken_as_it_stands() {
    assert_eq!(lines(b"a\nb\r"), vec![b"a".to_vec(), b"b\r".to_vec()]);
    assert_eq!(lines(b"\r"), vec![b"\r".to_vec()]);
}

#[test]
fn targets_are_the_lines_as_text() {
    assert_eq!(
        read_targets(&b"10.0.0.1\r\nnot-an-ip\n\nh\xC3\xA9".to_vec()),
        Ok(vec![
            "10.0.0.1".to_string(),
            "not-an-ip".to_string(),
            "".to_string(),
            "h\u{e9}".to_string()
        ])
    );
    assert_eq!(read_targets(&Vec::new()), Ok(Vec::new()));
}

#[test]
fn first_line_that_is_no_text_is_reported() {
    assert_eq!(
        read_targets(&b"10.0.0.1\n\xFF\xFE\n10.0.0.3\n\xC3\n".to_vec()),
        Err(TargetListError::NotText(1))
    );
    assert_eq!(read_targets(&b"\xC3".to_vec()), Err(TargetListError::NotText(0)));
}

#[test]
fn text_that_is_valid_as_a_whole_is_a_target_list() {
    let text = "10.0.0.1\r\nh\u{e9}te\n\u{44f}\r\n\u{1f600}";
    assert_eq!(
        read_targets(&text.as_bytes().to_vec()),
        Ok(vec![
            "10.0.0.1".to_string(),
            "h\u{e9}te".to_string(),
            "\u{44f}".to_string(),
            "\u{1f600}".to_string()
        ])
    );
}
