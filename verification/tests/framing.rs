use cncd::framer::LineFramer;

#[test]
fn reassembly_across_two_deliveries() {
    let mut framer = LineFramer::new();
    let first = framer.feed("ok\na");
    assert_eq!(first, vec!["ok".to_string()]);
    assert_eq!(framer.buffered(), "a".to_string());
    let second = framer.feed("\n");
    assert_eq!(second, vec!["a".to_string()]);
    assert_eq!(framer.buffered(), "".to_string());
}

#[test]
fn single_delivery_of_two_lines() {
    let mut framer = LineFramer::new();
    let lines = framer.feed("ok\na\n");
    assert_eq!(lines, vec!["ok".to_string(), "a".to_string()]);
    assert_eq!(framer.buffered(), "".to_string());
}

#[test]
fn empty_chunk_changes_nothing() {
    let mut framer = LineFramer::new();
    framer.feed("par");
    let lines = framer.feed("");
    assert!(lines.is_empty());
    assert_eq!(framer.buffered(), "par".to_string());
}

#[test]
fn chunk_without_newline_only_buffers() {
    let mut framer = LineFramer::new();
    let lines = framer.feed("abc");
    assert!(lines.is_empty());
    assert_eq!(framer.buffered(), "abc".to_string());
}

#[test]
fn lone_newline_completes_empty_line() {
    let mut framer = LineFramer::new();
    let lines = framer.feed("\n\n");
    assert_eq!(lines, vec!["".to_string(), "".to_string()]);
    assert_eq!(framer.buffered(), "".to_string());
}

#[test]
fn chunking_does_not_change_the_lines() {
    let stream = "G0 X1\nG1 Y2\nok\npartial";
    let mut whole = LineFramer::new();
    let direct = whole.feed(stream);
    let cuts: Vec<Vec<&str>> = vec![
        vec!["G0 X1\nG1 Y2\nok\npartial"],
        vec!["G0 X1", "\nG1 Y2\n", "ok\npar", "tial"],
        vec!["G", "0 X1\n", "G1 Y2", "\nok", "\n", "partial"],
        vec!["G0 X1\n", "G1 Y2\n", "ok\n", "partial"],
    ];
    for chunks in cuts {
        let mut framer = LineFramer::new();
        let mut lines: Vec<String> = Vec::new();
        for chunk in chunks {
            lines.extend(framer.feed(chunk));
        }
        assert_eq!(lines, direct);
        assert_eq!(framer.buffered(), whole.buffered());
    }
}

#[test]
fn bytes_are_decoded_before_framing() {
    let mut framer = LineFramer::new();
    let lines = framer.feed_bytes(b"ok\nwai");
    assert_eq!(lines, vec!["ok".to_string()]);
    assert_eq!(framer.buffered(), "wai".to_string());
}

#[test]
fn invalid_bytes_become_replacement_characters() {
    let mut framer = LineFramer::new();
    let lines = framer.feed_bytes(&[0xff, 0xfe, b'\n']);
    assert_eq!(lines, vec!["\u{fffd}\u{fffd}".to_string()]);
    assert_eq!(framer.buffered(), "".to_string());
}

#[test]
fn multibyte_text_survives_framing() {
    let mut framer = LineFramer::new();
    let lines = framer.feed("héllo wörld\n");
    assert_eq!(lines, vec!["héllo wörld".to_string()]);
}
