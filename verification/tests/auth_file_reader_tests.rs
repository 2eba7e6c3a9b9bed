use auth_monitor::auth_file_reader::{AuthFileReader, ReadStep, NEWLINE};

fn lines_of(texts: &[&str]) -> Vec<Vec<u8>> {
    texts.iter().map(|text| text.as_bytes().to_vec()).collect()
}

#[test]
fn new_reader_stands_at_the_start() {
    let reader = AuthFileReader::new(1024);
    assert_eq!(reader.position(), 0);
    assert!(!reader.is_file_has_been_truncated(0));
    assert_eq!(NEWLINE, b'\n');
}

#[test]
fn each_appended_line_is_read_once_and_in_order() {
    let mut reader = AuthFileReader::new(16);
    let mut file: Vec<u8> = Vec::new();
    assert!(reader.read_new_lines(&file).is_empty());
    file.extend_from_slice(b"one\n");
    assert_eq!(reader.read_new_lines(&file), lines_of(&["one\n"]));
    assert!(reader.read_new_lines(&file).is_empty());
    file.extend_from_slice(b"two\nthree\n");
    assert_eq!(reader.read_new_lines(&file), lines_of(&["two\n", "three\n"]));
    assert!(reader.read_new_lines(&file).is_empty());
    assert_eq!(reader.position(), file.len() as u64);
}

#[test]
fn line_is_not_read_before_it_has_ended() {
    let mut reader = AuthFileReader::new(16);
    let mut file: Vec<u8> = b"whole\npart".to_vec();
    assert_eq!(reader.read_new_lines(&file), lines_of(&["whole\n"]));
    assert_eq!(reader.position(), 10);
    file.extend_from_slice(b"ial");
    assert!(reader.read_new_lines(&file).is_empty());
    file.extend_from_slice(b" line\nnext");
    assert_eq!(reader.read_new_lines(&file), lines_of(&["partial line\n"]));
    file.extend_from_slice(b"\n");
    assert_eq!(reader.read_new_lines(&file), lines_of(&["next\n"]));
}

#[test]
fn empty_lines_are_lines() {
    let mut reader = AuthFileReader::new(0);
    assert_eq!(
        reader.read_new_lines(b"\n\na\n\n"),
        lines_of(&["\n", "\n", "a\n", "\n"])
    );
}

#[test]
fn bytes_that_are_no_text_pass_through() {
    let mut reader = AuthFileReader::new(0);
    let lines = reader.accept(&[0xff, 0x00, b'\n', 0xc3]);
    assert_eq!(lines, vec![vec![0xff, 0x00, b'\n']]);
    let lines = reader.accept(&[0xa9, b'\r', b'\n']);
    assert_eq!(lines, vec![vec![0xc3, 0xa9, b'\r', b'\n']]);
}

#[test]
fn chunks_give_what_one_read_gives() {
    let content = b"first line\nsecond\n\nfourth line is longer\nunfinished";
    let mut whole = AuthFileReader::new(8);
    let expected = whole.accept(content);
    assert_eq!(
        expected,
        lines_of(&["first line\n", "second\n", "\n", "fourth line is longer\n"])
    );
    for chunk_size in 1..content.len() {
        let mut reader = AuthFileReader::new(8);
        let mut lines = Vec::new();
        for chunk in content.chunks(chunk_size) {
            lines.extend(reader.accept(chunk));
        }
        assert_eq!(lines, expected);
        assert_eq!(reader.position(), content.len() as u64);
        assert_eq!(reader.accept(b"\n"), lines_of(&["unfinished\n"]));
    }
}

#[test]
fn content_before_the_seek_to_end_is_not_read() {
    let mut file: Vec<u8> = b"old one\nold two\nold par".to_vec();
    let mut reader = AuthFileReader::new(16);
    reader.seek_to_end(file.len() as u64);
    assert_eq!(reader.position(), file.len() as u64);
    assert!(reader.read_new_lines(&file).is_empty());
    file.extend_from_slice(b"t\nnew\n");
    assert_eq!(reader.read_new_lines(&file), lines_of(&["t\n", "new\n"]));
}

#[test]
fn seek_to_end_drops_the_unfinished_line() {
    let mut reader = AuthFileReader::new(16);
    assert!(reader.accept(b"unfinished").is_empty());
    reader.seek_to_end(100);
    assert_eq!(reader.position(), 100);
    assert_eq!(reader.accept(b"new\n"), lines_of(&["new\n"]));
    assert_eq!(reader.position(), 104);
}

#[test]
fn truncated_file_is_read_from_its_start() {
    let mut reader = AuthFileReader::new(16);
    assert_eq!(
        reader.read_new_lines(b"first\nsecond\nthi"),
        lines_of(&["first\n", "second\n"])
    );
    assert!(reader.is_file_has_been_truncated(0));
    assert!(reader.read_new_lines(b"").is_empty());
    assert_eq!(reader.position(), 0);
    assert_eq!(reader.read_new_lines(b"new\n"), lines_of(&["new\n"]));
    assert_eq!(reader.position(), 4);
}

#[test]
fn truncation_seen_after_new_lines_were_appended() {
    let mut reader = AuthFileReader::new(16);
    assert_eq!(
        reader.read_new_lines(b"a long first line\npart"),
        lines_of(&["a long first line\n"])
    );
    assert_eq!(
        reader.read_new_lines(b"new\nlines\n"),
        lines_of(&["new\n", "lines\n"])
    );
    assert_eq!(reader.position(), 10);
}

#[test]
fn file_is_truncated_only_where_it_ends_before_the_offset() {
    let mut reader = AuthFileReader::new(16);
    reader.seek_to_end(10);
    assert!(!reader.is_file_has_been_truncated(11));
    assert!(!reader.is_file_has_been_truncated(10));
    assert!(reader.is_file_has_been_truncated(9));
    assert!(reader.is_file_has_been_truncated(0));
}

#[test]
fn end_of_data_rewinds_or_stops() {
    let mut reader = AuthFileReader::new(16);
    reader.seek_to_end(10);
    assert_eq!(reader.end_of_data(10), ReadStep::Stop);
    assert_eq!(reader.position(), 10);
    assert_eq!(reader.end_of_data(25), ReadStep::Stop);
    assert_eq!(reader.position(), 10);
    assert!(reader.accept(b"tail").is_empty());
    assert_eq!(reader.end_of_data(9), ReadStep::Rewind);
    assert_eq!(reader.position(), 0);
    assert_eq!(reader.end_of_data(9), ReadStep::Stop);
    assert_eq!(reader.accept(b"head\n"), lines_of(&["head\n"]));
}
