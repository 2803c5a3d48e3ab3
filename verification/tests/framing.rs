use rpc_it::framing::{by_delim, find, FramingAdvanceResult};

#[test]
fn find_first_occurrence() {
    assert_eq!(find(b"abcabc", b"bc"), Some(1));
    assert_eq!(find(b"abc", b""), Some(0));
    assert_eq!(find(b"abc", b"abcd"), None);
    assert_eq!(find(b"aaab", b"ab"), Some(2));
    assert_eq!(find(b"", b"x"), None);
}

#[test]
fn delimiter_framing_advances() {
    let mut f = by_delim(b"\r\n");
    assert_eq!(f.try_framing(b"ab\r\ncd"), Ok(Some(FramingAdvanceResult { valid_data_end: 2, next_frame_start: 4 })));
    assert_eq!(f.cursor(), 4);
    assert_eq!(f.try_framing(b"ab\r\ncd\r\n"), Ok(Some(FramingAdvanceResult { valid_data_end: 6, next_frame_start: 8 })));
    f.advance();
    assert_eq!(f.cursor(), 0);
    assert_eq!(f.try_framing(b"abc"), Ok(None));
    assert_eq!(f.cursor(), 1);
    assert_eq!(f.next_buffer_size(), None);
    let mut g = by_delim(b"--");
    assert_eq!(g.try_framing(b"-"), Ok(None));
    assert_eq!(g.cursor(), 0);
}
