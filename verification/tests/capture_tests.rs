use watch_rs::capture::{find_marker, frame_command, OutputScanner};
use watch_rs::sentinel::{SentinelToken, SENTINEL_LEN};

fn test_token() -> SentinelToken {
    let mut bytes = Vec::new();
    while bytes.len() < SENTINEL_LEN {
        for b in b"Qz7RkT2mWp".iter() {
            bytes.push(*b);
        }
    }
    bytes.truncate(SENTINEL_LEN);
    SentinelToken { bytes }
}

#[test]
fn generated_sentinel_is_long_and_alphanumeric() {
    let t = SentinelToken::generate();
    assert_eq!(t.bytes.len(), SENTINEL_LEN);
    assert!(SENTINEL_LEN >= 64);
    for b in t.bytes.iter() {
        assert!(b.is_ascii_alphanumeric());
    }
}

#[test]
fn generated_sentinels_differ_between_sessions() {
    let a = SentinelToken::generate();
    let b = SentinelToken::generate();
    assert_ne!(a.bytes, b.bytes);
}

#[test]
fn frame_command_appends_printf_line() {
    let token = test_token();
    let framed = frame_command(b"echo hi", &token);
    let mut expected: Vec<u8> = Vec::new();
    expected.extend_from_slice(b"echo hi\nprintf '");
    expected.extend_from_slice(&token.bytes);
    expected.extend_from_slice(b"'\n");
    assert_eq!(framed, expected);
}

#[test]
fn find_marker_returns_first_occurrence() {
    let hay: Vec<u8> = b"xxAByyABzz".to_vec();
    let marker: Vec<u8> = b"AB".to_vec();
    assert_eq!(find_marker(&hay, &marker), Some(2));
    let absent: Vec<u8> = b"CD".to_vec();
    assert_eq!(find_marker(&hay, &absent), None);
    let at_start: Vec<u8> = b"ABrest".to_vec();
    assert_eq!(find_marker(&at_start, &marker), Some(0));
}

#[test]
fn capture_excludes_sentinel_and_matches_split_chunks() {
    let token = test_token();
    let mut scanner = OutputScanner::new(&token);
    scanner.push_chunk(b"hello\n");
    assert!(scanner.try_capture().is_none());
    // hand the sentinel over split across three chunks
    scanner.push_chunk(&token.bytes[..40]);
    assert!(scanner.try_capture().is_none());
    scanner.push_chunk(&token.bytes[40..70]);
    assert!(scanner.try_capture().is_none());
    scanner.push_chunk(&token.bytes[70..]);
    let cap = scanner.try_capture().expect("sentinel arrived in full");
    assert_eq!(cap, b"hello\n".to_vec());
    // the capture never holds the sentinel
    assert_eq!(find_marker(&cap, &token.bytes), None);
}

#[test]
fn consecutive_captures_do_not_leak_between_commands() {
    let token = test_token();
    let mut scanner = OutputScanner::new(&token);
    // both commands' output arrives in one burst
    let mut burst: Vec<u8> = Vec::new();
    burst.extend_from_slice(b"one\n");
    burst.extend_from_slice(&token.bytes);
    burst.extend_from_slice(b"two\n");
    burst.extend_from_slice(&token.bytes);
    scanner.push_chunk(&burst);
    let first = scanner.try_capture().expect("first capture");
    assert_eq!(first, b"one\n".to_vec());
    let second = scanner.try_capture().expect("second capture");
    assert_eq!(second, b"two\n".to_vec());
    assert!(scanner.try_capture().is_none());
}

#[test]
fn empty_output_gives_empty_capture() {
    let token = test_token();
    let mut scanner = OutputScanner::new(&token);
    scanner.push_chunk(&token.bytes);
    let cap = scanner.try_capture().expect("capture");
    assert_eq!(cap, Vec::<u8>::new());
}
