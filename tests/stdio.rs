use wasm_watchdog::{append_text, text_of, Stderr, Stdin, StdioError, Stdout};

#[test]
fn stdout_round_trip() {
    let mut out = Stdout::new();
    assert_eq!(out.write(b"pi"), 2);
    out.write_all(b"ng");
    out.flush();
    assert_eq!(out.bytes_available(), 0);
    assert_eq!(out.take_buffer(), b"ping".to_vec());
    assert_eq!(out.take_buffer(), Vec::<u8>::new());
}

fn read_all(stdin: &mut Stdin, chunks: &mut Vec<Option<Result<Vec<u8>, String>>>, max: usize) -> Result<Vec<u8>, StdioError> {
    let mut all = Vec::new();
    loop {
        let mut got = 0;
        while stdin.poll_data(|| chunks.remove(0))? {
            let part = stdin.take(max - got);
            got += part.len();
            all.extend(part);
            if got == max {
                break;
            }
        }
        if got == 0 {
            return Ok(all);
        }
    }
}

#[test]
fn stdin_round_trip() {
    let mut chunks = vec![
        Some(Ok(b"pi".to_vec())),
        Some(Ok(Vec::new())),
        Some(Ok(b"ng!".to_vec())),
        None,
    ];
    let mut stdin = Stdin::new();
    let all = read_all(&mut stdin, &mut chunks, 2).unwrap();
    assert_eq!(all, b"ping!".to_vec());
    assert!(stdin.is_eof());
    assert_eq!(stdin.bytes_available(), 0);
    assert_eq!(text_of(&all).unwrap(), "ping!");
}

#[test]
fn stdin_transport_error_ends_stream() {
    let mut chunks = vec![Some(Ok(b"ab".to_vec())), Some(Err("reset".to_string()))];
    let mut stdin = Stdin::new();
    assert!(stdin.poll_data(|| chunks.remove(0)).unwrap());
    assert_eq!(stdin.bytes_available(), 2);
    assert_eq!(stdin.take(10), b"ab".to_vec());
    match stdin.poll_data(|| chunks.remove(0)) {
        Err(StdioError::Transport(m)) => assert_eq!(m, "reset"),
        _ => panic!("expected a transport error"),
    }
    assert!(stdin.has_failed());
    // the failure stays: every later poll reports it, without receiving
    match stdin.poll_data(|| panic!("no receive after a failure")) {
        Err(StdioError::Transport(m)) => assert_eq!(m, "reset"),
        _ => panic!("expected the transport error again"),
    }
}

#[test]
fn stdin_accepts_each_arrival() {
    let mut stdin = Stdin::new();
    assert!(stdin.accept_chunk(Some(Ok(b"xy".to_vec()))).unwrap());
    assert_eq!(stdin.bytes_available(), 2);
    assert_eq!(stdin.take(1), b"x".to_vec());
    assert_eq!(stdin.take(5), b"y".to_vec());
    assert!(!stdin.accept_chunk(None).unwrap());
    assert!(stdin.is_eof());
    assert!(!stdin.poll_data(|| panic!("no receive after the end")).unwrap());
    let mut failing = Stdin::new();
    assert!(matches!(failing.accept_chunk(Some(Err("gone".to_string()))), Err(StdioError::Transport(m)) if m == "gone"));
}

#[test]
fn append_text_only_when_utf8() {
    let mut s = String::from("a");
    assert!(matches!(append_text(&mut s, &vec![0xff]), Err(StdioError::InvalidData)));
    assert_eq!(s, "a");
    assert_eq!(append_text(&mut s, &"bé".as_bytes().to_vec()).unwrap(), 3);
    assert_eq!(s, "abé");
}

#[test]
fn invalid_utf8_is_refused() {
    assert!(matches!(text_of(&vec![0xff, 0x41]), Err(StdioError::InvalidData)));
    assert_eq!(text_of(&"é".as_bytes().to_vec()).unwrap(), "é");
}

#[test]
fn stderr_flushes_prefixed_lines() {
    let mut err = Stderr::new("w1".to_string(), true, 7);
    assert_eq!(err.bytes_available(), 0);
    assert!(err.write(b"ab\n").unwrap().is_empty());
    let out = err.write(b"\ncd\n").unwrap();
    assert_eq!(
        out,
        vec!["[watchdog function] w1: ab\n".to_string(), "[watchdog function] w1: cd\n".to_string()]
    );
    assert!(err.flush_inner().unwrap().is_empty());
}

#[test]
fn stderr_raw_and_invalid() {
    let mut err = Stderr::new("w".to_string(), false, 100);
    assert!(err.write(b"x\ny").unwrap().is_empty());
    assert_eq!(err.flush_inner().unwrap(), vec!["x\ny".to_string()]);
    let mut bad = Stderr::new("w".to_string(), true, 1);
    assert!(matches!(bad.write(&[0xc3]), Err(StdioError::InvalidData)));
    assert!(matches!(bad.flush_inner(), Err(StdioError::InvalidData)));
    let out = bad.write(&[0xa9]).unwrap();
    assert_eq!(out, vec!["[watchdog function] w: é\n".to_string()]);
}
