use bytes::Bytes;
use twitter_stream::listen::{json_line, response_encoding, Encoding, JsonStr, MessageReader, Step};

#[test]
fn response_status_and_encoding() {
    assert_eq!(response_encoding(200, &[b"gzip".to_vec()]), Ok(Encoding::Gzip));
    assert_eq!(response_encoding(200, &[b"br".to_vec(), b"gzip".to_vec()]), Ok(Encoding::Gzip));
    assert_eq!(response_encoding(200, &[]), Ok(Encoding::Identity));
    assert_eq!(response_encoding(200, &[b"GZIP".to_vec()]), Ok(Encoding::Identity));
    assert_eq!(response_encoding(420, &[b"gzip".to_vec()]), Err(420));
    assert_eq!(response_encoding(401, &[]), Err(401));
}

#[test]
fn keep_alive_lines_are_skipped() {
    assert!(json_line(Bytes::from_static(b"")).is_none());
    assert!(json_line(Bytes::from_static(b" \r\n\t")).is_none());
    match json_line(Bytes::from_static(b"{\"a\":1}")) {
        Some(Ok(s)) => assert_eq!(s.as_str(), "{\"a\":1}"),
        other => panic!("unexpected {:?}", other),
    }
    assert!(matches!(json_line(Bytes::from_static(b" \xff")), Some(Err(_))));
}

#[test]
fn json_str() {
    assert_eq!(JsonStr::from_static("abc").as_str(), "abc");
    let s = JsonStr::from_utf8(Bytes::from_static("\u{3042}".as_bytes())).unwrap();
    assert_eq!(s.as_str(), "\u{3042}");
    assert_eq!(&s.into_bytes()[..], "\u{3042}".as_bytes());
    assert!(JsonStr::from_utf8(Bytes::from_static(b"\xc3")).is_err());
}

/// Reads the messages of a body given in chunks, as the stream does.
fn messages(chunks: &[&'static [u8]]) -> Vec<Result<String, ()>> {
    let mut reader = MessageReader::new();
    let mut chunks = chunks.iter();
    let mut out = Vec::new();
    let mut step = reader.poll();
    loop {
        match step {
            Step::Chunk => {
                step = reader.feed(chunks.next().map(|c| Bytes::from_static(c)));
                continue;
            }
            Step::Message(s) => out.push(Ok(s.as_str().to_owned())),
            Step::Invalid(_) => out.push(Err(())),
            Step::End => return out,
        }
        step = reader.poll();
    }
}

#[test]
fn reader_skips_blank_lines() {
    let out = messages(&[b"{\"a\":1}\r\n\r\n  \r", b"\n{\"b\"", b":2}\r\n", b"\xff\r\n{}"]);
    assert_eq!(
        out,
        vec![
            Ok("{\"a\":1}".to_owned()),
            Ok("{\"b\":2}".to_owned()),
            Err(()),
            Ok("{}".to_owned()),
        ]
    );
    assert!(messages(&[]).is_empty());
    assert!(messages(&[b"\r\n", b" \r\n", b"\t"]).is_empty());
}
