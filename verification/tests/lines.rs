use bytes::Bytes;
use twitter_stream::crlf_lines::{Lines as CrlfLines, Next};
use twitter_stream::lines::Lines;

/// Runs the splitter over the chunks of a body, as the stream does.
fn split(chunks: &[&'static str]) -> Vec<String> {
    let mut lines = Lines::new();
    let mut out = Vec::new();
    let mut chunks = chunks.iter();
    loop {
        if let Some(l) = lines.next_line() {
            out.push(String::from_utf8(l.to_vec()).unwrap());
            continue;
        }
        match chunks.next() {
            Some(c) => {
                if let Some(l) = lines.push_chunk(Bytes::from_static(c.as_bytes())) {
                    out.push(String::from_utf8(l.to_vec()).unwrap());
                }
            }
            None => {
                if let Some(l) = lines.finish() {
                    out.push(String::from_utf8(l.to_vec()).unwrap());
                }
                return out;
            }
        }
    }
}

#[test]
fn util_lines() {
    let body = [
        "abc\r\n",
        "d\r\nefg\r\n",
        "hi",
        "jk",
        "",
        "\r\n",
        "\r\n",
        "lmn\r\nop",
        "q\rrs\r",
        "\n\n\rtuv\r\r\n",
        "wxyz\n",
    ];
    let concat = body.concat();
    let expected: Vec<&str> = concat.split("\r\n").collect();
    assert_eq!(split(&body), expected);
}

#[test]
fn lines_of_a_body_ending_with_crlf() {
    assert_eq!(split(&["a\r\nb\r", "\n"]), vec!["a", "b"]);
    assert_eq!(split(&[]), Vec::<String>::new());
    assert_eq!(split(&["", ""]), Vec::<String>::new());
}

/// Runs the splitter that keeps CRLFs over the chunks of a body.
fn split_keeping_crlf(chunks: &[&'static str]) -> Vec<String> {
    let mut lines = CrlfLines::new();
    let mut out = Vec::new();
    let mut chunks = chunks.iter();
    let mut next = lines.poll();
    loop {
        match next {
            Next::Line(l) => {
                out.push(String::from_utf8(l.to_vec()).unwrap());
                next = lines.poll();
            }
            Next::End => return out,
            Next::Chunk => {
                let chunk = chunks.next().map(|c| Bytes::from_static(c.as_bytes()));
                next = lines.feed(chunk);
            }
        }
    }
}

#[test]
fn util_lines_keeping_crlf() {
    let lines = vec![
        "abc\r\n",
        "d\r\n",
        "efg\r\n",
        "hijk\r\n",
        "\r\n",
        "lmn\r\n",
        "opq\rrs\r\n",
        "\n\rtuv\r\r\n",
        "wxyz",
    ];
    let body = [
        "abc\r\n",
        "d\r\nefg\r\n",
        "hi",
        "jk",
        "",
        "\r\n",
        "\r\n",
        "lmn\r\nop",
        "q\rrs\r",
        "\n\n\rtuv\r\r\n",
        "wxyz",
    ];
    assert_eq!(split_keeping_crlf(&body), lines);
}

#[test]
fn crlf_lines_keep_every_byte() {
    let body = ["ab", "c\r", "\nde\r\nf", "g"];
    let out = split_keeping_crlf(&body);
    assert_eq!(out, vec!["abc\r\n", "de\r\n", "fg"]);
    assert_eq!(out.concat(), body.concat());
}

#[test]
fn crlf_lines_after_empty_chunks() {
    // Empty chunks change nothing, at the start of a line or inside one.
    let out = split_keeping_crlf(&["", "a\r\nb", "c\r\n"]);
    assert_eq!(out, vec!["a\r\n", "bc\r\n"]);
    let out = split_keeping_crlf(&["", "", "a\r", "", "\nb"]);
    assert_eq!(out, vec!["a\r\n", "b"]);
}

#[test]
fn crlf_lines_end_at_a_line_boundary() {
    // A body that ends after a CRLF, or an empty body, ends with no empty last line.
    assert_eq!(split_keeping_crlf(&["abc\r\n"]), vec!["abc\r\n"]);
    assert_eq!(split_keeping_crlf(&["abc\r", "\n"]), vec!["abc\r\n"]);
    assert_eq!(split_keeping_crlf(&[]), Vec::<String>::new());
    assert_eq!(split_keeping_crlf(&[""]), Vec::<String>::new());
    // The rest after the last CRLF is the last line.
    assert_eq!(split_keeping_crlf(&["a\r\nb"]), vec!["a\r\n", "b"]);
}
