//! What happens to the response of the Streaming API: whether it is accepted, whether its body
//! is gzip-compressed, and which of its lines are messages.

use vstd::prelude::*;

use bytes::Bytes;

use std::str::Utf8Error;
use vstd::utf8::{encode_utf8, valid_utf8};

use crate::buffer::{bytes_as_slice, bytes_view};
use crate::lines::{contains_crlf, crlf_index, lemma_crlf_index, lines_of_finished_body, split_lines, Lines};
use crate::text::{is_json_whitespace, spec_json_whitespace};

verus! {

#[verifier::external_type_specification]
#[verifier::external_body]
pub struct ExUtf8Error(Utf8Error);

#[verifier::external_type_specification]
#[verifier::external_body]
pub struct ExIoError(std::io::Error);

/// An error while listening on a stream.
#[derive(Debug)]
pub enum Error<E> {
    /// The gzip-compressed body could not be decompressed.
    Gzip(std::io::Error),
    /// The server answered with a status other than `200 OK`.
    Http(u16),
    /// The HTTP client failed.
    Service(E),
    /// A message is not valid UTF-8.
    Utf8(Utf8Error),
}

/// How the body of an accepted response is encoded.
#[derive(Clone, Copy, Debug, PartialEq, Eq, Structural)]
pub enum Encoding {
    Gzip,
    Identity,
}

/// The header value `gzip`.
pub open spec fn gzip_name() -> Seq<u8> {
    seq![0x67u8, 0x7Au8, 0x69u8, 0x70u8]
}

/// Whether two byte strings are equal.
fn bytes_eq(a: &[u8], b: &[u8]) -> (r: bool)
    ensures
        r == (a@ == b@),
{
    if a.len() != b.len() {
        return false;
    }
    let mut i: usize = 0;
    while i < a.len()
        invariant
            a@.len() == b@.len(),
            i <= a@.len(),
            forall|j: int| 0 <= j < i ==> a@[j] == b@[j],
        decreases a@.len() - i,
    {
        if a[i] != b[i] {
            return false;
        }
        i = i + 1;
    }
    proof {
        assert(a@ =~= b@);
    }
    true
}

/// Decides on a response from its status and the values of its `Content-Encoding` headers:
/// any status but `200` is an error; the body is gzip-compressed when one of the values is
/// `gzip`.
pub fn response_encoding(status: u16, content_encodings: &[Vec<u8>]) -> (r: Result<Encoding, u16>)
    ensures
        status != 200 ==> r == Err::<Encoding, u16>(status),
        status == 200 ==> r == Ok::<Encoding, u16>(
            if exists|k: int| 0 <= k < content_encodings@.len() && #[trigger] content_encodings@[k]@ == gzip_name() {
                Encoding::Gzip
            } else {
                Encoding::Identity
            },
        ),
{
    if status != 200 {
        return Err(status);
    }
    let gzip: [u8; 4] = [0x67u8, 0x7Au8, 0x69u8, 0x70u8];
    proof {
        assert(gzip@ =~= gzip_name());
    }
    let mut i: usize = 0;
    while i < content_encodings.len()
        invariant
            i <= content_encodings@.len(),
            gzip@ == gzip_name(),
            status == 200,
            forall|k: int| 0 <= k < i ==> #[trigger] content_encodings@[k]@ != gzip_name(),
        decreases content_encodings@.len() - i,
    {
        if bytes_eq(content_encodings[i].as_slice(), gzip.as_slice()) {
            return Ok(Encoding::Gzip);
        }
        i = i + 1;
    }
    Ok(Encoding::Identity)
}

/// Whether every byte of `s` is JSON whitespace.
pub open spec fn all_whitespace(s: Seq<u8>) -> bool {
    forall|i: int| 0 <= i < s.len() ==> spec_json_whitespace(#[trigger] s[i])
}

/// `std::str::from_utf8`: the text when the bytes are valid UTF-8, an error otherwise.
#[verifier::external_body]
fn str_from_utf8(v: &[u8]) -> (r: Result<&str, Utf8Error>)
    ensures
        match r {
            Ok(s) => valid_utf8(v@) && encode_utf8(s@) == v@,
            Err(_) => !valid_utf8(v@),
        },
{
    std::str::from_utf8(v)
}

/// `Bytes::from_static`: a buffer over the bytes of a static text.
#[verifier::external_body]
fn bytes_from_static(s: &'static str) -> (b: Bytes)
    ensures
        bytes_view(b) == encode_utf8(s@),
{
    Bytes::from_static(s.as_bytes())
}

/// A JSON message: bytes that are valid UTF-8.
#[derive(Debug)]
pub struct JsonStr {
    inner: Bytes,
}

impl JsonStr {
    #[verifier::type_invariant]
    spec fn utf8(self) -> bool {
        valid_utf8(bytes_view(self.inner))
    }

    /// The bytes of the message.
    pub closed spec fn bytes(self) -> Seq<u8> {
        bytes_view(self.inner)
    }

    /// The message, when `v` is valid UTF-8.
    pub fn from_utf8(v: Bytes) -> (r: Result<Self, Utf8Error>)
        ensures
            valid_utf8(bytes_view(v)) ==> (r matches Ok(s) && s.bytes() == bytes_view(v)),
            !valid_utf8(bytes_view(v)) ==> r is Err,
    {
        match str_from_utf8(bytes_as_slice(&v)) {
            Ok(_) => Ok(JsonStr { inner: v }),
            Err(e) => Err(e),
        }
    }

    /// A message from a static text.
    pub fn from_static(s: &'static str) -> (r: Self)
        ensures
            r.bytes() == encode_utf8(s@),
    {
        proof {
            vstd::utf8::encode_utf8_valid_utf8(s@);
        }
        JsonStr { inner: bytes_from_static(s) }
    }

    /// The message as text.
    pub fn as_str(&self) -> (r: &str)
        ensures
            encode_utf8(r@) == self.bytes(),
    {
        proof {
            use_type_invariant(self);
        }
        match str_from_utf8(bytes_as_slice(&self.inner)) {
            Ok(s) => s,
            Err(_) => "",
        }
    }

    /// The bytes of the message.
    pub fn into_bytes(self) -> (r: Bytes)
        ensures
            bytes_view(r) == self.bytes(),
    {
        self.inner
    }
}

/// What becomes of a line of the body: a line of JSON whitespace only (the keep-alive sent
/// every 30 seconds) is skipped (`None`); any other line is a message if it is valid UTF-8,
/// and an error otherwise.
pub fn json_line(line: Bytes) -> (r: Option<Result<JsonStr, Utf8Error>>)
    ensures
        all_whitespace(bytes_view(line)) ==> r is None,
        !all_whitespace(bytes_view(line)) && valid_utf8(bytes_view(line)) ==> (r matches Some(
            Ok(s),
        ) && s.bytes() == bytes_view(line)),
        !all_whitespace(bytes_view(line)) && !valid_utf8(bytes_view(line)) ==> r matches Some(
            Err(_),
        ),
{
    let s = bytes_as_slice(&line);
    let mut i: usize = 0;
    while i < s.len()
        invariant
            i <= s@.len(),
            s@ == bytes_view(line),
            forall|j: int| 0 <= j < i ==> spec_json_whitespace(#[trigger] s@[j]),
        decreases s@.len() - i,
    {
        if !is_json_whitespace(s[i]) {
            return Some(JsonStr::from_utf8(line));
        }
        i = i + 1;
    }
    None
}

/// The lines that are not blank (JSON whitespace only), in order.
pub open spec fn non_blank(lines: Seq<Seq<u8>>) -> Seq<Seq<u8>>
    decreases lines.len(),
{
    if lines.len() == 0 {
        Seq::empty()
    } else if all_whitespace(lines.last()) {
        non_blank(lines.drop_last())
    } else {
        non_blank(lines.drop_last()).push(lines.last())
    }
}

/// What the reader of a stream's messages hands out.
#[derive(Debug)]
pub enum Step {
    /// The body's next chunk is needed: poll the body and hand its answer to
    /// [`MessageReader::feed`].
    Chunk,
    /// A message.
    Message(JsonStr),
    /// A line that is not valid UTF-8.
    Invalid(Utf8Error),
    /// The body has ended and every message has been handed out.
    End,
}

/// The reader of a stream's messages: the lines of the body that are not blank (the
/// keep-alive lines are skipped), each as a message if it is valid UTF-8 and as an error
/// otherwise.
pub struct MessageReader {
    lines: Lines,
    pending: bool,
    handed: Ghost<Seq<Seq<u8>>>,
}

impl MessageReader {
    /// The bytes of the body received so far.
    pub closed spec fn consumed(&self) -> Seq<u8> {
        self.lines.consumed()
    }

    /// The lines handed out so far (as messages or as errors).
    pub closed spec fn handed(&self) -> Seq<Seq<u8>> {
        self.handed@
    }

    /// Whether the reader asked for a chunk.
    pub closed spec fn is_pending(&self) -> bool {
        self.pending
    }

    /// Whether the body has ended.
    pub closed spec fn is_done(&self) -> bool {
        self.lines.is_done()
    }

    pub closed spec fn wf(&self) -> bool {
        &&& self.lines.wf()
        &&& self.handed@ == non_blank(self.lines.emitted())
        &&& self.pending ==> !self.lines.is_done() && !contains_crlf(self.lines.buffered())
    }

    /// A reader of a body of which nothing has been received.
    pub fn new() -> (r: Self)
        ensures
            r.wf(),
            !r.is_pending(),
            !r.is_done(),
            r.consumed() == Seq::<u8>::empty(),
            r.handed() == Seq::<Seq<u8>>::empty(),
    {
        MessageReader { lines: Lines::new(), pending: false, handed: Ghost(Seq::empty()) }
    }

    /// Hands out a line that is not blank, and notes it.
    fn hand(&mut self, line: Bytes) -> (r: Step)
        requires
            old(self).lines.wf(),
            old(self).lines.emitted().len() > 0,
            old(self).lines.emitted().last() == bytes_view(line),
            !all_whitespace(bytes_view(line)),
            old(self).handed@ == non_blank(old(self).lines.emitted().drop_last()),
        ensures
            final(self).lines == old(self).lines,
            final(self).pending == old(self).pending,
            final(self).handed@ == non_blank(old(self).lines.emitted()),
            final(self).handed@ == old(self).handed@.push(bytes_view(line)),
            match r {
                Step::Message(s) => s.bytes() == bytes_view(line) && valid_utf8(bytes_view(line)),
                Step::Invalid(_) => !valid_utf8(bytes_view(line)),
                _ => false,
            },
    {
        proof {
            self.handed@ = self.handed@.push(bytes_view(line));
        }
        let l = line;
        match json_line(l) {
            Some(Ok(s)) => Step::Message(s),
            Some(Err(e)) => Step::Invalid(e),
            None => Step::End,
        }
    }

    /// The next message among the lines already received; otherwise a chunk is asked for, or,
    /// once the body has ended, the end is reported.
    pub fn poll(&mut self) -> (r: Step)
        requires
            old(self).wf(),
        ensures
            final(self).wf(),
            final(self).consumed() == old(self).consumed(),
            final(self).is_done() == old(self).is_done(),
            match r {
                Step::Chunk => final(self).is_pending() && final(self).handed() == old(self).handed(),
                Step::Message(s) => !final(self).is_pending() && final(self).handed() == old(
                    self).handed().push(s.bytes()) && valid_utf8(s.bytes()),
                Step::Invalid(_) => !final(self).is_pending() && final(self).handed().len() == old(
                    self).handed().len() + 1 && final(self).handed().drop_last() == old(self).handed()
                    && !valid_utf8(final(self).handed().last()),
                Step::End => final(self).is_done() && final(self).handed() == old(self).handed()
                    && final(self).handed() == non_blank(split_lines(final(self).consumed())),
            },
    {
        self.pending = false;
        loop
            invariant
                self.wf(),
                !self.pending,
                self.consumed() == old(self).consumed(),
                self.is_done() == old(self).is_done(),
                self.handed() == old(self).handed(),
            decreases self.lines.buffered().len(),
        {
            let ghost b = self.lines.buffered();
            let ghost e0 = self.lines.emitted();
            proof {
                lemma_crlf_index(b);
            }
            match self.lines.next_line() {
                Some(line) => {
                    proof {
                        assert(self.lines.emitted().drop_last() =~= e0);
                    }
                    if !is_blank(&line) {
                        return self.hand(line);
                    }
                },
                None => {
                    if self.lines.is_finished() {
                        proof {
                            lines_of_finished_body(&self.lines);
                        }
                        return Step::End;
                    }
                    self.pending = true;
                    return Step::Chunk;
                },
            }
        }
    }

    /// Takes the body's answer to a request for a chunk: the next chunk, or `None` at the end
    /// of the body.
    pub fn feed(&mut self, chunk: Option<Bytes>) -> (r: Step)
        requires
            old(self).wf(),
            old(self).is_pending(),
        ensures
            final(self).wf(),
            final(self).consumed() == old(self).consumed() + match chunk {
                Some(c) => bytes_view(c),
                None => Seq::empty(),
            },
            final(self).is_done() == (chunk is None),
            match r {
                Step::Chunk => final(self).is_pending() && final(self).handed() == old(self).handed(),
                Step::Message(s) => !final(self).is_pending() && final(self).handed() == old(
                    self).handed().push(s.bytes()) && valid_utf8(s.bytes()),
                Step::Invalid(_) => !final(self).is_pending() && final(self).handed().len() == old(
                    self).handed().len() + 1 && final(self).handed().drop_last() == old(self).handed()
                    && !valid_utf8(final(self).handed().last()),
                Step::End => final(self).is_done() && final(self).handed() == old(self).handed()
                    && final(self).handed() == non_blank(split_lines(final(self).consumed())),
            },
    {
        self.pending = false;
        let ghost e0 = self.lines.emitted();
        match chunk {
            Some(c) => {
                let ghost cs = bytes_view(c);
                match self.lines.push_chunk(c) {
                    Some(line) => {
                        proof {
                            assert(self.lines.emitted().drop_last() =~= e0);
                        }
                        if !is_blank(&line) {
                            return self.hand(line);
                        }
                        self.poll()
                    },
                    None => {
                        proof {
                            lemma_crlf_index(self.lines.buffered());
                        }
                        self.pending = true;
                        Step::Chunk
                    },
                }
            },
            None => {
                let ghost consumed0 = self.lines.consumed();
                let last = self.lines.finish();
                proof {
                    assert(consumed0 + Seq::<u8>::empty() =~= consumed0);
                    lines_of_finished_body(&self.lines);
                }
                match last {
                    Some(line) => {
                        proof {
                            assert(self.lines.emitted().drop_last() =~= e0);
                        }
                        if !is_blank(&line) {
                            return self.hand(line);
                        }
                        Step::End
                    },
                    None => Step::End,
                }
            },
        }
    }
}

/// Once the body has ended, the lines handed out are exactly the lines of the body that are
/// not blank, in order.
pub proof fn messages_of_finished_body(r: &MessageReader)
    requires
        r.wf(),
        r.is_done(),
    ensures
        r.handed() == non_blank(split_lines(r.consumed())),
{
    lines_of_finished_body(&r.lines);
}

/// Whether a line is blank (JSON whitespace only).
fn is_blank(line: &Bytes) -> (r: bool)
    ensures
        r == all_whitespace(bytes_view(*line)),
{
    let s = bytes_as_slice(line);
    let mut i: usize = 0;
    while i < s.len()
        invariant
            i <= s@.len(),
            s@ == bytes_view(*line),
            forall|j: int| 0 <= j < i ==> spec_json_whitespace(#[trigger] s@[j]),
        decreases s@.len() - i,
    {
        if !is_json_whitespace(s[i]) {
            return false;
        }
        i = i + 1;
    }
    true
}

} // verus!
