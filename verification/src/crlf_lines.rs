//! Splitting a body into lines that keep their CRLF, for [`TwitterStreamBuilder`](crate::stream_builder::TwitterStreamBuilder) streams.
//!
//! [`Lines`] is driven by its owner: [`Lines::poll`] starts a request for the next line and
//! [`Lines::feed`] hands it the body's next chunk (or the end of the body) whenever it asked
//! for one with [`Next::Chunk`]. When the body is not ready, the owner simply calls
//! [`Lines::poll`] again later. The lines handed out, followed by what is still buffered, are
//! the body received so far; and every line but one handed out at the end of the body ends
//! with its CRLF and holds no other. Empty chunks change nothing.

use vstd::prelude::*;

use bytes::Bytes;

use crate::buffer::{bytes_as_slice, bytes_new, bytes_split_to, bytes_view, memmem_find, occurs_at};
use crate::lines::{
    concat_bytes, contains_crlf, crlf_at, crlf_index, lemma_crlf_index, lemma_crlf_index_concat,
    lemma_crlf_index_is,
};

verus! {

/// The lines, one after the other.
pub open spec fn flatten(lines: Seq<Seq<u8>>) -> Seq<u8>
    decreases lines.len(),
{
    if lines.len() == 0 {
        Seq::empty()
    } else {
        flatten(lines.drop_last()) + lines.last()
    }
}

/// `l` ends with a CRLF, and that is its first CRLF.
pub open spec fn crlf_terminated(l: Seq<u8>) -> bool {
    l.len() >= 2 && crlf_index(l) == l.len() - 2
}

/// Where the splitter waits for a chunk: at the start of a line with an empty buffer, or while
/// extending a buffered piece that has no CRLF.
#[derive(Clone, Copy, Debug, PartialEq, Eq, Structural)]
pub enum Wait {
    Start,
    Extend,
}

/// What the owner is to do next.
pub enum Next {
    /// Poll the body and hand its answer to [`Lines::feed`].
    Chunk,
    /// A line.
    Line(Bytes),
    /// The body has ended and every line has been handed out.
    End,
}

/// A splitter of a body into CRLF-terminated lines.
pub struct Lines {
    buf: Bytes,
    wait: Wait,
    pending: bool,
    done: bool,
    consumed: Ghost<Seq<u8>>,
    emitted: Ghost<Seq<Seq<u8>>>,
}

/// Splits the first line, with its CRLF, off `buf`; `buf` is left as it is when it holds no
/// CRLF.
fn take_first_line(buf: &mut Bytes) -> (line: Option<Bytes>)
    ensures
        crlf_index(bytes_view(*old(buf))) < 0 ==> line is None && bytes_view(*final(buf))
            == bytes_view(*old(buf)),
        crlf_index(bytes_view(*old(buf))) >= 0 ==> line is Some && bytes_view(line->0)
            == bytes_view(*old(buf)).take(crlf_index(bytes_view(*old(buf))) + 2)
            && bytes_view(*final(buf)) == bytes_view(*old(buf)).skip(
            crlf_index(bytes_view(*old(buf))) + 2,
        ),
{
    let ghost s = bytes_view(*buf);
    let crlf: [u8; 2] = [13u8, 10u8];
    let hay = bytes_as_slice(buf);
    let hay_len = hay.len();
    let found = memmem_find(hay, crlf.as_slice());
    proof {
        assert(crlf@ =~= seq![13u8, 10u8]);
        assert forall|j: int| occurs_at(s, seq![13u8, 10u8], j) == crlf_at(s, j) by {
            if 0 <= j && j + 2 <= s.len() {
                let sub = s.subrange(j, j + 2);
                if crlf_at(s, j) {
                    assert(sub =~= seq![13u8, 10u8]);
                }
                if sub == seq![13u8, 10u8] {
                    assert(sub[0] == s[j] && sub[1] == s[j + 1]);
                }
            }
        }
        lemma_crlf_index(s);
    }
    match found {
        Some(i) => {
            proof {
                lemma_crlf_index_is(s, i as int);
                assert(i + 2 <= hay_len);
            }
            Some(bytes_split_to(buf, i + 2))
        },
        None => None,
    }
}

/// The first line of `s`, with its CRLF, is CRLF-terminated.
proof fn lemma_first_line_terminated(s: Seq<u8>)
    requires
        crlf_index(s) >= 0,
    ensures
        crlf_terminated(s.take(crlf_index(s) + 2)),
{
    let i = crlf_index(s);
    let t = s.take(i + 2);
    lemma_crlf_index(s);
    assert(crlf_at(t, i));
    assert forall|j: int| 0 <= j < i implies !crlf_at(t, j) by {
        assert(!crlf_at(s, j));
    }
    lemma_crlf_index_is(t, i);
}

/// The first line of `s` with its CRLF.
pub open spec fn crlf_take(s: Seq<u8>) -> Seq<u8> {
    s.take(crlf_index(s) + 2)
}

/// Flattening one more line appends it.
proof fn lemma_flatten_push(lines: Seq<Seq<u8>>, l: Seq<u8>)
    ensures
        flatten(lines.push(l)) == flatten(lines) + l,
{
    assert(lines.push(l).drop_last() =~= lines);
}

/// Appending a CRLF-terminated line to lines that all are CRLF-terminated.
proof fn lemma_all_terminated_push(lines: Seq<Seq<u8>>, l: Seq<u8>)
    requires
        forall|k: int| 0 <= k < lines.len() ==> crlf_terminated(#[trigger] lines[k]),
        crlf_terminated(l),
    ensures
        forall|k: int| 0 <= k < lines.push(l).len() ==> crlf_terminated(#[trigger] lines.push(l)[k]),
{
    assert forall|k: int| 0 <= k < lines.push(l).len() implies crlf_terminated(
        #[trigger] lines.push(l)[k],
    ) by {
        if k < lines.len() {
            assert(lines.push(l)[k] == lines[k]);
        }
    }
}

impl Lines {
    /// The bytes of the body received so far.
    pub closed spec fn consumed(&self) -> Seq<u8> {
        self.consumed@
    }

    /// The lines handed out so far.
    pub closed spec fn emitted(&self) -> Seq<Seq<u8>> {
        self.emitted@
    }

    /// The bytes received but not handed out yet.
    pub closed spec fn buffered(&self) -> Seq<u8> {
        bytes_view(self.buf)
    }

    /// Whether the body has ended.
    pub closed spec fn is_done(&self) -> bool {
        self.done
    }

    /// Whether the splitter asked for a chunk and waits for it.
    pub closed spec fn is_pending(&self) -> bool {
        self.pending
    }

    pub closed spec fn wf(&self) -> bool {
        &&& flatten(self.emitted@) + bytes_view(self.buf) == self.consumed@
        &&& self.pending ==> !self.done
        &&& self.pending && self.wait == Wait::Start ==> bytes_view(self.buf).len() == 0
        &&& self.pending && self.wait == Wait::Extend ==> bytes_view(self.buf).len() > 0
        &&& self.pending ==> !contains_crlf(bytes_view(self.buf))
        &&& forall|k: int|
            0 <= k < self.emitted@.len() && !crlf_terminated(#[trigger] self.emitted@[k]) ==> k
                == self.emitted@.len() - 1 && self.done && bytes_view(self.buf).len() == 0
                && self.emitted@[k].len() > 0 && !contains_crlf(self.emitted@[k])
    }

    /// A splitter for a body of which nothing has been received.
    pub fn new() -> (l: Self)
        ensures
            l.wf(),
            l.consumed() == Seq::<u8>::empty(),
            l.emitted() == Seq::<Seq<u8>>::empty(),
            !l.is_done(),
            !l.is_pending(),
    {
        let l = Lines {
            buf: bytes_new(),
            wait: Wait::Start,
            pending: false,
            done: false,
            consumed: Ghost(Seq::empty()),
            emitted: Ghost(Seq::empty()),
        };
        proof {
            assert(flatten(Seq::<Seq<u8>>::empty()) + Seq::<u8>::empty() =~= Seq::<u8>::empty());
        }
        l
    }

    /// Hands out a line and notes that it was.
    fn emit(&mut self, line: Bytes) -> (r: Next)
        ensures
            r matches Next::Line(b) && b == line,
            final(self).emitted@ == old(self).emitted@.push(bytes_view(line)),
            final(self).buf == old(self).buf,
            final(self).wait == old(self).wait,
            final(self).pending == old(self).pending,
            final(self).done == old(self).done,
            final(self).consumed == old(self).consumed,
    {
        proof {
            self.emitted@ = self.emitted@.push(bytes_view(line));
        }
        Next::Line(line)
    }

    /// Starts looking for the next line (and starts over when the body was not ready): a
    /// complete line in the buffer is handed out; at the end of the body the rest of the
    /// buffer is; otherwise a chunk is asked for.
    pub fn poll(&mut self) -> (r: Next)
        requires
            old(self).wf(),
        ensures
            final(self).wf(),
            final(self).consumed() == old(self).consumed(),
            final(self).is_done() == old(self).is_done(),
            match r {
                Next::Chunk => final(self).is_pending() && final(self).emitted() == old(self).emitted(),
                Next::Line(l) => !final(self).is_pending() && final(self).emitted() == old(self).emitted().push(bytes_view(l)),
                Next::End => old(self).is_done() && old(self).buffered().len() == 0 && !final(self).is_pending() && final(self).emitted() == old(self).emitted(),
            },
            old(self).is_done() && old(self).buffered().len() == 0 ==> r is End,
    {
        self.pending = false;
        let ghost s = bytes_view(self.buf);
        let ghost e = self.emitted@;
        proof {
            lemma_crlf_index(s);
        }
        if bytes_as_slice(&self.buf).len() == 0 {
            if self.done {
                return Next::End;
            }
            self.wait = Wait::Start;
            self.pending = true;
            return Next::Chunk;
        }
        if let Some(line) = take_first_line(&mut self.buf) {
            proof {
                lemma_first_line_terminated(s);
                lemma_flatten_push(e, bytes_view(line));
                assert(s.take(crlf_index(s) + 2) + s.skip(crlf_index(s) + 2) =~= s);
                assert(flatten(e) + bytes_view(line) + bytes_view(self.buf) =~= flatten(e) + s);
                assert forall|k: int| 0 <= k < e.len() implies crlf_terminated(#[trigger] e[k]) by {}
                lemma_all_terminated_push(e, bytes_view(line));
            }
            return self.emit(line);
        }
        if self.done {
            let mut rest = bytes_new();
            std::mem::swap(&mut rest, &mut self.buf);
            proof {
                lemma_flatten_push(e, s);
                assert(flatten(e.push(s)) + Seq::<u8>::empty() =~= flatten(e) + s);
                assert forall|k: int| 0 <= k < e.len() implies crlf_terminated(#[trigger] e[k]) by {}
                assert(!contains_crlf(s));
                assert forall|k: int| 0 <= k < e.push(s).len() && !crlf_terminated(#[trigger] e.push(s)[k]) implies k == e.len() by {
                    if k < e.len() {
                        assert(e.push(s)[k] == e[k]);
                    }
                }
            }
            return self.emit(rest);
        }
        self.wait = Wait::Extend;
        self.pending = true;
        Next::Chunk
    }

    /// Extends the buffered piece (which holds no CRLF) with a chunk: a line that ends in the
    /// chunk is handed out, the rest of the chunk is buffered.
    fn extend(&mut self, c: Bytes) -> (r: Next)
        requires
            old(self).wait == Wait::Extend,
            !old(self).done,
            bytes_view(old(self).buf).len() > 0,
            !contains_crlf(bytes_view(old(self).buf)),
            flatten(old(self).emitted@) + bytes_view(old(self).buf) + bytes_view(c)
                == old(self).consumed@,
            !old(self).pending,
            forall|k: int|
                0 <= k < old(self).emitted@.len() ==> crlf_terminated(
                    #[trigger] old(self).emitted@[k],
                ),
        ensures
            final(self).wf(),
            final(self).consumed == old(self).consumed,
            final(self).done == old(self).done,
            match r {
                Next::Chunk => final(self).pending && final(self).emitted@ == old(self).emitted@,
                Next::Line(l) => !final(self).pending && final(self).emitted@
                    == old(self).emitted@.push(bytes_view(l)),
                Next::End => false,
            },
    {
        let ghost b = bytes_view(self.buf);
        let ghost cs = bytes_view(c);
        let ghost e = self.emitted@;
        let n = bytes_as_slice(&self.buf).len();
        let last = bytes_as_slice(&self.buf)[n - 1];
        let starts_with_lf = bytes_as_slice(&c).len() > 0 && bytes_as_slice(&c)[0] == 10u8;
        proof {
            lemma_crlf_index(cs);
            lemma_crlf_index_concat(b, cs);
        }
        if last == 13u8 && starts_with_lf {
            let mut combined = concat_bytes(bytes_as_slice(&self.buf), c);
            let total = bytes_as_slice(&combined).len();
            assert(n + 1 <= total);
            let line = bytes_split_to(&mut combined, n + 1);
            self.buf = combined;
            proof {
                let l = b + seq![10u8];
                assert(bytes_view(line) =~= l);
                assert(bytes_view(self.buf) =~= cs.skip(1));
                assert(l + cs.skip(1) =~= b + cs);
                lemma_flatten_push(e, l);
                assert(flatten(e) + l + cs.skip(1) =~= flatten(e) + b + cs);
                lemma_crlf_index_concat(b, seq![10u8]);
            }
            return self.emit(line);
        }
        let mut c = c;
        if let Some(tail) = take_first_line(&mut c) {
            let line = concat_bytes(bytes_as_slice(&self.buf), tail);
            self.buf = c;
            proof {
                let j = crlf_index(cs);
                let t = cs.take(j + 2);
                assert(bytes_view(line) == b + t);
                assert(b + t + cs.skip(j + 2) =~= b + cs);
                lemma_flatten_push(e, b + t);
                assert(flatten(e) + (b + t) + cs.skip(j + 2) =~= flatten(e) + b + cs);
                lemma_first_line_terminated(cs);
                lemma_crlf_index_concat(b, t);
                assert(t[0] == cs[0]);
                assert(bytes_view(self.buf) == cs.skip(j + 2));
                assert(flatten(e.push(b + t)) + bytes_view(self.buf) == self.consumed@);
            }
            let r = self.emit(line);
            proof {
                assert(self.emitted@ == e.push(b + crlf_take(cs)));
            }
            return r;
        }
        self.buf = concat_bytes(bytes_as_slice(&self.buf), c);
        self.pending = true;
        proof {
            assert(flatten(e) + (b + cs) =~= flatten(e) + b + cs);
            lemma_crlf_index(b + cs);
        }
        Next::Chunk
    }

    /// Takes the body's answer to a request for a chunk: the next chunk, or `None` at the end
    /// of the body.
    pub fn feed(&mut self, chunk: Option<Bytes>) -> (r: Next)
        requires
            old(self).wf(),
            old(self).is_pending(),
        ensures
            final(self).wf(),
            final(self).consumed() == old(self).consumed() + match chunk {
                Some(c) => bytes_view(c),
                None => Seq::empty(),
            },
            final(self).is_done() == (chunk is None),
            match r {
                Next::Chunk => final(self).is_pending() && final(self).emitted() == old(self).emitted(),
                Next::Line(l) => !final(self).is_pending() && final(self).emitted() == old(self).emitted().push(bytes_view(l)),
                Next::End => chunk is None && old(self).buffered().len() == 0 && !final(self).is_pending() && final(self).emitted() == old(self).emitted(),
            },
            chunk is None && old(self).buffered().len() == 0 ==> r is End,
    {
        self.pending = false;
        let ghost b = bytes_view(self.buf);
        let ghost e = self.emitted@;
        match chunk {
            None => {
                self.done = true;
                proof {
                    assert(self.consumed@ + Seq::<u8>::empty() =~= self.consumed@);
                }
                if self.wait == Wait::Extend {
                    let mut rest = bytes_new();
            std::mem::swap(&mut rest, &mut self.buf);
                    proof {
                        lemma_flatten_push(e, b);
                        assert(flatten(e.push(b)) + Seq::<u8>::empty() =~= flatten(e) + b);
                        assert forall|k: int| 0 <= k < e.len() implies crlf_terminated(#[trigger] e[k]) by {}
                        assert(!contains_crlf(b) && b.len() > 0);
                        assert forall|k: int| 0 <= k < e.push(b).len() && !crlf_terminated(#[trigger] e.push(b)[k]) implies k == e.len() by {
                            if k < e.len() {
                                assert(e.push(b)[k] == e[k]);
                            }
                        }
                    }
                    self.emit(rest)
                } else {
                    Next::End
                }
            },
            Some(c) => {
                let ghost cs = bytes_view(c);
                proof {
                    self.consumed@ = self.consumed@ + cs;
                    lemma_crlf_index(cs);
                }
                if self.wait == Wait::Start {
                    self.buf = c;
                    proof {
                        assert(flatten(e) + cs =~= flatten(e) + b + cs);
                    }
                    if let Some(line) = take_first_line(&mut self.buf) {
                        proof {
                            lemma_first_line_terminated(cs);
                            lemma_flatten_push(e, bytes_view(line));
                            assert(cs.take(crlf_index(cs) + 2) + cs.skip(crlf_index(cs) + 2) =~= cs);
                            assert(flatten(e) + bytes_view(line) + bytes_view(self.buf) =~= flatten(e) + cs);
                            assert forall|k: int| 0 <= k < e.len() implies crlf_terminated(#[trigger] e[k]) by {}
                            lemma_all_terminated_push(e, bytes_view(line));
                        }
                        return self.emit(line);
                    }
                    // An empty chunk leaves the splitter waiting at the start of the line.
                    if bytes_as_slice(&self.buf).len() > 0 {
                        self.wait = Wait::Extend;
                    }
                    self.pending = true;
                    Next::Chunk
                } else {
                    let ghost consumed = self.consumed@;
                    proof {
                        self.consumed@ = flatten(e) + b + cs;
                        assert(self.consumed@ =~= consumed);
                        assert forall|k: int| 0 <= k < e.len() implies crlf_terminated(#[trigger] e[k]) by {}
                    }
                    self.extend(c)
                }
            },
        }
    }
}

/// What the splitter handed out, followed by what it holds, is what it received.
pub proof fn crlf_lines_keep_the_body(l: &Lines)
    requires
        l.wf(),
    ensures
        flatten(l.emitted()) + l.buffered() == l.consumed(),
{
}

/// The lines of `s`, each with its CRLF, followed by the rest when it is not empty.
pub open spec fn crlf_pieces(s: Seq<u8>) -> Seq<Seq<u8>>
    decreases s.len(),
{
    if s.len() == 0 {
        Seq::empty()
    } else {
        let i = crlf_index(s);
        if 0 <= i && i + 2 <= s.len() {
            seq![s.take(i + 2)] + crlf_pieces(s.skip(i + 2))
        } else {
            seq![s]
        }
    }
}

/// Flattening from the front.
proof fn lemma_flatten_front(e: Seq<Seq<u8>>)
    requires
        e.len() > 0,
    ensures
        flatten(e) == e[0] + flatten(e.drop_first()),
    decreases e.len(),
{
    if e.len() == 1 {
        assert(e.drop_first() =~= Seq::<Seq<u8>>::empty());
        assert(e.drop_last() =~= Seq::<Seq<u8>>::empty());
        assert(flatten(e.drop_last()) == Seq::<u8>::empty());
        assert(e.last() == e[0]);
        assert(flatten(e) =~= e[0]);
        assert(e[0] + Seq::<u8>::empty() =~= e[0]);
    } else {
        lemma_flatten_front(e.drop_last());
        assert(e.drop_last().drop_first() =~= e.drop_first().drop_last());
        assert(e.drop_first().last() == e.last());
        assert(e.drop_last()[0] == e[0]);
        assert(flatten(e) =~= e[0] + flatten(e.drop_first()));
    }
}

/// A CRLF in `a` is found in `a + b` at the same place.
proof fn lemma_crlf_index_prefix(a: Seq<u8>, b: Seq<u8>)
    requires
        crlf_index(a) >= 0,
    ensures
        crlf_index(a + b) == crlf_index(a),
{
    lemma_crlf_index(a);
    let i = crlf_index(a);
    let s = a + b;
    assert(s[i] == a[i] && s[i + 1] == a[i + 1]);
    assert forall|j: int| 0 <= j < i implies !crlf_at(s, j) by {
        assert(s[j] == a[j] && s[j + 1] == a[j + 1]);
        assert(!crlf_at(a, j));
    }
    lemma_crlf_index_is(s, i);
}

/// Lines that all end with their only CRLF, but for a last one that is not empty and holds no
/// CRLF, are the pieces of what they make up.
proof fn lemma_pieces_of_lines(e: Seq<Seq<u8>>)
    requires
        forall|k: int|
            0 <= k < e.len() && !crlf_terminated(#[trigger] e[k]) ==> k == e.len() - 1
                && e[k].len() > 0 && !contains_crlf(e[k]),
    ensures
        crlf_pieces(flatten(e)) == e,
    decreases e.len(),
{
    if e.len() == 0 {
        assert(crlf_pieces(flatten(e)) =~= e);
    } else {
        lemma_flatten_front(e);
        let rest = e.drop_first();
        assert forall|k: int|
            0 <= k < rest.len() && !crlf_terminated(#[trigger] rest[k]) implies k == rest.len() - 1
                && rest[k].len() > 0 && !contains_crlf(rest[k]) by {
            assert(rest[k] == e[k + 1]);
        }
        lemma_pieces_of_lines(rest);
        let a = e[0];
        let s = flatten(e);
        if crlf_terminated(a) {
            lemma_crlf_index_prefix(a, flatten(rest));
            assert(s.take(a.len() as int) =~= a);
            assert(s.skip(a.len() as int) =~= flatten(rest));
            assert(crlf_pieces(s) =~= seq![a] + rest);
            assert(seq![a] + rest =~= e);
        } else {
            assert(e.len() == 1);
            assert(rest =~= Seq::<Seq<u8>>::empty());
            assert(s =~= a);
            lemma_crlf_index(a);
            assert(crlf_pieces(s) =~= e);
        }
    }
}

/// Once the body has ended and every line has been handed out, the lines are exactly the
/// body's CRLF-terminated lines, followed by the rest of the body when it is not empty (which
/// then holds no CRLF).
pub proof fn crlf_lines_of_finished_body(l: &Lines)
    requires
        l.wf(),
        l.is_done(),
        l.buffered().len() == 0,
    ensures
        l.emitted() == crlf_pieces(l.consumed()),
{
    assert(flatten(l.emitted()) + l.buffered() =~= flatten(l.emitted()));
    lemma_pieces_of_lines(l.emitted());
}

/// Every line handed out ends with its CRLF and holds no other, except the one handed out
/// last once the body has ended.
pub proof fn crlf_lines_are_terminated(l: &Lines, k: int)
    requires
        l.wf(),
        0 <= k < l.emitted().len(),
        !(l.is_done() && k == l.emitted().len() - 1),
    ensures
        crlf_terminated(l.emitted()[k]),
{
}

} // verus!
