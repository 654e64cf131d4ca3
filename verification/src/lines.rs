//! Splitting a response body into CRLF-delimited lines.
//!
//! The Streaming API sends one message per line, lines being delimited by CRLF, and the body
//! arrives in chunks that need not respect line boundaries. [`Lines`] keeps the unfinished tail
//! of the body and hands out complete lines as soon as they are available.

use vstd::prelude::*;

use bytes::Bytes;

use crate::buffer::{
    bytes_as_slice, bytes_from_vec, bytes_new, bytes_slice_from, bytes_split_to, bytes_truncate,
    bytes_view, memmem_find, occurs_at,
};

verus! {

/// There is a CRLF at index `i` of `s`.
pub open spec fn crlf_at(s: Seq<u8>, i: int) -> bool {
    0 <= i && i + 1 < s.len() && s[i] == 13u8 && s[i + 1] == 10u8
}

/// `s` contains a CRLF.
pub open spec fn contains_crlf(s: Seq<u8>) -> bool {
    exists|i: int| crlf_at(s, i)
}

/// The index of the first CRLF in `s`, or -1 when there is none.
pub open spec fn crlf_index(s: Seq<u8>) -> int
    decreases s.len(),
{
    if s.len() < 2 {
        -1
    } else if s[0] == 13u8 && s[1] == 10u8 {
        0
    } else {
        let r = crlf_index(s.drop_first());
        if r < 0 {
            -1
        } else {
            r + 1
        }
    }
}

/// The lines of `s`: the pieces between CRLFs. A CRLF at the very end of `s` does not
/// open an empty last line, and an empty `s` has no lines.
pub open spec fn split_lines(s: Seq<u8>) -> Seq<Seq<u8>>
    decreases s.len(),
{
    if s.len() == 0 {
        Seq::empty()
    } else {
        let i = crlf_index(s);
        if 0 <= i && i + 2 <= s.len() {
            seq![s.take(i)] + split_lines(s.skip(i + 2))
        } else {
            seq![s]
        }
    }
}

/// Every line of `lines`, each followed by a CRLF.
pub open spec fn terminated(lines: Seq<Seq<u8>>) -> Seq<u8>
    decreases lines.len(),
{
    if lines.len() == 0 {
        Seq::empty()
    } else {
        lines[0] + seq![13u8, 10u8] + terminated(lines.drop_first())
    }
}

/// No line of `lines` contains a CRLF.
pub open spec fn all_crlf_free(lines: Seq<Seq<u8>>) -> bool {
    forall|k: int| 0 <= k < lines.len() ==> !contains_crlf(#[trigger] lines[k])
}

/// `crlf_index` finds the first CRLF.
pub proof fn lemma_crlf_index(s: Seq<u8>)
    ensures
        -1 <= crlf_index(s) < s.len(),
        crlf_index(s) >= 0 ==> crlf_at(s, crlf_index(s)),
        forall|j: int| 0 <= j < crlf_index(s) ==> !crlf_at(s, j),
        crlf_index(s) < 0 <==> !contains_crlf(s),
    decreases s.len(),
{
    if s.len() < 2 {
        assert forall|j: int| !crlf_at(s, j) by {}
    } else if s[0] == 13u8 && s[1] == 10u8 {
        assert(crlf_at(s, 0));
    } else {
        let t = s.drop_first();
        lemma_crlf_index(t);
        assert forall|j: int| 1 <= j implies crlf_at(s, j) == crlf_at(t, j - 1) by {}
        assert(!crlf_at(s, 0));
        if crlf_index(t) < 0 {
            assert forall|j: int| !crlf_at(s, j) by {
                if j >= 1 {
                    assert(!crlf_at(t, j - 1));
                }
            }
        } else {
            assert(crlf_at(t, crlf_index(t)));
            assert(crlf_at(s, crlf_index(t) + 1));
            assert forall|j: int| 0 <= j < crlf_index(s) implies !crlf_at(s, j) by {
                if j >= 1 {
                    assert(!crlf_at(t, j - 1));
                }
            }
        }
    }
}

/// The first CRLF is the one at `i` when there is one at `i` and none before.
pub proof fn lemma_crlf_index_is(s: Seq<u8>, i: int)
    requires
        crlf_at(s, i),
        forall|j: int| 0 <= j < i ==> !crlf_at(s, j),
    ensures
        crlf_index(s) == i,
{
    lemma_crlf_index(s);
    if crlf_index(s) < i {
        assert(!crlf_at(s, crlf_index(s)));
    }
}

/// Where the first CRLF of `a + b` is, when `a` has none: across the seam, or inside `b`.
pub proof fn lemma_crlf_index_concat(a: Seq<u8>, b: Seq<u8>)
    requires
        !contains_crlf(a),
    ensures
        crlf_index(a + b) == (if a.len() > 0 && b.len() > 0 && a.last() == 13u8 && b[0] == 10u8 {
            a.len() - 1
        } else if crlf_index(b) >= 0 {
            a.len() + crlf_index(b)
        } else {
            -1
        }),
{
    let s = a + b;
    lemma_crlf_index(b);
    lemma_crlf_index(s);
    assert forall|j: int| 0 <= j < a.len() - 1 implies !crlf_at(s, j) by {
        assert(!crlf_at(a, j));
        assert(s[j] == a[j] && s[j + 1] == a[j + 1]);
    }
    assert forall|j: int| a.len() <= j implies crlf_at(s, j) == crlf_at(b, j - a.len()) by {}
    if a.len() > 0 && b.len() > 0 && a.last() == 13u8 && b[0] == 10u8 {
        assert(crlf_at(s, a.len() - 1));
        lemma_crlf_index_is(s, a.len() - 1);
    } else {
        if a.len() > 0 {
            assert(!crlf_at(s, a.len() - 1));
        }
        if crlf_index(b) >= 0 {
            assert(crlf_at(s, a.len() + crlf_index(b)));
            assert forall|j: int| 0 <= j < a.len() + crlf_index(b) implies !crlf_at(s, j) by {
                if j >= a.len() {
                    assert(!crlf_at(b, j - a.len()));
                }
            }
            lemma_crlf_index_is(s, a.len() + crlf_index(b));
        } else {
            assert forall|j: int| !crlf_at(s, j) by {
                if j >= a.len() {
                    assert(!crlf_at(b, j - a.len()));
                }
            }
        }
    }
}

/// A piece without CRLF is a single line (or no line at all when it is empty).
pub proof fn lemma_split_crlf_free(b: Seq<u8>)
    requires
        !contains_crlf(b),
    ensures
        split_lines(b) == (if b.len() == 0 {
            Seq::<Seq<u8>>::empty()
        } else {
            seq![b]
        }),
{
    lemma_crlf_index(b);
}

/// Splitting lines that were each terminated by CRLF gives those lines back.
pub proof fn lemma_split_terminated(lines: Seq<Seq<u8>>, rest: Seq<u8>)
    requires
        all_crlf_free(lines),
    ensures
        split_lines(terminated(lines) + rest) == lines + split_lines(rest),
    decreases lines.len(),
{
    if lines.len() == 0 {
        assert(terminated(lines) + rest =~= rest);
        assert(lines + split_lines(rest) =~= split_lines(rest));
    } else {
        let l0 = lines[0];
        let tail = lines.drop_first();
        assert(all_crlf_free(tail)) by {
            assert forall|k: int| 0 <= k < tail.len() implies !contains_crlf(#[trigger] tail[k]) by {
                assert(tail[k] == lines[k + 1]);
            }
        }
        lemma_split_terminated(tail, rest);
        let x = terminated(tail) + rest;
        let crlf = seq![13u8, 10u8];
        let s = terminated(lines) + rest;
        assert(s =~= l0 + (crlf + x));
        assert(!contains_crlf(l0));
        lemma_crlf_index_concat(l0, crlf + x);
        assert(crlf_index(crlf + x) == 0);
        assert(crlf_index(s) == l0.len());
        assert(s.take(l0.len() as int) =~= l0);
        assert(s.skip(l0.len() as int + 2) =~= x);
        assert(lines =~= seq![l0] + tail);
        assert(lines + split_lines(rest) =~= seq![l0] + (tail + split_lines(rest)));
    }
}

/// Terminating one more line appends it and a CRLF.
pub proof fn lemma_terminated_push(lines: Seq<Seq<u8>>, l: Seq<u8>)
    ensures
        terminated(lines.push(l)) == terminated(lines) + l + seq![13u8, 10u8],
    decreases lines.len(),
{
    if lines.len() == 0 {
        assert(lines.push(l).drop_first() =~= Seq::<Seq<u8>>::empty());
        assert(lines.push(l)[0] == l);
        assert(terminated(lines) =~= Seq::<u8>::empty());
        assert(terminated(lines.push(l).drop_first()) =~= Seq::<u8>::empty());
        assert(terminated(lines.push(l)) =~= terminated(lines) + l + seq![13u8, 10u8]);
    } else {
        lemma_terminated_push(lines.drop_first(), l);
        assert(lines.push(l).drop_first() =~= lines.drop_first().push(l));
        assert(lines.push(l)[0] == lines[0]);
        assert(terminated(lines.push(l)) =~= terminated(lines) + l + seq![13u8, 10u8]);
    }
}

/// Splits the first line off `buf`: when `buf` holds a CRLF, the bytes before the first one are
/// returned and the CRLF is dropped; otherwise `buf` is left as it is.
fn remove_first_line(buf: &mut Bytes) -> (line: Option<Bytes>)
    ensures
        crlf_index(bytes_view(*old(buf))) < 0 ==> line is None && bytes_view(*final(buf))
            == bytes_view(*old(buf)),
        crlf_index(bytes_view(*old(buf))) >= 0 ==> line is Some && bytes_view(line->0)
            == bytes_view(*old(buf)).take(crlf_index(bytes_view(*old(buf))))
            && bytes_view(*final(buf)) == bytes_view(*old(buf)).skip(
            crlf_index(bytes_view(*old(buf))) + 2,
        ),
{
    let ghost s = bytes_view(*buf);
    let crlf: [u8; 2] = [13u8, 10u8];
    let hay = bytes_as_slice(buf);
    let hay_len = hay.len();
    let found = memmem_find(hay, crlf.as_slice());
    proof {
        assert(crlf@ =~= seq![13u8, 10u8]);
        assert forall|j: int| occurs_at(s, seq![13u8, 10u8], j) == crlf_at(s, j) by {
            if 0 <= j && j + 2 <= s.len() {
                let sub = s.subrange(j, j + 2);
                if crlf_at(s, j) {
                    assert(sub =~= seq![13u8, 10u8]);
                }
                if sub == seq![13u8, 10u8] {
                    assert(sub[0] == s[j] && sub[1] == s[j + 1]);
                }
            }
        }
        lemma_crlf_index(s);
    }
    match found {
        Some(i) => {
            proof {
                lemma_crlf_index_is(s, i as int);
                assert(i + 2 <= hay_len);
            }
            let mut line = bytes_split_to(buf, i + 2);
            bytes_truncate(&mut line, i);
            proof {
                assert(bytes_view(line) =~= s.take(i as int));
            }
            Some(line)
        },
        None => None,
    }
}

/// `a` followed by the contents of `b`; when `a` is empty, `b` itself (no copy is made).
pub(crate) fn concat_bytes(a: &[u8], b: Bytes) -> (r: Bytes)
    ensures
        bytes_view(r) == a@ + bytes_view(b),
        a@.len() == 0 ==> r == b,
{
    if a.len() == 0 {
        proof {
            assert(a@ + bytes_view(b) =~= bytes_view(b));
        }
        b
    } else {
        let bs = bytes_as_slice(&b);
        let mut v: Vec<u8> = Vec::with_capacity(a.len().saturating_add(bs.len()));
        v.extend_from_slice(a);
        v.extend_from_slice(bs);
        proof {
            assert(v@ =~= a@ + bytes_view(b));
        }
        bytes_from_vec(v)
    }
}

/// A splitter of a byte stream into CRLF-delimited lines.
///
/// The owner feeds it the chunks of a body in order: [`Lines::next_line`] hands out a line
/// that is already complete in the buffer, [`Lines::push_chunk`] adds a chunk when there is
/// none, and [`Lines::finish`] flushes the last, unterminated line once the body has ended.
pub struct Lines {
    buf: Bytes,
    body_done: bool,
    consumed: Ghost<Seq<u8>>,
    emitted: Ghost<Seq<Seq<u8>>>,
}

impl Lines {
    /// All the bytes of the body received so far.
    pub closed spec fn consumed(&self) -> Seq<u8> {
        self.consumed@
    }

    /// All the lines handed out so far, in order.
    pub closed spec fn emitted(&self) -> Seq<Seq<u8>> {
        self.emitted@
    }

    /// The received bytes that have not been handed out yet.
    pub closed spec fn buffered(&self) -> Seq<u8> {
        bytes_view(self.buf)
    }

    /// The body has ended.
    pub closed spec fn is_done(&self) -> bool {
        self.body_done
    }

    /// The splitter's invariant: the lines handed out, each followed by CRLF, and then the
    /// buffer make up what was received; once the body has ended, the lines handed out are
    /// exactly the lines of the body.
    pub closed spec fn wf(&self) -> bool {
        &&& all_crlf_free(self.emitted@)
        &&& !self.body_done ==> self.consumed@ == terminated(self.emitted@) + bytes_view(self.buf)
        &&& self.body_done ==> bytes_view(self.buf).len() == 0 && split_lines(self.consumed@)
            == self.emitted@
    }

    /// A splitter that has received nothing.
    pub fn new() -> (l: Self)
        ensures
            l.wf(),
            l.consumed() == Seq::<u8>::empty(),
            l.emitted() == Seq::<Seq<u8>>::empty(),
            l.buffered() == Seq::<u8>::empty(),
            !l.is_done(),
    {
        let l = Lines {
            buf: bytes_new(),
            body_done: false,
            consumed: Ghost(Seq::empty()),
            emitted: Ghost(Seq::empty()),
        };
        proof {
            assert(terminated(Seq::<Seq<u8>>::empty()) + Seq::<u8>::empty() =~= Seq::<u8>::empty());
        }
        l
    }

    /// Whether the end of the body has been seen.
    pub fn is_finished(&self) -> (r: bool)
        ensures
            r == self.is_done(),
    {
        self.body_done
    }

    /// Hands out the first line of the buffer if it holds a complete one.
    pub fn next_line(&mut self) -> (line: Option<Bytes>)
        requires
            old(self).wf(),
        ensures
            final(self).wf(),
            final(self).consumed() == old(self).consumed(),
            final(self).is_done() == old(self).is_done(),
            ({
                let b = old(self).buffered();
                let i = crlf_index(b);
                if i < 0 {
                    &&& line is None
                    &&& final(self).buffered() == b
                    &&& final(self).emitted() == old(self).emitted()
                } else {
                    &&& line is Some
                    &&& bytes_view(line->0) == b.take(i)
                    &&& final(self).buffered() == b.skip(i + 2)
                    &&& final(self).emitted() == old(self).emitted().push(b.take(i))
                }
            }),
    {
        let ghost b = bytes_view(self.buf);
        proof {
            lemma_crlf_index(b);
        }
        let line = remove_first_line(&mut self.buf);
        proof {
            let i = crlf_index(b);
            if i >= 0 {
                let l = b.take(i);
                assert(!contains_crlf(l)) by {
                    assert forall|j: int| !crlf_at(l, j) by {
                        if crlf_at(l, j) {
                            assert(crlf_at(b, j));
                        }
                    }
                }
                let e = self.emitted@;
                lemma_terminated_push(e, l);
                assert(b =~= l + seq![13u8, 10u8] + b.skip(i + 2));
                self.emitted@ = e.push(l);
                assert(self.consumed@ =~= terminated(self.emitted@) + bytes_view(self.buf));
                assert forall|k: int| 0 <= k < self.emitted@.len() implies !contains_crlf(
                    #[trigger] self.emitted@[k],
                ) by {
                    if k < e.len() {
                        assert(self.emitted@[k] == e[k]);
                    }
                }
            } else if self.body_done {
                assert(b.len() == 0);
            }
        }
        line
    }

    /// Adds the next chunk of the body to a buffer that holds no complete line, and hands out
    /// the line that the chunk completes, if any. Empty chunks are ignored.
    pub fn push_chunk(&mut self, chunk: Bytes) -> (line: Option<Bytes>)
        requires
            old(self).wf(),
            !old(self).is_done(),
            !contains_crlf(old(self).buffered()),
        ensures
            final(self).wf(),
            !final(self).is_done(),
            final(self).consumed() == old(self).consumed() + bytes_view(chunk),
            ({
                let joined = old(self).buffered() + bytes_view(chunk);
                let i = crlf_index(joined);
                if i < 0 {
                    &&& line is None
                    &&& final(self).buffered() == joined
                    &&& final(self).emitted() == old(self).emitted()
                } else {
                    &&& line is Some
                    &&& bytes_view(line->0) == joined.take(i)
                    &&& final(self).buffered() == joined.skip(i + 2)
                    &&& final(self).emitted() == old(self).emitted().push(joined.take(i))
                }
            }),
    {
        let ghost b = bytes_view(self.buf);
        let ghost c = bytes_view(chunk);
        let ghost joined = b + c;
        let ghost e = self.emitted@;
        proof {
            lemma_crlf_index_concat(b, c);
            lemma_crlf_index(c);
            lemma_crlf_index(joined);
            self.consumed@ = self.consumed@ + c;
            assert(self.consumed@ =~= terminated(e) + joined);
        }
        let cs = bytes_as_slice(&chunk);
        if cs.len() == 0 {
            proof {
                assert(joined =~= b);
            }
            return None;
        }
        let bs = bytes_as_slice(&self.buf);
        let blen = bs.len();
        let line;
        if cs[0] == 10u8 && blen > 0 && bs[blen - 1] == 13u8 {
            // The chunk completes a CRLF that the buffer started: drop both halves.
            bytes_truncate(&mut self.buf, blen - 1);
            let mut rest = bytes_slice_from(&chunk, 1);
            core::mem::swap(&mut self.buf, &mut rest);
            proof {
                assert(crlf_index(joined) == b.len() - 1);
                assert(bytes_view(rest) =~= joined.take(b.len() - 1));
                assert(bytes_view(self.buf) =~= joined.skip(b.len() as int + 1));
            }
            line = rest;
        } else {
            let mut chunk = chunk;
            let found = remove_first_line(&mut chunk);
            match found {
                Some(part) => {
                    proof {
                        assert(crlf_index(joined) == b.len() + crlf_index(c));
                        assert(joined.take(crlf_index(joined)) =~= b + bytes_view(part));
                        assert(joined.skip(crlf_index(joined) + 2) =~= bytes_view(chunk));
                    }
                    let ret = concat_bytes(bs, part);
                    self.buf = chunk;
                    line = ret;
                },
                None => {
                    proof {
                        assert(crlf_index(joined) < 0);
                    }
                    self.buf = concat_bytes(bs, chunk);
                    return None;
                },
            }
        }
        proof {
            let i = crlf_index(joined);
            let l = joined.take(i);
            assert(bytes_view(line) == l);
            assert(!contains_crlf(l)) by {
                assert forall|j: int| !crlf_at(l, j) by {
                    if crlf_at(l, j) {
                        assert(crlf_at(joined, j));
                    }
                }
            }
            lemma_terminated_push(e, l);
            assert(joined =~= l + seq![13u8, 10u8] + joined.skip(i + 2));
            self.emitted@ = e.push(l);
            assert(self.consumed@ =~= terminated(self.emitted@) + bytes_view(self.buf));
            assert forall|k: int| 0 <= k < self.emitted@.len() implies !contains_crlf(
                #[trigger] self.emitted@[k],
            ) by {
                if k < e.len() {
                    assert(self.emitted@[k] == e[k]);
                }
            }
        }
        Some(line)
    }

    /// Records the end of the body and hands out the unterminated last line, if any.
    pub fn finish(&mut self) -> (line: Option<Bytes>)
        requires
            old(self).wf(),
            !contains_crlf(old(self).buffered()),
        ensures
            final(self).wf(),
            final(self).is_done(),
            final(self).consumed() == old(self).consumed(),
            final(self).buffered() == Seq::<u8>::empty(),
            old(self).buffered().len() == 0 ==> line is None && final(self).emitted() == old(
                self,
            ).emitted(),
            old(self).buffered().len() > 0 ==> line is Some && bytes_view(line->0) == old(
                self,
            ).buffered() && final(self).emitted() == old(self).emitted().push(old(self).buffered()),
    {
        if self.body_done {
            return None;
        }
        let ghost b = bytes_view(self.buf);
        let ghost e = self.emitted@;
        self.body_done = true;
        let mut ret = bytes_new();
        core::mem::swap(&mut ret, &mut self.buf);
        proof {
            lemma_split_terminated(e, b);
            lemma_split_crlf_free(b);
        }
        if bytes_as_slice(&ret).len() == 0 {
            proof {
                assert(e + Seq::<Seq<u8>>::empty() =~= e);
            }
            None
        } else {
            proof {
                self.emitted@ = e.push(b);
                assert(e + seq![b] =~= e.push(b));
                assert forall|k: int| 0 <= k < self.emitted@.len() implies !contains_crlf(
                    #[trigger] self.emitted@[k],
                ) by {
                    if k < e.len() {
                        assert(self.emitted@[k] == e[k]);
                    }
                }
            }
            Some(ret)
        }
    }
}

/// Once the body has ended, the lines handed out are exactly its CRLF-delimited lines.
pub proof fn lines_of_finished_body(l: &Lines)
    requires
        l.wf(),
        l.is_done(),
    ensures
        l.emitted() == split_lines(l.consumed()),
{
}

/// At any time, the lines handed out are the first lines of what has been received, in order,
/// and none of them contains a CRLF.
pub proof fn lines_are_a_prefix(l: &Lines)
    requires
        l.wf(),
    ensures
        l.emitted() == split_lines(l.consumed()).take(l.emitted().len() as int),
        all_crlf_free(l.emitted()),
{
    if !l.is_done() {
        lemma_split_terminated(l.emitted(), l.buffered());
        assert((l.emitted() + split_lines(l.buffered())).take(l.emitted().len() as int) =~= l.emitted());
    } else {
        assert(l.emitted().take(l.emitted().len() as int) =~= l.emitted());
    }
}

} // verus!
