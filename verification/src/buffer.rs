//! Byte buffers (`bytes::Bytes`) and substring search (`memchr`), as used by the line splitter.

use vstd::prelude::*;

use bytes::Bytes;

verus! {

#[verifier::external_type_specification]
#[verifier::external_body]
pub struct ExBytes(Bytes);

/// The bytes held by a `Bytes` buffer.
pub uninterp spec fn bytes_view(b: Bytes) -> Seq<u8>;

/// `needle` occurs in `haystack` at index `i`.
pub open spec fn occurs_at(haystack: Seq<u8>, needle: Seq<u8>, i: int) -> bool {
    0 <= i && i + needle.len() <= haystack.len() && haystack.subrange(i, i + needle.len()) == needle
}

/// `Bytes::new`: an empty buffer.
#[verifier::external_body]
pub(crate) fn bytes_new() -> (b: Bytes)
    ensures
        bytes_view(b) == Seq::<u8>::empty(),
{
    Bytes::new()
}

/// `<Bytes as Deref>::deref`: the buffer's contents as a slice.
#[verifier::external_body]
pub(crate) fn bytes_as_slice(b: &Bytes) -> (s: &[u8])
    ensures
        s@ == bytes_view(*b),
{
    b
}

/// `Bytes::from(Vec<u8>)`: takes over the vector's contents.
#[verifier::external_body]
pub(crate) fn bytes_from_vec(v: Vec<u8>) -> (b: Bytes)
    ensures
        bytes_view(b) == v@,
{
    Bytes::from(v)
}

/// `Bytes::split_to`: the first `at` bytes are returned, the rest stay in `b`
/// (the method panics when `at` is past the end, which `requires` rules out).
#[verifier::external_body]
pub(crate) fn bytes_split_to(b: &mut Bytes, at: usize) -> (head: Bytes)
    requires
        at <= bytes_view(*old(b)).len(),
    ensures
        bytes_view(head) == bytes_view(*old(b)).take(at as int),
        bytes_view(*final(b)) == bytes_view(*old(b)).skip(at as int),
{
    b.split_to(at)
}

/// `Bytes::truncate`: keeps the first `len` bytes; no effect when `len` is not less than
/// the length.
#[verifier::external_body]
pub(crate) fn bytes_truncate(b: &mut Bytes, len: usize)
    ensures
        len < bytes_view(*old(b)).len() ==> bytes_view(*final(b)) == bytes_view(*old(b)).take(
            len as int,
        ),
        len >= bytes_view(*old(b)).len() ==> bytes_view(*final(b)) == bytes_view(*old(b)),
{
    b.truncate(len)
}

/// `Bytes::slice(start..)`: the bytes from `start` on (the method panics when `start` is past
/// the end, which `requires` rules out).
#[verifier::external_body]
pub(crate) fn bytes_slice_from(b: &Bytes, start: usize) -> (tail: Bytes)
    requires
        start <= bytes_view(*b).len(),
    ensures
        bytes_view(tail) == bytes_view(*b).skip(start as int),
{
    b.slice(start..)
}

/// `memchr::memmem::find`: the index of the first occurrence of `needle` in `haystack`.
#[verifier::external_body]
pub(crate) fn memmem_find(haystack: &[u8], needle: &[u8]) -> (r: Option<usize>)
    ensures
        match r {
            Some(i) => occurs_at(haystack@, needle@, i as int) && forall|j: int|
                0 <= j < i ==> !occurs_at(haystack@, needle@, j),
            None => forall|j: int| !occurs_at(haystack@, needle@, j),
        },
{
    memchr::memmem::find(haystack, needle)
}

} // verus!
