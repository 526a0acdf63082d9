//! The parts of the `bytes` crate that this library relies on.
//!
//! `Bytes` and `BytesMut` are opaque to the verifier; what they hold is given
//! a name (`bytes_view`, `bytes_mut_view`) and the functions below state, over
//! those names, what each method of the crate does to its contents.
use vstd::prelude::*;

verus! {

#[verifier::external_type_specification]
#[verifier::external_body]
pub struct ExBytes(bytes::Bytes);

#[verifier::external_type_specification]
#[verifier::external_body]
pub struct ExBytesMut(bytes::BytesMut);

/// The bytes that a `bytes::Bytes` handle refers to, in order.
pub uninterp spec fn bytes_view(b: bytes::Bytes) -> Seq<u8>;

/// The bytes that a `bytes::BytesMut` holds, in order.
pub uninterp spec fn bytes_mut_view(b: bytes::BytesMut) -> Seq<u8>;

/// `Bytes::len`: the number of bytes the handle refers to.
#[verifier::external_body]
pub(crate) fn bytes_len(b: &bytes::Bytes) -> (n: usize)
    ensures
        n == bytes_view(*b).len(),
{
    b.len()
}

/// `<Bytes as Deref>::deref`: a slice of exactly the bytes the handle refers to.
#[verifier::external_body]
pub(crate) fn bytes_as_slice(b: &bytes::Bytes) -> (s: &[u8])
    ensures
        s@ == bytes_view(*b),
{
    b
}

/// `Bytes::copy_from_slice`: a new handle to a copy of `data`.
#[verifier::external_body]
pub(crate) fn bytes_copy_from_slice(data: &[u8]) -> (b: bytes::Bytes)
    ensures
        bytes_view(b) == data@,
{
    bytes::Bytes::copy_from_slice(data)
}

/// `Bytes::slice` on `start..end`: a handle to that part of `b`; `b` is left as
/// it was. The crate panics unless `start <= end <= b.len()`.
#[verifier::external_body]
pub(crate) fn bytes_slice(b: &bytes::Bytes, start: usize, end: usize) -> (r: bytes::Bytes)
    requires
        start <= end <= bytes_view(*b).len(),
    ensures
        bytes_view(r) == bytes_view(*b).subrange(start as int, end as int),
{
    b.slice(start..end)
}

/// `Bytes::split_to`: returns the first `at` bytes and leaves the rest in `b`.
/// The crate panics if `at > b.len()`.
#[verifier::external_body]
pub(crate) fn bytes_split_to(b: &mut bytes::Bytes, at: usize) -> (r: bytes::Bytes)
    requires
        at <= bytes_view(*old(b)).len(),
    ensures
        bytes_view(r) == bytes_view(*old(b)).take(at as int),
        bytes_view(*final(b)) == bytes_view(*old(b)).skip(at as int),
{
    b.split_to(at)
}

/// `BytesMut::new`: an empty buffer.
#[verifier::external_body]
pub(crate) fn bytes_mut_new() -> (b: bytes::BytesMut)
    ensures
        bytes_mut_view(b) == Seq::<u8>::empty(),
{
    bytes::BytesMut::new()
}

/// `BytesMut::len`: the number of bytes held.
#[verifier::external_body]
pub(crate) fn bytes_mut_len(b: &bytes::BytesMut) -> (n: usize)
    ensures
        n == bytes_mut_view(*b).len(),
{
    b.len()
}

/// `<BytesMut as Deref>::deref`: a slice of exactly the bytes held.
#[verifier::external_body]
pub(crate) fn bytes_mut_as_slice(b: &bytes::BytesMut) -> (s: &[u8])
    ensures
        s@ == bytes_mut_view(*b),
{
    b
}

/// `<BytesMut as DerefMut>::deref_mut`: a mutable slice of exactly the bytes
/// held; what is written through it is what the buffer then holds.
#[verifier::external_body]
pub(crate) fn bytes_mut_as_mut_slice(b: &mut bytes::BytesMut) -> (s: &mut [u8])
    ensures
        s@ == bytes_mut_view(*old(b)),
        bytes_mut_view(*final(b)) == final(s)@,
{
    b
}

/// `BytesMut::extend_from_slice`: appends a copy of `src`. The crate panics
/// when the new length overflows; memory exhaustion is not covered here.
#[verifier::external_body]
pub(crate) fn bytes_mut_extend_from_slice(b: &mut bytes::BytesMut, src: &[u8])
    requires
        bytes_mut_view(*old(b)).len() + src@.len() <= isize::MAX,
    ensures
        bytes_mut_view(*final(b)) == bytes_mut_view(*old(b)) + src@,
{
    b.extend_from_slice(src)
}

/// `BytesMut::resize`: truncates to `new_len`, or appends copies of `value`
/// up to `new_len`. Growing past `isize::MAX` bytes panics in the allocation;
/// memory exhaustion is not covered here.
#[verifier::external_body]
pub(crate) fn bytes_mut_resize(b: &mut bytes::BytesMut, new_len: usize, value: u8)
    requires
        new_len <= bytes_mut_view(*old(b)).len() || new_len <= isize::MAX,
    ensures
        new_len <= bytes_mut_view(*old(b)).len() ==> bytes_mut_view(*final(b))
            == bytes_mut_view(*old(b)).take(new_len as int),
        new_len > bytes_mut_view(*old(b)).len() ==> bytes_mut_view(*final(b))
            == bytes_mut_view(*old(b)) + Seq::new(
            (new_len - bytes_mut_view(*old(b)).len()) as nat,
            |i: int| value,
        ),
{
    b.resize(new_len, value)
}

/// `BytesMut::freeze`: a `Bytes` handle to the same bytes.
#[verifier::external_body]
pub(crate) fn bytes_mut_freeze(b: bytes::BytesMut) -> (r: bytes::Bytes)
    ensures
        bytes_view(r) == bytes_mut_view(b),
{
    b.freeze()
}

/// `BytesMut::split_to`: returns the first `at` bytes and leaves the rest in
/// `b`. The crate panics if `at > b.len()`.
#[verifier::external_body]
pub(crate) fn bytes_mut_split_to(b: &mut bytes::BytesMut, at: usize) -> (r: bytes::BytesMut)
    requires
        at <= bytes_mut_view(*old(b)).len(),
    ensures
        bytes_mut_view(r) == bytes_mut_view(*old(b)).take(at as int),
        bytes_mut_view(*final(b)) == bytes_mut_view(*old(b)).skip(at as int),
{
    b.split_to(at)
}

} // verus!
