//! Byte buffers: reading ahead in them, writing into them, and leaving gaps
//! that are filled in once their value is known.
use crate::bytes_ext::{
    bytes_mut_as_mut_slice, bytes_mut_extend_from_slice, bytes_mut_resize,
    bytes_as_slice, bytes_copy_from_slice, bytes_len, bytes_mut_as_slice, bytes_mut_freeze, bytes_mut_len,
    bytes_mut_split_to, bytes_mut_view, bytes_slice, bytes_split_to, bytes_view,
};
use core::ops::Range;
use vstd::prelude::*;
use vstd::slice::slice_subrange;

pub mod gap;
pub mod segmented;

pub use segmented::SegmentedBuf;




verus! {

/// Error indicating there are not enough remaining bytes in a buffer to perform a read.
#[derive(Debug)]
pub struct NotEnoughBytesError;

impl NotEnoughBytesError {
    /// The text that describes this error.
    pub fn message(&self) -> (s: &'static str)
        ensures
            s@ == "Not enough bytes remaining in buffer!\n"@,
    {
        "Not enough bytes remaining in buffer!\n"
    }
}

/// `n` zero bytes.
pub open spec fn zeros(n: nat) -> Seq<u8> {
    Seq::new(n, |i: int| 0u8)
}

/// A buffer from which bytes are read front to back.
pub trait ByteBuf: Sized {
    /// The bytes that have not been read yet.
    spec fn unread(&self) -> Seq<u8>;

    /// The number of bytes that have not been read yet.
    fn remaining(&self) -> (n: usize)
        ensures
            n == self.unread().len(),
    ;

    /// Peek ahead in the buffer by the provided range.
    fn peek_bytes(&mut self, r: Range<usize>) -> (b: bytes::Bytes)
        requires
            r.start <= r.end <= old(self).unread().len(),
        ensures
            bytes_view(b) == old(self).unread().subrange(r.start as int, r.end as int),
            final(self).unread() == old(self).unread(),
    ;

    /// Get `size` bytes from the underlying buffer.
    fn get_bytes(&mut self, size: usize) -> (b: bytes::Bytes)
        requires
            size <= old(self).unread().len(),
        ensures
            bytes_view(b) == old(self).unread().take(size as int),
            final(self).unread() == old(self).unread().skip(size as int),
    ;

    /// Try to peek ahead in the buffer by the provided range, returning an error if there are less
    /// bytes than the requested range.
    fn try_peek_bytes(&mut self, r: Range<usize>) -> (res: Result<bytes::Bytes, NotEnoughBytesError>)
        requires
            r.start <= r.end || r.end > old(self).unread().len(),
        ensures
            final(self).unread() == old(self).unread(),
            match res {
                Ok(b) => r.end <= old(self).unread().len() && bytes_view(b) == old(
                    self,
                ).unread().subrange(r.start as int, r.end as int),
                Err(_) => r.end > old(self).unread().len(),
            },
    {
        if self.remaining() < r.end {
            Err(NotEnoughBytesError)
        } else {
            Ok(self.peek_bytes(r))
        }
    }

    /// Try to get `size` bytes from the buffer, returning an error if there are less bytes than the
    /// requested number.
    fn try_get_bytes(&mut self, size: usize) -> (res: Result<bytes::Bytes, NotEnoughBytesError>)
        ensures
            match res {
                Ok(b) => size <= old(self).unread().len() && bytes_view(b) == old(
                    self,
                ).unread().take(size as int) && final(self).unread() == old(
                    self,
                ).unread().skip(size as int),
                Err(_) => size > old(self).unread().len() && final(self).unread() == old(
                    self,
                ).unread(),
            },
    {
        if self.remaining() < size {
            Err(NotEnoughBytesError)
        } else {
            Ok(self.get_bytes(size))
        }
    }
}

impl ByteBuf for bytes::Bytes {
    open spec fn unread(&self) -> Seq<u8> {
        bytes_view(*self)
    }

    fn remaining(&self) -> (n: usize) {
        bytes_len(self)
    }

    fn peek_bytes(&mut self, r: Range<usize>) -> (b: bytes::Bytes) {
        bytes_slice(self, r.start, r.end)
    }

    fn get_bytes(&mut self, size: usize) -> (b: bytes::Bytes) {
        bytes_split_to(self, size)
    }
}

impl ByteBuf for bytes::BytesMut {
    open spec fn unread(&self) -> Seq<u8> {
        bytes_mut_view(*self)
    }

    fn remaining(&self) -> (n: usize) {
        bytes_mut_len(self)
    }

    fn peek_bytes(&mut self, r: Range<usize>) -> (b: bytes::Bytes) {
        let all = bytes_mut_as_slice(self);
        bytes_copy_from_slice(slice_subrange(all, r.start, r.end))
    }

    fn get_bytes(&mut self, size: usize) -> (b: bytes::Bytes) {
        bytes_mut_freeze(bytes_mut_split_to(self, size))
    }
}

impl<'a> ByteBuf for &'a [u8] {
    open spec fn unread(&self) -> Seq<u8> {
        (*self)@
    }

    fn remaining(&self) -> (n: usize) {
        (*self).len()
    }

    fn peek_bytes(&mut self, r: Range<usize>) -> (b: bytes::Bytes) {
        bytes_copy_from_slice(slice_subrange(*self, r.start, r.end))
    }

    fn get_bytes(&mut self, size: usize) -> (b: bytes::Bytes) {
        let (front, back) = (*self).split_at(size);
        *self = back;
        bytes_copy_from_slice(front)
    }
}

/// A gap of specified length at the specified offset.
#[derive(Debug, Copy, Clone)]
pub struct Gap {
    offset: usize,
    len: usize,
}

impl Gap {
    /// Where the gap starts.
    pub closed spec fn start(&self) -> int {
        self.offset as int
    }

    /// How many bytes the gap spans.
    pub closed spec fn size(&self) -> int {
        self.len as int
    }

    pub(crate) fn new(offset: usize, len: usize) -> (g: Gap)
        ensures
            g.start() == offset,
            g.size() == len,
    {
        Gap { offset, len }
    }

    pub(crate) fn parts(&self) -> (r: (usize, usize))
        ensures
            r.0 == self.start(),
            r.1 == self.size(),
    {
        (self.offset, self.len)
    }
}

/// A type capable of being represented as a gap in a buffer.
pub trait GapType {
    /// The type of the gap.
    type Value;

    /// The number of bytes that a value of this type takes.
    spec fn gap_size(&self) -> nat;

    /// The bytes that stand for `value`.
    spec fn encode(&self, value: Self::Value) -> Seq<u8>;

    /// The size of the gap.
    fn size(&self) -> (n: usize)
        ensures
            n == self.gap_size(),
    ;

    /// Insert a value into the provided buffer.
    fn put(&self, buf: &mut [u8], value: Self::Value)
        requires
            old(buf)@.len() >= self.gap_size(),
        ensures
            self.encode(value).len() == self.gap_size(),
            final(buf)@ == self.encode(value) + old(buf)@.skip(self.gap_size() as int),
    ;
}

/// A gap of type `T`.
pub struct TypedGap<T> {
    gap: Gap,
    type_: T,
}

impl<T> TypedGap<T> {
    /// The gap in the buffer.
    pub closed spec fn gap(&self) -> Gap {
        self.gap
    }

    /// The type of the value that fills the gap.
    pub closed spec fn kind(&self) -> T {
        self.type_
    }

    pub(crate) fn new(gap: Gap, type_: T) -> (g: TypedGap<T>)
        ensures
            g.gap() == gap,
            g.kind() == type_,
    {
        TypedGap { gap, type_ }
    }

    pub(crate) fn into_parts(self) -> (r: (Gap, T))
        ensures
            r.0 == self.gap(),
            r.1 == self.kind(),
    {
        (self.gap, self.type_)
    }
}

/// A buffer that bytes are written to, which can be sought forward and whose
/// written bytes can be changed in place.
pub trait ByteBufMut: Sized {
    /// Every byte written so far, in order.
    spec fn written(&self) -> Seq<u8>;

    /// What the buffer keeps true of itself between calls.
    spec fn well_formed(&self) -> bool;

    /// Whether `range` may hand out the bytes `start..end` for writing.
    spec fn writable(&self, start: int, end: int) -> bool;

    /// Whether `n` more bytes can be copied in: the byte count stays within
    /// `usize` and no allocation grows past `isize::MAX` bytes.
    spec fn room_to_copy(&self, n: int) -> bool;

    /// Whether a shared handle of `n` bytes can be stored.
    spec fn room_to_share(&self, n: int) -> bool;

    /// Room to copy `n` bytes in keeps the byte count within `usize`.
    proof fn lemma_room_bounds(&self, n: int)
        requires
            self.well_formed(),
            self.room_to_copy(n),
            0 <= n,
        ensures
            self.written().len() + n <= usize::MAX,
    ;

    /// A writable range lies within what was written.
    proof fn lemma_writable_bounds(&self, start: int, end: int)
        requires
            self.well_formed(),
            self.writable(start, end),
        ensures
            0 <= start <= end <= self.written().len() <= usize::MAX,
    ;

    /// Get the current offset of the buffer.
    fn offset(&self) -> (n: usize)
        requires
            self.well_formed(),
        ensures
            n == self.written().len(),
    ;

    /// Seek to the provided offset in the buffer.
    fn seek(&mut self, offset: usize)
        requires
            old(self).well_formed(),
            offset <= old(self).written().len() || old(self).room_to_copy(
                offset - old(self).written().len(),
            ),
        ensures
            final(self).well_formed(),
            offset >= old(self).written().len() ==> final(self).written() == old(self).written()
                + zeros((offset - old(self).written().len()) as nat),
            offset > old(self).written().len() ==> final(self).writable(
                old(self).written().len() as int,
                offset as int,
            ),
            offset >= old(self).written().len() ==> forall|a: int, b: int|
                #![trigger final(self).writable(a, b)]
                #![trigger old(self).writable(a, b)]
                a < b && old(self).writable(a, b) ==> final(self).writable(a, b),
    ;

    /// Read a range from the buffer.
    fn range(&mut self, r: Range<usize>) -> (s: &mut [u8])
        requires
            old(self).well_formed(),
            old(self).writable(r.start as int, r.end as int),
        ensures
            r.start <= r.end <= old(self).written().len(),
            s@ == old(self).written().subrange(r.start as int, r.end as int),
            final(s)@.len() == s@.len() ==> final(self).well_formed(),
            final(self).written() == old(self).written().take(r.start as int) + final(s)@ + old(
                self,
            ).written().skip(r.end as int),
            final(s)@.len() == s@.len() ==> forall|a: int, b: int|
                #![trigger final(self).writable(a, b)]
                #![trigger old(self).writable(a, b)]
                a < b && old(self).writable(a, b) ==> final(self).writable(a, b),
    ;

    /// Append a copy of `src`.
    fn put_slice(&mut self, src: &[u8])
        requires
            old(self).well_formed(),
            old(self).room_to_copy(src@.len() as int),
        ensures
            final(self).well_formed(),
            final(self).written() == old(self).written() + src@,
            forall|a: int, b: int|
                #![trigger final(self).writable(a, b)]
                #![trigger old(self).writable(a, b)]
                a < b && old(self).writable(a, b) ==> final(self).writable(a, b),
    ;

    /// Store a shared `Bytes` handle without copying.
    ///
    /// `BytesMut` and `Vec<u8>` copy the bytes; `SegmentedBuf` stores a
    /// zero-copy reference.
    fn put_shared_bytes(&mut self, bytes: bytes::Bytes)
        requires
            old(self).well_formed(),
            old(self).room_to_share(bytes_view(bytes).len() as int),
        ensures
            final(self).well_formed(),
            final(self).written() == old(self).written() + bytes_view(bytes),
            forall|a: int, b: int|
                #![trigger final(self).writable(a, b)]
                #![trigger old(self).writable(a, b)]
                a < b && old(self).writable(a, b) ==> final(self).writable(a, b),
    ;

    /// Put a gap of `len` at the current buffer offset.
    fn put_gap(&mut self, len: usize) -> (g: Gap)
        requires
            old(self).well_formed(),
            old(self).room_to_copy(len as int),
        ensures
            final(self).well_formed(),
            g.start() == old(self).written().len(),
            g.size() == len,
            final(self).written() == old(self).written() + zeros(len as nat),
            len > 0 ==> final(self).writable(g.start(), g.start() + g.size()),
            forall|a: int, b: int|
                #![trigger final(self).writable(a, b)]
                #![trigger old(self).writable(a, b)]
                a < b && old(self).writable(a, b) ==> final(self).writable(a, b),
    {
        let res = Gap { offset: self.offset(), len };
        proof {
            self.lemma_room_bounds(len as int);
        }
        self.seek(res.offset + len);
        res
    }

    /// Read a gap from the buffer.
    fn gap_buf(&mut self, gap: Gap) -> (s: &mut [u8])
        requires
            old(self).well_formed(),
            old(self).writable(gap.start(), gap.start() + gap.size()),
        ensures
            s@ == old(self).written().subrange(gap.start(), gap.start() + gap.size()),
            final(s)@.len() == s@.len() ==> final(self).well_formed(),
            final(self).written() == old(self).written().take(gap.start()) + final(s)@ + old(
                self,
            ).written().skip(gap.start() + gap.size()),
            final(s)@.len() == s@.len() ==> forall|a: int, b: int|
                #![trigger final(self).writable(a, b)]
                #![trigger old(self).writable(a, b)]
                a < b && old(self).writable(a, b) ==> final(self).writable(a, b),
    {
        proof {
            self.lemma_writable_bounds(gap.offset as int, gap.offset + gap.len);
        }
        self.range(gap.offset..(gap.offset + gap.len))
    }

    /// Put a typed gap of type `T` at the current buffer offset.
    fn put_typed_gap<T: GapType>(&mut self, type_: T) -> (g: TypedGap<T>)
        requires
            old(self).well_formed(),
            old(self).room_to_copy(type_.gap_size() as int),
        ensures
            final(self).well_formed(),
            g.gap().start() == old(self).written().len(),
            g.gap().size() == type_.gap_size(),
            g.kind() == type_,
            final(self).written() == old(self).written() + zeros(type_.gap_size()),
            type_.gap_size() > 0 ==> final(self).writable(
                g.gap().start(),
                g.gap().start() + g.gap().size(),
            ),
            forall|a: int, b: int|
                #![trigger final(self).writable(a, b)]
                #![trigger old(self).writable(a, b)]
                a < b && old(self).writable(a, b) ==> final(self).writable(a, b),
    {
        TypedGap { gap: self.put_gap(type_.size()), type_ }
    }

    /// Insert a value of the [`TypedGap`] type at the current buffer offset.
    fn fill_typed_gap<T: GapType>(&mut self, gap: TypedGap<T>, value: T::Value)
        requires
            old(self).well_formed(),
            old(self).writable(gap.gap().start(), gap.gap().start() + gap.gap().size()),
            gap.gap().size() >= gap.kind().gap_size(),
        ensures
            final(self).well_formed(),
            final(self).written() == old(self).written().take(gap.gap().start()) + gap.kind().encode(
                value,
            ) + old(self).written().skip(gap.gap().start() + gap.kind().gap_size()),
            forall|a: int, b: int|
                #![trigger final(self).writable(a, b)]
                #![trigger old(self).writable(a, b)]
                a < b && old(self).writable(a, b) ==> final(self).writable(a, b),
    {
        let ghost start = gap.gap().start();
        let ghost size = gap.kind().gap_size();
        let ghost w = self.written();
        proof {
            self.lemma_writable_bounds(start, start + gap.gap().size());
        }
        gap.type_.put(self.gap_buf(gap.gap), value);
        assert(self.written() =~= w.take(start) + gap.kind().encode(value) + w.skip(start + size));
    }
}

/// The bytes `start..end` of `s`, handed out for writing; what is written
/// through the result is what `s` then holds there.
pub fn slice_range_mut(s: &mut [u8], start: usize, end: usize) -> (r: &mut [u8])
    requires
        start <= end <= old(s)@.len(),
    ensures
        r@ == old(s)@.subrange(start as int, end as int),
        final(s)@ == old(s)@.take(start as int) + final(r)@ + old(s)@.skip(end as int),
{
    let (_front, rest) = s.split_at_mut(start);
    let (mid, _back) = rest.split_at_mut(end - start);
    mid
}

impl ByteBufMut for bytes::BytesMut {
    open spec fn written(&self) -> Seq<u8> {
        bytes_mut_view(*self)
    }

    open spec fn well_formed(&self) -> bool {
        bytes_mut_view(*self).len() <= usize::MAX
    }

    open spec fn writable(&self, start: int, end: int) -> bool {
        0 <= start <= end <= bytes_mut_view(*self).len()
    }

    open spec fn room_to_copy(&self, n: int) -> bool {
        bytes_mut_view(*self).len() + n <= isize::MAX
    }

    open spec fn room_to_share(&self, n: int) -> bool {
        bytes_mut_view(*self).len() + n <= isize::MAX
    }

    proof fn lemma_room_bounds(&self, n: int) {
    }

    proof fn lemma_writable_bounds(&self, start: int, end: int) {
    }

    fn offset(&self) -> (n: usize) {
        bytes_mut_len(self)
    }

    fn seek(&mut self, offset: usize)
        ensures
            offset < old(self).written().len() ==> final(self).written() == old(
                self,
            ).written().take(offset as int),
    {
        bytes_mut_resize(self, offset, 0);
        assert(offset > old(self).written().len() ==> zeros((offset - old(self).written().len()) as nat)
            =~= Seq::new((offset - old(self).written().len()) as nat, |i: int| 0u8));
        assert(offset == old(self).written().len() ==> old(self).written().take(offset as int)
            =~= old(self).written() + zeros(0));
    }

    fn range(&mut self, r: Range<usize>) -> (s: &mut [u8]) {
        let all = bytes_mut_as_mut_slice(self);
        slice_range_mut(all, r.start, r.end)
    }

    fn put_slice(&mut self, src: &[u8]) {
        bytes_mut_extend_from_slice(self, src);
    }

    fn put_shared_bytes(&mut self, bytes: bytes::Bytes) {
        self.put_slice(bytes_as_slice(&bytes));
    }
}

impl ByteBufMut for Vec<u8> {
    open spec fn written(&self) -> Seq<u8> {
        self@
    }

    open spec fn well_formed(&self) -> bool {
        true
    }

    open spec fn writable(&self, start: int, end: int) -> bool {
        0 <= start <= end <= self@.len()
    }

    open spec fn room_to_copy(&self, n: int) -> bool {
        self@.len() + n <= isize::MAX
    }

    open spec fn room_to_share(&self, n: int) -> bool {
        self@.len() + n <= isize::MAX
    }

    proof fn lemma_room_bounds(&self, n: int) {
    }

    proof fn lemma_writable_bounds(&self, start: int, end: int) {
        assert(self@.len() == self.len());
    }

    fn offset(&self) -> (n: usize) {
        self.len()
    }

    fn seek(&mut self, offset: usize)
        ensures
            offset < old(self).written().len() ==> final(self).written() == old(
                self,
            ).written().take(offset as int),
    {
        self.resize(offset, 0u8);
        assert(offset >= old(self)@.len() ==> final(self)@ =~= old(self)@ + zeros(
            (offset - old(self)@.len()) as nat,
        ));
    }

    fn range(&mut self, r: Range<usize>) -> (s: &mut [u8]) {
        let all = self.as_mut_slice();
        slice_range_mut(all, r.start, r.end)
    }

    fn put_slice(&mut self, src: &[u8]) {
        self.extend_from_slice(src);
    }

    fn put_shared_bytes(&mut self, bytes: bytes::Bytes) {
        self.put_slice(bytes_as_slice(&bytes));
    }
}

/// A gap put at the end of what was written and then filled holds exactly
/// the encoding of the value: the buffer reads as what it held before the gap
/// followed by that encoding.
pub proof fn lemma_filled_gap_holds_value(before: Seq<u8>, encoding: Seq<u8>)
    ensures
        (before + zeros(encoding.len())).take(before.len() as int) + encoding + (before + zeros(
            encoding.len(),
        )).skip((before.len() + encoding.len()) as int) == before + encoding,
{
    assert((before + zeros(encoding.len())).take(before.len() as int) + encoding + (before + zeros(
        encoding.len(),
    )).skip((before.len() + encoding.len()) as int) =~= before + encoding);
}

} // verus!
