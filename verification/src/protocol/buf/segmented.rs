//! A buffer that holds a mix of bytes written into it and shared `Bytes`
//! handles stored without copying.
use crate::bytes_ext::{
    bytes_as_slice, bytes_len, bytes_mut_as_mut_slice, bytes_mut_as_slice, bytes_mut_extend_from_slice,
    bytes_mut_len, bytes_mut_new, bytes_mut_resize, bytes_mut_view, bytes_view,
};
use crate::protocol::buf::gap::{be_bytes, lemma_be_bytes_len, put_be};
use crate::protocol::buf::{slice_range_mut, zeros, ByteBufMut, Gap, GapType, TypedGap};
use core::ops::Range;
use vstd::prelude::*;
use vstd::slice::slice_subrange;

verus! {

/// A segment of a [`SegmentedBuf`] as the specification sees it: whether it
/// holds inline bytes (which may be written in place) and the bytes it holds.
#[verifier::ext_equal]
pub struct SegmentView {
    pub inline: bool,
    pub data: Seq<u8>,
}

/// A [`SegmentedBuf`] as the specification sees it.
#[verifier::ext_equal]
pub struct SegmentedView {
    /// The segments, in order.
    pub segments: Seq<SegmentView>,
    /// How many bytes from the front have been consumed.
    pub consumed: nat,
}

/// Where segment `k` starts: the total length of the segments before it.
pub open spec fn seg_start(segs: Seq<SegmentView>, k: int) -> int
    decreases k,
{
    if k <= 0 {
        0
    } else {
        seg_start(segs, k - 1) + segs[k - 1].data.len()
    }
}

/// Where segment `k` ends.
pub open spec fn seg_end(segs: Seq<SegmentView>, k: int) -> int {
    seg_start(segs, k) + segs[k].data.len()
}

/// The bytes of the first `n` segments, in order.
pub open spec fn flatten_upto(segs: Seq<SegmentView>, n: int) -> Seq<u8>
    decreases n,
{
    if n <= 0 {
        Seq::empty()
    } else {
        flatten_upto(segs, n - 1) + segs[n - 1].data
    }
}

/// The bytes of all segments, in order.
pub open spec fn flatten(segs: Seq<SegmentView>) -> Seq<u8> {
    flatten_upto(segs, segs.len() as int)
}

/// Segment `k` holds all of `start..end`.
pub open spec fn holds_range(segs: Seq<SegmentView>, k: int, start: int, end: int) -> bool {
    seg_start(segs, k) <= start && end <= seg_end(segs, k)
}

/// Segment `k` is the first segment that holds all of `start..end`.
pub open spec fn first_holder(segs: Seq<SegmentView>, k: int, start: int, end: int) -> bool {
    &&& 0 <= k < segs.len()
    &&& holds_range(segs, k, start, end)
    &&& forall|j: int| 0 <= j < k ==> !#[trigger] holds_range(segs, j, start, end)
}

/// `start..end` is a range whose first holding segment holds inline bytes.
pub open spec fn range_writable(segs: Seq<SegmentView>, start: int, end: int) -> bool {
    &&& start <= end
    &&& exists|k: int| first_holder(segs, k, start, end) && segs[k].inline
}

/// What is left of segment `k` once the first `c` bytes of the buffer are consumed.
pub open spec fn unread_piece(segs: Seq<SegmentView>, k: int, c: int) -> Seq<u8> {
    let s = seg_start(segs, k);
    segs[k].data.skip(if c > s { c - s } else { 0 })
}

/// The unread parts of the first `n` segments, skipping those wholly consumed
/// and those that are empty.
pub open spec fn pieces_upto(segs: Seq<SegmentView>, n: int, c: int) -> Seq<Seq<u8>>
    decreases n,
{
    if n <= 0 {
        Seq::empty()
    } else {
        let p = pieces_upto(segs, n - 1, c);
        if seg_end(segs, n - 1) > c && segs[n - 1].data.len() > 0 {
            p.push(unread_piece(segs, n - 1, c))
        } else {
            p
        }
    }
}

/// The unread parts of all segments, skipping those wholly consumed and
/// those that are empty.
pub open spec fn pieces(segs: Seq<SegmentView>, c: int) -> Seq<Seq<u8>> {
    pieces_upto(segs, segs.len() as int, c)
}

/// The pieces joined, in order.
pub open spec fn join(ps: Seq<Seq<u8>>) -> Seq<u8>
    decreases ps.len(),
{
    if ps.len() == 0 {
        Seq::empty()
    } else {
        join(ps.drop_last()) + ps.last()
    }
}

proof fn lemma_flatten_len(segs: Seq<SegmentView>, n: int)
    requires
        0 <= n <= segs.len(),
    ensures
        flatten_upto(segs, n).len() == seg_start(segs, n),
    decreases n,
{
    if n > 0 {
        lemma_flatten_len(segs, n - 1);
    }
}

proof fn lemma_seg_start_mono(segs: Seq<SegmentView>, a: int, b: int)
    requires
        0 <= a <= b <= segs.len(),
    ensures
        seg_start(segs, a) <= seg_start(segs, b),
    decreases b,
{
    if a < b {
        lemma_seg_start_mono(segs, a, b - 1);
    }
}

proof fn lemma_flatten_segment(segs: Seq<SegmentView>, n: int, k: int)
    requires
        0 <= k < n <= segs.len(),
    ensures
        seg_end(segs, k) <= flatten_upto(segs, n).len(),
        flatten_upto(segs, n).subrange(seg_start(segs, k), seg_end(segs, k)) == segs[k].data,
    decreases n,
{
    lemma_flatten_len(segs, n);
    lemma_flatten_len(segs, n - 1);
    lemma_flatten_len(segs, k);
    if n == k + 1 {
        assert(flatten_upto(segs, n).subrange(seg_start(segs, k), seg_end(segs, k)) =~= segs[k].data);
    } else {
        lemma_flatten_segment(segs, n - 1, k);
        lemma_seg_start_mono(segs, k + 1, n - 1);
        assert(flatten_upto(segs, n).subrange(seg_start(segs, k), seg_end(segs, k))
            =~= flatten_upto(segs, n - 1).subrange(seg_start(segs, k), seg_end(segs, k)));
    }
}

proof fn lemma_agree(s1: Seq<SegmentView>, s2: Seq<SegmentView>, n: int, c: int)
    requires
        0 <= n <= s1.len(),
        n <= s2.len(),
        forall|j: int| 0 <= j < n ==> s1[j] == s2[j],
    ensures
        flatten_upto(s1, n) == flatten_upto(s2, n),
        seg_start(s1, n) == seg_start(s2, n),
        pieces_upto(s1, n, c) == pieces_upto(s2, n, c),
    decreases n,
{
    if n > 0 {
        lemma_agree(s1, s2, n - 1, c);
    }
}

proof fn lemma_flatten_update(segs: Seq<SegmentView>, k: int, x: SegmentView, n: int)
    requires
        0 <= k < n <= segs.len(),
    ensures
        flatten_upto(segs.update(k, x), n) == flatten_upto(segs, k) + x.data + flatten_upto(
            segs,
            n,
        ).skip(seg_end(segs, k)),
    decreases n,
{
    let upd = segs.update(k, x);
    lemma_flatten_len(segs, k);
    lemma_flatten_len(segs, n);
    lemma_flatten_len(segs, n - 1);
    if n == k + 1 {
        lemma_agree(segs, upd, k, 0);
        assert(flatten_upto(segs, n).skip(seg_end(segs, k)) =~= Seq::<u8>::empty());
        assert(flatten_upto(upd, n) =~= flatten_upto(segs, k) + x.data + Seq::<u8>::empty());
    } else {
        lemma_flatten_update(segs, k, x, n - 1);
        lemma_seg_start_mono(segs, k + 1, n - 1);
        assert(flatten_upto(segs, n).skip(seg_end(segs, k)) =~= flatten_upto(segs, n - 1).skip(
            seg_end(segs, k),
        ) + segs[n - 1].data);
        assert(flatten_upto(upd, n) =~= flatten_upto(segs, k) + x.data + flatten_upto(
            segs,
            n,
        ).skip(seg_end(segs, k)));
    }
}

/// Once the first `c` bytes are consumed and `c` lies at or past the start of
/// segment `n`, none of the first `n` segments has anything left.
proof fn lemma_pieces_empty(segs: Seq<SegmentView>, n: int, c: int)
    requires
        0 <= n <= segs.len(),
        seg_start(segs, n) <= c,
    ensures
        pieces_upto(segs, n, c).len() == 0,
    decreases n,
{
    if n > 0 {
        lemma_pieces_empty(segs, n - 1, c);
    }
}

proof fn lemma_pieces_prefix(segs: Seq<SegmentView>, m: int, n: int, c: int)
    requires
        0 <= m <= n <= segs.len(),
    ensures
        pieces_upto(segs, m, c).len() <= pieces_upto(segs, n, c).len(),
        forall|j: int|
            0 <= j < pieces_upto(segs, m, c).len() ==> #[trigger] pieces_upto(segs, n, c)[j]
                == pieces_upto(segs, m, c)[j],
    decreases n,
{
    if m < n {
        lemma_pieces_prefix(segs, m, n - 1, c);
    }
}

proof fn lemma_join_pieces(segs: Seq<SegmentView>, n: int, c: int)
    requires
        0 <= n <= segs.len(),
        0 <= c <= seg_start(segs, n),
    ensures
        join(pieces_upto(segs, n, c)) == flatten_upto(segs, n).skip(c),
        forall|i: int|
            0 <= i < pieces_upto(segs, n, c).len() ==> #[trigger] pieces_upto(segs, n, c)[i].len()
                > 0,
    decreases n,
{
    lemma_flatten_len(segs, n);
    if n == 0 {
        assert(flatten_upto(segs, n).skip(c) =~= Seq::<u8>::empty());
    } else {
        lemma_flatten_len(segs, n - 1);
        let s = seg_start(segs, n - 1);
        let d = segs[n - 1].data;
        let p = pieces_upto(segs, n - 1, c);
        if c <= s {
            lemma_join_pieces(segs, n - 1, c);
            if seg_end(segs, n - 1) > c && d.len() > 0 {
                assert(p.push(unread_piece(segs, n - 1, c)).drop_last() =~= p);
                assert(unread_piece(segs, n - 1, c) =~= d);
                assert(flatten_upto(segs, n).skip(c) =~= flatten_upto(segs, n - 1).skip(c) + d);
            } else {
                assert(flatten_upto(segs, n).skip(c) =~= flatten_upto(segs, n - 1).skip(c));
            }
        } else {
            lemma_pieces_empty(segs, n - 1, c);
            assert(join(p) =~= Seq::<u8>::empty());
            if seg_end(segs, n - 1) > c && d.len() > 0 {
                assert(p.push(unread_piece(segs, n - 1, c)).drop_last() =~= p);
                assert(flatten_upto(segs, n).skip(c) =~= d.skip(c - s));
            } else {
                assert(flatten_upto(segs, n).skip(c) =~= Seq::<u8>::empty());
            }
        }
    }
}

/// The segments once the last one is sure to hold inline bytes.
pub open spec fn with_inline_last(segs: Seq<SegmentView>) -> Seq<SegmentView> {
    if segs.len() > 0 && segs.last().inline {
        segs
    } else {
        segs.push(SegmentView { inline: true, data: Seq::empty() })
    }
}

/// The segments once `bytes` is written inline after everything else.
pub open spec fn append_inline(segs: Seq<SegmentView>, bytes: Seq<u8>) -> Seq<SegmentView> {
    let s = with_inline_last(segs);
    s.update(s.len() - 1, SegmentView { inline: true, data: s.last().data + bytes })
}

/// The segments once `bytes` is stored as a shared segment: nothing changes
/// for no bytes; an empty inline segment at the end gives way to it.
pub open spec fn append_shared(segs: Seq<SegmentView>, bytes: Seq<u8>) -> Seq<SegmentView> {
    if bytes.len() == 0 {
        segs
    } else {
        let s = if segs.len() > 0 && segs.last().inline && segs.last().data.len() == 0 {
            segs.drop_last()
        } else {
            segs
        };
        s.push(SegmentView { inline: false, data: bytes })
    }
}

/// The segments have the same kinds and lengths.
pub open spec fn same_layout(a: Seq<SegmentView>, b: Seq<SegmentView>) -> bool {
    &&& a.len() == b.len()
    &&& forall|j: int|
        0 <= j < a.len() ==> #[trigger] a[j].inline == b[j].inline && a[j].data.len()
            == b[j].data.len()
}

proof fn lemma_flatten_push(segs: Seq<SegmentView>, x: SegmentView)
    ensures
        flatten(segs.push(x)) == flatten(segs) + x.data,
{
    lemma_agree(segs, segs.push(x), segs.len() as int, 0);
}

proof fn lemma_flatten_update_last(segs: Seq<SegmentView>, x: SegmentView)
    requires
        segs.len() > 0,
    ensures
        flatten(segs.update(segs.len() - 1, x)) == flatten(segs.drop_last()) + x.data,
        flatten(segs) == flatten(segs.drop_last()) + segs.last().data,
{
    let n = segs.len() as int;
    lemma_agree(segs, segs.update(n - 1, x), n - 1, 0);
    lemma_agree(segs, segs.drop_last(), n - 1, 0);
}

proof fn lemma_append_inline(segs: Seq<SegmentView>, bytes: Seq<u8>)
    ensures
        flatten(with_inline_last(segs)) == flatten(segs),
        with_inline_last(segs).last().data.len() <= flatten(segs).len(),
        flatten(append_inline(segs, bytes)) == flatten(segs) + bytes,
{
    let s = with_inline_last(segs);
    if !(segs.len() > 0 && segs.last().inline) {
        lemma_flatten_push(segs, SegmentView { inline: true, data: Seq::empty() });
        assert(flatten(s) =~= flatten(segs));
    }
    lemma_flatten_update_last(s, SegmentView { inline: true, data: s.last().data + bytes });
    assert(flatten(append_inline(segs, bytes)) =~= flatten(segs) + bytes);
}

proof fn lemma_append_shared(segs: Seq<SegmentView>, bytes: Seq<u8>)
    ensures
        flatten(append_shared(segs, bytes)) == flatten(segs) + bytes,
{
    if bytes.len() > 0 {
        if segs.len() > 0 && segs.last().inline && segs.last().data.len() == 0 {
            lemma_flatten_update_last(segs, segs.last());
            assert(segs.update(segs.len() - 1, segs.last()) =~= segs);
            assert(flatten(segs.drop_last()) =~= flatten(segs));
            lemma_flatten_push(segs.drop_last(), SegmentView { inline: false, data: bytes });
        } else {
            lemma_flatten_push(segs, SegmentView { inline: false, data: bytes });
        }
    } else {
        assert(flatten(segs) + bytes =~= flatten(segs));
    }
}

proof fn lemma_first_holder_unique(segs: Seq<SegmentView>, k1: int, k2: int, start: int, end: int)
    requires
        first_holder(segs, k1, start, end),
        first_holder(segs, k2, start, end),
    ensures
        k1 == k2,
{
    if k1 < k2 {
        assert(!holds_range(segs, k1, start, end));
    } else if k2 < k1 {
        assert(!holds_range(segs, k2, start, end));
    }
}

/// Segments that agree on their first `n` entries agree on which of those
/// entries hold `start..end`.
proof fn lemma_agree_holds(s1: Seq<SegmentView>, s2: Seq<SegmentView>, n: int, start: int, end: int)
    requires
        0 <= n <= s1.len(),
        n <= s2.len(),
        forall|j: int| 0 <= j < n ==> s1[j] == s2[j],
    ensures
        forall|j: int|
            0 <= j < n ==> (holds_range(s1, j, start, end) <==> #[trigger] holds_range(
                s2,
                j,
                start,
                end,
            )),
{
    assert forall|j: int| 0 <= j < n implies (holds_range(s1, j, start, end) <==> #[trigger] holds_range(
        s2,
        j,
        start,
        end,
    )) by {
        lemma_agree(s1, s2, j, 0);
    }
}

/// Segments of the same kinds and lengths start at the same places.
proof fn lemma_same_layout_starts(a: Seq<SegmentView>, b: Seq<SegmentView>, n: int)
    requires
        same_layout(a, b),
        0 <= n <= a.len(),
    ensures
        seg_start(a, n) == seg_start(b, n),
    decreases n,
{
    if n > 0 {
        lemma_same_layout_starts(a, b, n - 1);
        assert(a[n - 1].inline == b[n - 1].inline);
    }
}

/// Changing the bytes of segments but not their kinds or lengths keeps every
/// range as writable as it was.
pub proof fn lemma_same_layout_keeps_writable(a: Seq<SegmentView>, b: Seq<SegmentView>, start: int, end: int)
    requires
        same_layout(a, b),
    ensures
        range_writable(a, start, end) == range_writable(b, start, end),
{
    assert forall|j: int| 0 <= j < a.len() implies (holds_range(a, j, start, end) <==> #[trigger] holds_range(
        b,
        j,
        start,
        end,
    )) by {
        lemma_same_layout_starts(a, b, j);
        assert(a[j].inline == b[j].inline);
    }
    assert forall|j: int| 0 <= j < a.len() implies (#[trigger] holds_range(a, j, start, end) <==> holds_range(
        b,
        j,
        start,
        end,
    )) by {
        assert(holds_range(b, j, start, end) <==> holds_range(a, j, start, end));
    }
    if range_writable(a, start, end) {
        let k = choose|k: int| first_holder(a, k, start, end) && a[k].inline;
        assert(a[k].inline == b[k].inline);
        assert(first_holder(b, k, start, end) && b[k].inline);
    }
    if range_writable(b, start, end) {
        let k = choose|k: int| first_holder(b, k, start, end) && b[k].inline;
        assert(a[k].inline == b[k].inline);
        assert(first_holder(a, k, start, end) && a[k].inline);
    }
}

/// A non-empty writable range stays writable once bytes are written inline
/// after everything else.
pub proof fn lemma_append_inline_keeps_writable(
    segs: Seq<SegmentView>,
    bytes: Seq<u8>,
    start: int,
    end: int,
)
    requires
        start < end,
        range_writable(segs, start, end),
    ensures
        range_writable(append_inline(segs, bytes), start, end),
{
    let k = choose|k: int| first_holder(segs, k, start, end) && segs[k].inline;
    let t = append_inline(segs, bytes);
    let s = with_inline_last(segs);
    let last = s.len() - 1;
    if k < last {
        lemma_agree_holds(segs, t, k + 1, start, end);
        assert(first_holder(t, k, start, end) && t[k].inline);
    } else {
        lemma_agree_holds(segs, t, k, start, end);
        lemma_agree(segs, t, k, 0);
        assert(first_holder(t, k, start, end) && t[k].inline);
    }
}

/// A non-empty writable range stays writable once a shared segment is added.
pub proof fn lemma_append_shared_keeps_writable(
    segs: Seq<SegmentView>,
    bytes: Seq<u8>,
    start: int,
    end: int,
)
    requires
        start < end,
        range_writable(segs, start, end),
    ensures
        range_writable(append_shared(segs, bytes), start, end),
{
    let k = choose|k: int| first_holder(segs, k, start, end) && segs[k].inline;
    let t = append_shared(segs, bytes);
    if bytes.len() > 0 {
        if segs.len() > 0 && segs.last().inline && segs.last().data.len() == 0 {
            assert(k != segs.len() - 1);
        }
        lemma_agree_holds(segs, t, k + 1, start, end);
        assert(first_holder(t, k, start, end) && t[k].inline);
    }
}

/// Bytes written inline after everything else can be written again in place.
pub proof fn lemma_append_inline_writable(segs: Seq<SegmentView>, bytes: Seq<u8>)
    requires
        bytes.len() > 0,
    ensures
        range_writable(
            append_inline(segs, bytes),
            flatten(segs).len() as int,
            (flatten(segs).len() + bytes.len()) as int,
        ),
{
    let t = append_inline(segs, bytes);
    let kl = t.len() - 1;
    let l = flatten(segs).len() as int;
    let e = l + bytes.len();
    lemma_append_inline(segs, bytes);
    lemma_flatten_len(t, t.len() as int);
    lemma_flatten_len(with_inline_last(segs), with_inline_last(segs).len() as int);
    lemma_agree(with_inline_last(segs), t, kl, 0);
    assert(seg_start(t, kl + 1) == seg_start(t, kl) + t[kl].data.len());
    assert forall|j: int| 0 <= j < kl implies !#[trigger] holds_range(t, j, l, e) by {
        lemma_seg_start_mono(t, j + 1, kl);
    }
    assert(holds_range(t, kl, l, e));
    assert(first_holder(t, kl, l, e) && t[kl].inline);
}

proof fn lemma_holder_bounds(segs: Seq<SegmentView>, k: int, start: int, end: int)
    requires
        0 <= k < segs.len(),
        holds_range(segs, k, start, end),
    ensures
        0 <= seg_start(segs, k),
        seg_end(segs, k) <= flatten(segs).len(),
        flatten(segs).subrange(seg_start(segs, k), seg_end(segs, k)) == segs[k].data,
{
    lemma_seg_start_mono(segs, 0, k);
    lemma_flatten_segment(segs, segs.len() as int, k);
}

/// A segment as stored.
enum Segment {
    /// Inline bytes that were written via normal BufMut methods.
    Inline(bytes::BytesMut),
    /// A shared `Bytes` handle stored without copying.
    Shared(bytes::Bytes),
}

impl Segment {
    spec fn view(&self) -> SegmentView {
        match self {
            Segment::Inline(b) => SegmentView { inline: true, data: bytes_mut_view(*b) },
            Segment::Shared(b) => SegmentView { inline: false, data: bytes_view(*b) },
        }
    }

    fn len(&self) -> (n: usize)
        ensures
            n == self.view().data.len(),
    {
        match self {
            Segment::Inline(b) => bytes_mut_len(b),
            Segment::Shared(b) => bytes_len(b),
        }
    }

    fn is_inline(&self) -> (r: bool)
        ensures
            r == self.view().inline,
    {
        match self {
            Segment::Inline(_) => true,
            Segment::Shared(_) => false,
        }
    }

    fn as_slice(&self) -> (s: &[u8])
        ensures
            s@ == self.view().data,
    {
        match self {
            Segment::Inline(b) => bytes_mut_as_slice(b),
            Segment::Shared(b) => bytes_as_slice(b),
        }
    }
}

spec fn segs_of(v: Seq<Segment>) -> Seq<SegmentView> {
    Seq::new(v.len(), |i: int| v[i].view())
}

proof fn lemma_segs_of_update(v: Seq<Segment>, k: int, x: Segment)
    requires
        0 <= k < v.len(),
    ensures
        segs_of(v.update(k, x)) == segs_of(v).update(k, x.view()),
{
    assert(segs_of(v.update(k, x)) =~= segs_of(v).update(k, x.view()));
}

/// The inline bytes of a segment that holds inline bytes.
fn inline_bytes_mut(seg: &mut Segment) -> (b: &mut bytes::BytesMut)
    requires
        old(seg).view().inline,
    ensures
        bytes_mut_view(*b) == old(seg).view().data,
        *final(seg) == Segment::Inline(*final(b)),
{
    match seg {
        Segment::Inline(b) => b,
        Segment::Shared(_) => unreached(),
    }
}

/// The bytes `start..end` of a segment that holds inline bytes, for writing.
fn inline_range_mut(seg: &mut Segment, start: usize, end: usize) -> (s: &mut [u8])
    requires
        old(seg).view().inline,
        start <= end <= old(seg).view().data.len(),
    ensures
        s@ == old(seg).view().data.subrange(start as int, end as int),
        final(seg).view() == (SegmentView {
            inline: true,
            data: old(seg).view().data.take(start as int) + final(s)@ + old(seg).view().data.skip(
                end as int,
            ),
        }),
{
    let b = inline_bytes_mut(seg);
    let all = bytes_mut_as_mut_slice(b);
    slice_range_mut(all, start, end)
}

/// A segmented buffer that stores a mix of inline writes and shared `Bytes` references.
///
/// Normal `BufMut` writes go into an inline `BytesMut` segment. Calling `put_shared_bytes`
/// finalizes the current inline segment and appends a zero-copy `Shared` segment.
///
/// The segments can be handed out all at once (`chunks_vectored`) so that a
/// vectored write can send them in a single system call.
pub struct SegmentedBuf {
    segments: Vec<Segment>,
    /// Total byte count across all segments.
    total_len: usize,
    /// Bytes already consumed by `advance`.
    consumed: usize,
}

impl View for SegmentedBuf {
    type V = SegmentedView;

    closed spec fn view(&self) -> SegmentedView {
        SegmentedView {
            segments: segs_of(self.segments@),
            consumed: self.consumed as nat,
        }
    }
}

impl SegmentedBuf {
    /// Every byte held, consumed or not, in order.
    pub open spec fn contents(&self) -> Seq<u8> {
        flatten(self@.segments)
    }

    /// What the buffer keeps true of itself between calls.
    pub closed spec fn wf(&self) -> bool {
        &&& self.total_len == flatten(self@.segments).len()
        &&& self.consumed <= self.total_len
    }

    /// Create a new empty segmented buffer.
    pub fn new() -> (b: Self)
        ensures
            b.wf(),
            b@.segments == Seq::<SegmentView>::empty(),
            b@.consumed == 0,
    {
        let b = SegmentedBuf { segments: Vec::new(), total_len: 0, consumed: 0 };
        assert(b@.segments =~= Seq::<SegmentView>::empty());
        b
    }

    /// The number of bytes not consumed yet.
    pub fn remaining(&self) -> (n: usize)
        requires
            self.wf(),
        ensures
            n == self.contents().len() - self@.consumed,
    {
        self.total_len - self.consumed
    }

    /// How many more bytes could be written before the byte count overflows.
    pub fn remaining_mut(&self) -> (n: usize)
        requires
            self.wf(),
        ensures
            n == usize::MAX - self.contents().len(),
    {
        usize::MAX - self.total_len
    }

    /// Consume `cnt` more bytes.
    pub fn advance(&mut self, cnt: usize)
        requires
            old(self).wf(),
            cnt <= old(self).contents().len() - old(self)@.consumed,
        ensures
            final(self).wf(),
            final(self)@.segments == old(self)@.segments,
            final(self)@.consumed == old(self)@.consumed + cnt,
    {
        self.consumed = self.consumed + cnt;
    }

    /// The unread rest of the segment that holds the next unread byte; empty
    /// once everything has been consumed.
    pub fn chunk(&self) -> (s: &[u8])
        requires
            self.wf(),
        ensures
            self@.consumed == self.contents().len() ==> s@.len() == 0,
            self@.consumed < self.contents().len() ==> exists|k: int|
                #![trigger seg_end(self@.segments, k)]
                0 <= k < self@.segments.len() && seg_start(self@.segments, k) <= self@.consumed
                    < seg_end(self@.segments, k) && s@ == self.contents().subrange(
                    self@.consumed as int,
                    seg_end(self@.segments, k),
                ),
    {
        let ghost segs = self@.segments;
        let n = self.segments.len();
        let mut pos: usize = 0;
        let mut i: usize = 0;
        while i < n
            invariant
                n == self.segments.len() == segs.len(),
                segs == self@.segments,
                self.wf(),
                0 <= i <= n,
                pos == seg_start(segs, i as int),
                pos <= self.consumed,
            decreases n - i,
        {
            proof {
                lemma_flatten_segment(segs, n as int, i as int);
            }
            let seg = &self.segments[i];
            let seg_len = seg.len();
            assert(segs[i as int] == seg.view());
            if self.consumed < pos + seg_len {
                let local = self.consumed - pos;
                let all = seg.as_slice();
                let s = slice_subrange(all, local, seg_len);
                proof {
                    assert(s@ =~= self.contents().subrange(
                        self@.consumed as int,
                        seg_end(segs, i as int),
                    ));
                }
                return s;
            }
            pos = pos + seg_len;
            i = i + 1;
        }
        proof {
            lemma_flatten_len(segs, n as int);
        }
        let empty: &[u8] = &[];
        empty
    }

    /// The unread parts of the segments, in order, skipping segments that are
    /// wholly consumed or empty; at most `max` of them.
    pub fn chunks_vectored(&self, max: usize) -> (v: Vec<&[u8]>)
        requires
            self.wf(),
        ensures
            v@.len() == (if max < pieces(self@.segments, self@.consumed as int).len() {
                max as int
            } else {
                pieces(self@.segments, self@.consumed as int).len() as int
            }),
            forall|i: int|
                0 <= i < v@.len() ==> #[trigger] v@[i]@ == pieces(
                    self@.segments,
                    self@.consumed as int,
                )[i],
    {
        let ghost segs = self@.segments;
        let ghost c = self.consumed as int;
        let mut out: Vec<&[u8]> = Vec::new();
        if max == 0 {
            return out;
        }
        let n = self.segments.len();
        let mut pos: usize = 0;
        let mut i: usize = 0;
        while i < n && out.len() < max
            invariant
                n == self.segments.len() == segs.len(),
                segs == self@.segments,
                c == self.consumed,
                self.wf(),
                0 <= i <= n,
                pos == seg_start(segs, i as int),
                out@.len() <= max,
                out@.len() == pieces_upto(segs, i as int, c).len(),
                forall|j: int|
                    0 <= j < out@.len() ==> #[trigger] out@[j]@ == pieces_upto(segs, i as int, c)[j],
            decreases n - i,
        {
            proof {
                lemma_flatten_segment(segs, n as int, i as int);
                lemma_flatten_len(segs, n as int);
            }
            let seg = &self.segments[i];
            let seg_len = seg.len();
            assert(segs[i as int] == seg.view());
            if self.consumed < pos + seg_len {
                let local = if self.consumed > pos {
                    self.consumed - pos
                } else {
                    0
                };
                let slice = slice_subrange(seg.as_slice(), local, seg_len);
                if slice.len() > 0 {
                    out.push(slice);
                }
            }
            pos = pos + seg_len;
            i = i + 1;
            proof {
                let p = pieces_upto(segs, (i - 1) as int, c);
                if seg_end(segs, (i - 1) as int) > c && segs[i - 1].data.len() > 0 {
                    assert(pieces_upto(segs, i as int, c) == p.push(unread_piece(segs, (i - 1) as int, c)));
                }
            }
        }
        proof {
            lemma_pieces_prefix(segs, i as int, n as int, c);
        }
        out
    }

    /// Ensure the last segment is an `Inline` and return a mutable reference to it.
    fn current_inline(&mut self) -> (b: &mut bytes::BytesMut)
        ensures
            bytes_mut_view(*b) == with_inline_last(old(self)@.segments).last().data,
            final(self)@.segments == with_inline_last(old(self)@.segments).update(
                with_inline_last(old(self)@.segments).len() - 1,
                SegmentView { inline: true, data: bytes_mut_view(*final(b)) },
            ),
            final(self)@.consumed == old(self)@.consumed,
            final(self).total_len == old(self).total_len,
    {
        let n = self.segments.len();
        if n == 0 || !self.segments[n - 1].is_inline() {
            self.segments.push(Segment::Inline(bytes_mut_new()));
            assert(self@.segments =~= old(self)@.segments.push(
                SegmentView { inline: true, data: Seq::empty() },
            ));
        }
        let last = self.segments.len() - 1;
        assert(self@.segments == with_inline_last(old(self)@.segments));
        let ghost v = self.segments@;
        assert forall|x: Segment| #[trigger] segs_of(v.update(last as int, x)) == segs_of(v).update(last as int, x.view()) by {
            lemma_segs_of_update(v, last as int, x);
        }
        assert(segs_of(v)[last as int] == v[last as int].view());
        inline_bytes_mut(&mut self.segments[last])
    }

    /// Whether `n` more bytes can be copied in (see `ByteBufMut::room_to_copy`).
    pub fn has_room_to_copy(&self, n: usize) -> (b: bool)
        requires
            self.wf(),
        ensures
            b == self.room_to_copy(n as int),
    {
        let count_room = n <= usize::MAX - self.total_len;
        let len = self.segments.len();
        let inline_len = if len > 0 && self.segments[len - 1].is_inline() {
            self.segments[len - 1].len()
        } else {
            0
        };
        proof {
            if len > 0 {
                assert(self@.segments[len - 1] == self.segments@[len - 1].view());
            }
            assert(with_inline_last(self@.segments).last().data.len() == inline_len);
        }
        count_room && n as u128 + inline_len as u128 <= isize::MAX as u128
    }

    /// Whether a shared handle of `n` bytes can be stored (see
    /// `ByteBufMut::room_to_share`).
    pub fn has_room_to_share(&self, n: usize) -> (b: bool)
        requires
            self.wf(),
        ensures
            b == self.room_to_share(n as int),
    {
        n <= usize::MAX - self.total_len
    }

    /// Whether the first segment that holds all of `start..end` holds inline
    /// bytes; `None` when no segment holds all of it.
    pub fn holder_is_inline(&self, start: usize, end: usize) -> (r: Option<bool>)
        requires
            self.wf(),
        ensures
            r is None <==> !(exists|k: int| first_holder(self@.segments, k, start as int, end as int)),
            r matches Some(b) ==> forall|k: int|
                first_holder(self@.segments, k, start as int, end as int) ==> self@.segments[k].inline
                    == b,
    {
        match self.first_holder_index(start, end) {
            Some((k, _)) => {
                let r = self.segments[k].is_inline();
                proof {
                    assert(self@.segments[k as int] == self.segments@[k as int].view());
                    assert forall|k0: int|
                        first_holder(self@.segments, k0, start as int, end as int) implies self@.segments[k0].inline
                        == r by {
                        lemma_first_holder_unique(self@.segments, k0, k as int, start as int, end as int);
                    }
                }
                Some(r)
            },
            None => None,
        }
    }

    /// Whether `start..end` can be written in place: the first segment that
    /// holds all of it holds inline bytes.
    pub fn is_writable(&self, start: usize, end: usize) -> (b: bool)
        requires
            self.wf(),
        ensures
            b == range_writable(self@.segments, start as int, end as int),
    {
        if start > end {
            return false;
        }
        match self.holder_is_inline(start, end) {
            Some(inline) => inline,
            None => false,
        }
    }

    fn first_holder_index(&self, start: usize, end: usize) -> (res: Option<(usize, usize)>)
        requires
            self.wf(),
        ensures
            match res {
                Some((k, pos)) => first_holder(self@.segments, k as int, start as int, end as int)
                    && pos == seg_start(self@.segments, k as int),
                None => forall|k: int|
                    0 <= k < self@.segments.len() ==> !#[trigger] holds_range(
                        self@.segments,
                        k,
                        start as int,
                        end as int,
                    ),
            },
    {
        let ghost segs = self@.segments;
        let n = self.segments.len();
        let mut pos: usize = 0;
        let mut i: usize = 0;
        while i < n
            invariant
                n == self.segments.len() == segs.len(),
                segs == self@.segments,
                self.wf(),
                0 <= i <= n,
                pos == seg_start(segs, i as int),
                forall|j: int| 0 <= j < i ==> !#[trigger] holds_range(segs, j, start as int, end as int),
            decreases n - i,
        {
            proof {
                lemma_flatten_segment(segs, n as int, i as int);
                lemma_flatten_len(segs, n as int);
            }
            let seg_len = self.segments[i].len();
            assert(segs[i as int] == self.segments@[i as int].view());
            if start >= pos && end <= pos + seg_len {
                return Some((i, pos));
            }
            pos = pos + seg_len;
            i = i + 1;
        }
        None
    }

    /// Write an `i32` at the given absolute byte offset within the buffer,
    /// most significant byte first.
    ///
    /// Used to patch the length prefix after the full message has been written.
    pub fn patch_i32(&mut self, offset: usize, value: i32)
        requires
            old(self).wf(),
            range_writable(old(self)@.segments, offset as int, offset + 4),
        ensures
            final(self).wf(),
            final(self)@.consumed == old(self)@.consumed,
            same_layout(final(self)@.segments, old(self)@.segments),
            final(self).contents() == old(self).contents().take(offset as int) + be_bytes(
                (value as u32) as nat,
                4,
            ) + old(self).contents().skip(offset + 4),
    {
        proof {
            self.lemma_writable_bounds(offset as int, offset + 4);
        }
        let dst = self.range(offset..offset + 4);
        proof {
            lemma_be_bytes_len((value as u32) as nat, 4);
        }
        put_be(dst, (value as u32) as u128, 4);
    }
}

impl Default for SegmentedBuf {
    fn default() -> (b: Self)
        ensures
            b.wf(),
            b@.segments == Seq::<SegmentView>::empty(),
            b@.consumed == 0,
    {
        Self::new()
    }
}

impl ByteBufMut for SegmentedBuf {
    open spec fn written(&self) -> Seq<u8> {
        self.contents()
    }

    open spec fn well_formed(&self) -> bool {
        self.wf()
    }

    open spec fn writable(&self, start: int, end: int) -> bool {
        range_writable(self@.segments, start, end)
    }

    open spec fn room_to_copy(&self, n: int) -> bool {
        &&& flatten(self@.segments).len() + n <= usize::MAX
        &&& with_inline_last(self@.segments).last().data.len() + n <= isize::MAX
    }

    open spec fn room_to_share(&self, n: int) -> bool {
        flatten(self@.segments).len() + n <= usize::MAX
    }

    proof fn lemma_room_bounds(&self, n: int) {
    }

    proof fn lemma_writable_bounds(&self, start: int, end: int) {
        let k = choose|k: int| first_holder(self@.segments, k, start, end) && self@.segments[k].inline;
        lemma_holder_bounds(self@.segments, k, start, end);
    }

    fn offset(&self) -> (n: usize) {
        self.total_len
    }

    fn seek(&mut self, offset: usize)
        ensures
            final(self)@.consumed == old(self)@.consumed,
            offset <= old(self).written().len() ==> final(self)@ == old(self)@,
            offset > old(self).written().len() ==> final(self)@.segments == append_inline(
                old(self)@.segments,
                zeros((offset - old(self).written().len()) as nat),
            ),
    {
        if offset > self.total_len {
            let needed = offset - self.total_len;
            let ghost segs = self@.segments;
            proof {
                lemma_append_inline(segs, zeros(needed as nat));
            }
            let inline = self.current_inline();
            let l = bytes_mut_len(inline);
            bytes_mut_resize(inline, l + needed, 0);
            self.total_len = offset;
            proof {
                let s = with_inline_last(segs);
                assert(Seq::new(needed as nat, |i: int| 0u8) =~= zeros(needed as nat));
                assert(self@.segments =~= append_inline(segs, zeros(needed as nat)));
                lemma_append_inline_writable(segs, zeros(needed as nat));
                assert forall|a: int, b: int|
                    a < b && range_writable(segs, a, b) implies #[trigger] range_writable(
                        self@.segments,
                        a,
                        b,
                    ) by {
                    lemma_append_inline_keeps_writable(segs, zeros(needed as nat), a, b);
                }
            }
        }
    }

    fn range(&mut self, r: Range<usize>) -> (s: &mut [u8])
        ensures
            final(self)@.consumed == old(self)@.consumed,
            final(self)@.segments.len() == old(self)@.segments.len(),
            forall|j: int|
                0 <= j < old(self)@.segments.len() ==> #[trigger] final(self)@.segments[j].inline
                    == old(self)@.segments[j].inline,
            final(s)@.len() == s@.len() ==> same_layout(final(self)@.segments, old(self)@.segments),
    {
        let ghost segs = self@.segments;
        let ghost w = self.written();
        let ghost start = r.start as int;
        let ghost end = r.end as int;
        let ghost k0 = choose|k: int| first_holder(segs, k, start, end) && segs[k].inline;
        let (k, pos) = match self.first_holder_index(r.start, r.end) {
            Some(found) => found,
            None => {
                assert(holds_range(segs, k0, start, end));
                unreached()
            },
        };
        let ghost v = self.segments@;
        let ghost d = segs[k as int].data;
        let ghost ls = start - pos;
        let ghost le = end - pos;
        proof {
            lemma_first_holder_unique(segs, k0, k as int, start, end);
            lemma_holder_bounds(segs, k as int, start, end);
            lemma_flatten_len(segs, k as int);
            assert(segs[k as int] == v[k as int].view());
            assert forall|x: Segment| #[trigger] segs_of(v.update(k as int, x)) == segs_of(v).update(k as int, x.view()) by {
                lemma_segs_of_update(v, k as int, x);
            }
            assert forall|fs: Seq<u8>|
                #[trigger] flatten(
                    segs.update(
                        k as int,
                        SegmentView { inline: true, data: d.take(ls) + fs + d.skip(le) },
                    ),
                ) == w.take(start) + fs + w.skip(end) by {
                let x = SegmentView { inline: true, data: d.take(ls) + fs + d.skip(le) };
                lemma_flatten_update(segs, k as int, x, segs.len() as int);
                lemma_flatten_update(segs, k as int, segs[k as int], segs.len() as int);
                assert(segs.update(k as int, segs[k as int]) =~= segs);
                assert(w =~= flatten_upto(segs, k as int) + d + w.skip(seg_end(segs, k as int)));
                assert(w.take(start) =~= flatten_upto(segs, k as int) + d.take(ls));
                assert(w.skip(end) =~= d.skip(le) + w.skip(seg_end(segs, k as int)));
                assert(flatten(segs.update(k as int, x)) =~= w.take(start) + fs + w.skip(end));
            }
        }
        proof {
            assert forall|t: Seq<SegmentView>, a: int, b: int|
                same_layout(t, segs) && range_writable(segs, a, b) implies #[trigger] range_writable(
                    t,
                    a,
                    b,
                ) by {
                lemma_same_layout_keeps_writable(segs, t, a, b);
            }
        }
        inline_range_mut(&mut self.segments[k], r.start - pos, r.end - pos)
    }

    fn put_slice(&mut self, src: &[u8])
        ensures
            final(self)@.consumed == old(self)@.consumed,
            final(self)@.segments == append_inline(old(self)@.segments, src@),
    {
        let ghost segs = self@.segments;
        proof {
            lemma_append_inline(segs, src@);
        }
        let inline = self.current_inline();
        bytes_mut_extend_from_slice(inline, src);
        self.total_len = self.total_len + src.len();
        assert(self@.segments =~= append_inline(segs, src@));
        assert forall|a: int, b: int|
            a < b && range_writable(segs, a, b) implies #[trigger] range_writable(
                self@.segments,
                a,
                b,
            ) by {
            lemma_append_inline_keeps_writable(segs, src@, a, b);
        }
    }

    fn put_shared_bytes(&mut self, bytes: bytes::Bytes)
        ensures
            final(self)@.consumed == old(self)@.consumed,
            final(self)@.segments == append_shared(old(self)@.segments, bytes_view(bytes)),
    {
        let ghost segs = self@.segments;
        proof {
            lemma_append_shared(segs, bytes_view(bytes));
        }
        assert forall|a: int, b: int|
            a < b && range_writable(segs, a, b) implies #[trigger] range_writable(
                append_shared(segs, bytes_view(bytes)),
                a,
                b,
            ) by {
            lemma_append_shared_keeps_writable(segs, bytes_view(bytes), a, b);
        }
        let len = bytes_len(&bytes);
        if len == 0 {
            return;
        }
        let n = self.segments.len();
        if n > 0 {
            let drop_last = match &self.segments[n - 1] {
                Segment::Inline(b) => bytes_mut_len(b) == 0,
                Segment::Shared(_) => false,
            };
            if drop_last {
                self.segments.pop();
                assert(self@.segments =~= segs.drop_last());
            }
        }
        self.segments.push(Segment::Shared(bytes));
        self.total_len = self.total_len + len;
        assert(self@.segments =~= append_shared(segs, bytes_view(bytes)));
    }

    fn put_gap(&mut self, len: usize) -> (g: Gap)
        ensures
            final(self)@.consumed == old(self)@.consumed,
            len > 0 ==> final(self)@.segments == append_inline(old(self)@.segments, zeros(len as nat)),
            len == 0 ==> final(self)@ == old(self)@,
    {
        let offset = self.offset();
        proof {
            self.lemma_room_bounds(len as int);
        }
        self.seek(offset + len);
        proof {
            assert(offset + len - offset == len);
        }
        Gap::new(offset, len)
    }

    fn gap_buf(&mut self, gap: Gap) -> (s: &mut [u8])
        ensures
            final(self)@.consumed == old(self)@.consumed,
            final(s)@.len() == s@.len() ==> same_layout(final(self)@.segments, old(self)@.segments),
    {
        let (offset, len) = gap.parts();
        proof {
            self.lemma_writable_bounds(offset as int, offset + len);
        }
        self.range(offset..(offset + len))
    }

    fn put_typed_gap<T: GapType>(&mut self, type_: T) -> (g: TypedGap<T>)
        ensures
            final(self)@.consumed == old(self)@.consumed,
            type_.gap_size() > 0 ==> final(self)@.segments == append_inline(
                old(self)@.segments,
                zeros(type_.gap_size()),
            ),
            type_.gap_size() == 0 ==> final(self)@ == old(self)@,
    {
        let gap = self.put_gap(type_.size());
        TypedGap::new(gap, type_)
    }

    fn fill_typed_gap<T: GapType>(&mut self, gap: TypedGap<T>, value: T::Value)
        ensures
            final(self)@.consumed == old(self)@.consumed,
            same_layout(final(self)@.segments, old(self)@.segments),
    {
        let ghost start = gap.gap().start();
        let ghost size = gap.kind().gap_size();
        let ghost w = self.written();
        proof {
            self.lemma_writable_bounds(start, start + gap.gap().size());
        }
        let (g, kind) = gap.into_parts();
        kind.put(self.gap_buf(g), value);
        assert(self.written() =~= w.take(start) + kind.encode(value) + w.skip(start + size));
    }
}

/// What the buffer hands out for sending, joined in order, is exactly what
/// has not been consumed yet; no piece it hands out is empty.
pub proof fn lemma_pieces_are_unread(buf: &SegmentedBuf)
    requires
        buf.wf(),
    ensures
        join(pieces(buf@.segments, buf@.consumed as int)) == buf.contents().skip(
            buf@.consumed as int,
        ),
        forall|i: int|
            0 <= i < pieces(buf@.segments, buf@.consumed as int).len() ==> #[trigger] pieces(
                buf@.segments,
                buf@.consumed as int,
            )[i].len() > 0,
{
    let segs = buf@.segments;
    lemma_flatten_len(segs, segs.len() as int);
    lemma_join_pieces(segs, segs.len() as int, buf@.consumed as int);
}

/// While bytes remain, `chunk` gives the first piece that `chunks_vectored`
/// gives: the rest of the segment that holds the next unread byte.
pub proof fn lemma_chunk_is_first_piece(buf: &SegmentedBuf, k: int)
    requires
        buf.wf(),
        0 <= k < buf@.segments.len(),
        seg_start(buf@.segments, k) <= buf@.consumed < seg_end(buf@.segments, k),
    ensures
        pieces(buf@.segments, buf@.consumed as int).len() > 0,
        pieces(buf@.segments, buf@.consumed as int)[0] == buf.contents().subrange(
            buf@.consumed as int,
            seg_end(buf@.segments, k),
        ),
{
    let segs = buf@.segments;
    let c = buf@.consumed as int;
    lemma_pieces_empty(segs, k, c);
    assert(pieces_upto(segs, k + 1, c) =~= seq![unread_piece(segs, k, c)]);
    lemma_pieces_prefix(segs, k + 1, segs.len() as int, c);
    lemma_flatten_segment(segs, segs.len() as int, k);
    lemma_seg_start_mono(segs, 0, k);
    let st = seg_start(segs, k);
    let en = seg_end(segs, k);
    assert(buf.contents().subrange(c, en) =~= buf.contents().subrange(st, en).skip(c - st));
    assert(unread_piece(segs, k, c) =~= buf.contents().subrange(c, en));
}

proof fn lemma_pieces_after_chunk(segs: Seq<SegmentView>, k: int, c: int, n: int)
    requires
        0 <= k < n <= segs.len(),
        0 <= seg_start(segs, k) <= c < seg_end(segs, k),
    ensures
        pieces_upto(segs, n, c).len() > 0,
        pieces_upto(segs, n, seg_end(segs, k)) == pieces_upto(segs, n, c).drop_first(),
    decreases n,
{
    if n == k + 1 {
        lemma_pieces_empty(segs, k, c);
        lemma_pieces_empty(segs, k, seg_end(segs, k));
        assert(pieces_upto(segs, n, c) =~= seq![unread_piece(segs, k, c)]);
        assert(pieces_upto(segs, n, seg_end(segs, k)) =~= pieces_upto(segs, n, c).drop_first());
    } else {
        lemma_pieces_after_chunk(segs, k, c, n - 1);
        lemma_seg_start_mono(segs, k + 1, n - 1);
        let e = seg_end(segs, k);
        let p = pieces_upto(segs, n - 1, c);
        let q = pieces_upto(segs, n - 1, e);
        if segs[n - 1].data.len() > 0 {
            assert(unread_piece(segs, n - 1, c) =~= segs[n - 1].data);
            assert(unread_piece(segs, n - 1, e) =~= segs[n - 1].data);
            assert(p.push(segs[n - 1].data).drop_first() =~= p.drop_first().push(segs[n - 1].data));
        }
    }
}

/// Consuming exactly what `chunk` gave leaves the pieces that followed it:
/// reading chunk by chunk reads the pieces in order.
pub proof fn lemma_advance_past_chunk(buf: &SegmentedBuf, k: int)
    requires
        buf.wf(),
        0 <= k < buf@.segments.len(),
        seg_start(buf@.segments, k) <= buf@.consumed < seg_end(buf@.segments, k),
    ensures
        pieces(buf@.segments, seg_end(buf@.segments, k)) == pieces(
            buf@.segments,
            buf@.consumed as int,
        ).drop_first(),
{
    lemma_seg_start_mono(buf@.segments, 0, k);
    lemma_pieces_after_chunk(buf@.segments, k, buf@.consumed as int, buf@.segments.len() as int);
}

} // verus!
