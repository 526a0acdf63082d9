use bytes::{Bytes, BytesMut};
use kafka_protocol::protocol::buf::{ByteBufMut, SegmentedBuf};

#[test]
fn segmented_buf_inline_only() {
    let mut buf = SegmentedBuf::new();
    buf.put_slice(b"hello ");
    buf.put_slice(b"world");
    assert_eq!(buf.remaining(), 11);
    assert_eq!(buf.chunk(), b"hello world");
}

#[test]
fn segmented_buf_shared_only() {
    let mut buf = SegmentedBuf::new();
    buf.put_shared_bytes(Bytes::from_static(b"hello "));
    buf.put_shared_bytes(Bytes::from_static(b"world"));
    assert_eq!(buf.remaining(), 11);
    // chunk() returns the first segment
    assert_eq!(buf.chunk(), b"hello ");
}

#[test]
fn segmented_buf_mixed_inline_and_shared() {
    let mut buf = SegmentedBuf::new();
    // Write header inline
    buf.put_slice(b"HDR:");
    // Append shared record data
    buf.put_shared_bytes(Bytes::from_static(b"record1"));
    // Write more inline
    buf.put_slice(b"|");
    buf.put_shared_bytes(Bytes::from_static(b"record2"));

    assert_eq!(buf.remaining(), 4 + 7 + 1 + 7);

    // Read all bytes by advancing through chunks
    let mut collected = Vec::new();
    while buf.remaining() > 0 {
        let chunk = buf.chunk();
        collected.extend_from_slice(chunk);
        let len = chunk.len();
        buf.advance(len);
    }
    assert_eq!(&collected, b"HDR:record1|record2");
}

#[test]
fn segmented_buf_empty_shared_ignored() {
    let mut buf = SegmentedBuf::new();
    buf.put_slice(b"data");
    buf.put_shared_bytes(Bytes::new()); // empty, should be ignored
    assert_eq!(buf.remaining(), 4);
    assert_eq!(buf.chunk(), b"data");
}

#[test]
fn segmented_buf_advance_across_segments() {
    let mut buf = SegmentedBuf::new();
    buf.put_slice(b"ab");
    buf.put_shared_bytes(Bytes::from_static(b"cd"));
    buf.put_slice(b"ef");

    assert_eq!(buf.remaining(), 6);
    buf.advance(1); // consume 'a'
    assert_eq!(buf.remaining(), 5);
    assert_eq!(buf.chunk(), b"b");
    buf.advance(1); // consume 'b'
    assert_eq!(buf.chunk(), b"cd");
    buf.advance(3); // consume 'cd' and 'e'
    assert_eq!(buf.chunk(), b"f");
    buf.advance(1);
    assert_eq!(buf.remaining(), 0);
}

#[test]
fn segmented_buf_chunks_vectored() {
    let mut buf = SegmentedBuf::new();
    buf.put_slice(b"header");
    buf.put_shared_bytes(Bytes::from_static(b"body1"));
    buf.put_shared_bytes(Bytes::from_static(b"body2"));
    buf.put_slice(b"trailer");

    let io_slices = buf.chunks_vectored(8);
    let n = io_slices.len();
    assert_eq!(n, 4);
    assert_eq!(io_slices[0], b"header");
    assert_eq!(io_slices[1], b"body1");
    assert_eq!(io_slices[2], b"body2");
    assert_eq!(io_slices[3], b"trailer");
}

#[test]
fn segmented_buf_chunks_vectored_after_partial_advance() {
    let mut buf = SegmentedBuf::new();
    buf.put_slice(b"hdr");
    buf.put_shared_bytes(Bytes::from_static(b"payload"));

    // Advance past the inline segment into the shared one
    buf.advance(4); // consume "hdr" + first byte of "payload"
    let io_slices = buf.chunks_vectored(4);
    let n = io_slices.len();
    assert_eq!(n, 1);
    assert_eq!(io_slices[0], b"ayload");
}

#[test]
fn segmented_buf_patch_i32() {
    let mut buf = SegmentedBuf::new();
    buf.put_slice(&[0u8; 4]); // placeholder
    buf.put_slice(b"data");
    buf.patch_i32(0, 42);

    assert_eq!(buf.chunk()[..4], 42i32.to_be_bytes());
}

#[test]
fn segmented_buf_default() {
    let buf = SegmentedBuf::default();
    assert_eq!(buf.remaining(), 0);
    assert!(buf.chunk().is_empty());
}

#[test]
fn byte_buf_mut_put_shared_bytes_default_copies() {
    // The default `put_shared_bytes` on BytesMut should copy (no-op zero-copy)
    let mut buf = BytesMut::new();
    buf.put_shared_bytes(Bytes::from_static(b"hello"));
    assert_eq!(&buf[..], b"hello");
}

#[test]
fn segmented_buf_bytebufmut_offset_and_seek() {
    let mut buf = SegmentedBuf::new();
    assert_eq!(buf.offset(), 0);
    buf.put_slice(b"abc");
    assert_eq!(buf.offset(), 3);
    buf.seek(10);
    assert_eq!(buf.offset(), 10);
    // seek doesn't shrink
    buf.seek(5);
    assert_eq!(buf.offset(), 10);
}

#[test]
fn segmented_buf_bytebufmut_range() {
    let mut buf = SegmentedBuf::new();
    buf.put_slice(b"hello world");
    let r = buf.range(6..11);
    assert_eq!(r, b"world");
}

#[test]
fn segmented_buf_patch_into_shared_is_not_writable() {
    let mut buf = SegmentedBuf::new();
    buf.put_shared_bytes(Bytes::from_static(&[0u8; 4]));
    assert!(!buf.is_writable(0, 4));
    let mut buf2 = SegmentedBuf::new();
    buf2.put_slice(&[0u8; 4]);
    assert!(buf2.is_writable(0, 4));
    assert!(!buf2.is_writable(2, 6));
    assert!(!buf2.is_writable(3, 2));
}

#[test]
fn segmented_buf_patch_straddling_segments_is_not_writable() {
    let mut buf = SegmentedBuf::new();
    buf.put_slice(b"ab");
    buf.put_shared_bytes(Bytes::from_static(b"cd"));
    buf.put_slice(b"ef");
    assert!(!buf.is_writable(1, 3));
    assert!(buf.is_writable(4, 6));
}

#[test]
fn segmented_buf_patch_in_later_inline_segment() {
    let mut buf = SegmentedBuf::new();
    buf.put_shared_bytes(Bytes::from_static(b"xx"));
    buf.put_slice(&[0u8; 6]);
    assert!(buf.is_writable(3, 7));
    buf.patch_i32(3, -2);
    let mut all = Vec::new();
    for s in buf.chunks_vectored(10) {
        all.extend_from_slice(s);
    }
    assert_eq!(all, vec![b'x', b'x', 0, 0xff, 0xff, 0xff, 0xfe, 0]);
}

#[test]
fn segmented_buf_seek_pads_with_zeros() {
    let mut buf = SegmentedBuf::new();
    buf.put_shared_bytes(Bytes::from_static(b"ab"));
    buf.seek(5);
    assert_eq!(buf.remaining(), 5);
    let v = buf.chunks_vectored(usize::MAX);
    assert_eq!(v, vec![&b"ab"[..], &[0u8, 0, 0][..]]);
}

#[test]
fn segmented_buf_chunks_vectored_limit_and_zero() {
    let mut buf = SegmentedBuf::new();
    buf.put_slice(b"a");
    buf.put_shared_bytes(Bytes::from_static(b"b"));
    buf.put_slice(b"c");
    assert!(buf.chunks_vectored(0).is_empty());
    assert_eq!(buf.chunks_vectored(2), vec![&b"a"[..], &b"b"[..]]);
    buf.advance(3);
    assert!(buf.chunks_vectored(5).is_empty());
    assert!(buf.chunk().is_empty());
}

#[test]
fn segmented_buf_remaining_mut() {
    let mut buf = SegmentedBuf::new();
    assert_eq!(buf.remaining_mut(), usize::MAX);
    buf.put_slice(b"abc");
    assert_eq!(buf.remaining_mut(), usize::MAX - 3);
}

#[test]
fn segmented_buf_empty_inline_gives_way_to_shared() {
    let mut buf = SegmentedBuf::new();
    buf.put_shared_bytes(Bytes::from_static(b"a"));
    buf.put_slice(b"");
    buf.put_shared_bytes(Bytes::from_static(b"b"));
    assert_eq!(buf.chunks_vectored(10), vec![&b"a"[..], &b"b"[..]]);
}

#[test]
fn segmented_buf_room_counts_only_inline_allocation() {
    let mut buf = SegmentedBuf::new();
    assert!(buf.has_room_to_copy(isize::MAX as usize));
    assert!(!buf.has_room_to_copy(isize::MAX as usize + 1));
    assert!(buf.has_room_to_share(usize::MAX));
    buf.put_slice(b"ab");
    assert!(buf.has_room_to_copy(isize::MAX as usize - 2));
    assert!(!buf.has_room_to_copy(isize::MAX as usize - 1));
    assert!(buf.has_room_to_share(usize::MAX - 2));
    assert!(!buf.has_room_to_share(usize::MAX - 1));
    buf.put_shared_bytes(Bytes::from_static(b"xy"));
    assert!(buf.has_room_to_copy(isize::MAX as usize));
    assert!(!buf.has_room_to_share(usize::MAX - 3));
}

#[test]
fn segmented_buf_gap_keeps_read_position() {
    let mut buf = SegmentedBuf::new();
    buf.put_slice(b"abc");
    buf.advance(2);
    let g = buf.put_gap(2);
    assert_eq!(buf.remaining(), 3);
    buf.gap_buf(g).copy_from_slice(b"yz");
    assert_eq!(buf.remaining(), 3);
    assert_eq!(buf.chunk(), b"cyz");
}
