use bytes::{Bytes, BytesMut};
use kafka_protocol::protocol::buf::gap::{I128Le, I16, I32, I32Le, I64, U128, U16Le, U32, U64Le, U8};
use kafka_protocol::protocol::buf::{ByteBuf, ByteBufMut, GapType, NotEnoughBytesError, SegmentedBuf};

#[test]
fn bytes_peek_and_get() {
    let mut b = Bytes::from_static(b"hello world");
    assert_eq!(&b.peek_bytes(2..5)[..], b"llo");
    assert_eq!(ByteBuf::remaining(&b), 11);
    assert_eq!(&b.get_bytes(6)[..], b"hello ");
    assert_eq!(&b[..], b"world");
    assert!(b.try_peek_bytes(0..6).is_err());
    assert_eq!(&b.try_peek_bytes(1..5).unwrap()[..], b"orld");
    assert!(b.try_get_bytes(6).is_err());
    assert_eq!(&b[..], b"world");
    assert_eq!(&b.try_get_bytes(5).unwrap()[..], b"world");
    assert!(b.is_empty());
}

#[test]
fn bytes_mut_and_slice_peek_and_get() {
    let mut m = BytesMut::from(&b"abcdef"[..]);
    assert_eq!(&m.peek_bytes(1..3)[..], b"bc");
    assert_eq!(&m.get_bytes(2)[..], b"ab");
    assert_eq!(&m[..], b"cdef");
    assert!(m.try_get_bytes(5).is_err());

    let data = [1u8, 2, 3, 4];
    let mut s: &[u8] = &data;
    assert_eq!(&s.peek_bytes(0..4)[..], &[1, 2, 3, 4]);
    assert_eq!(&s.get_bytes(1)[..], &[1]);
    assert_eq!(s, &[2, 3, 4]);
    assert_eq!(ByteBuf::remaining(&s), 3);
    assert!(s.try_peek_bytes(0..4).is_err());
}

#[test]
fn not_enough_bytes_message() {
    assert_eq!(NotEnoughBytesError.message(), "Not enough bytes remaining in buffer!\n");
}

#[test]
fn gap_encodings_match_std() {
    let mut buf = [0xaau8; 20];
    U8.put(&mut buf, 0x12);
    assert_eq!(buf[..2], [0x12, 0xaa]);
    I16.put(&mut buf, -2);
    assert_eq!(buf[..3], [0xff, 0xfe, 0xaa]);
    U16Le.put(&mut buf, 0x1234);
    assert_eq!(buf[..2], 0x1234u16.to_le_bytes());
    U32.put(&mut buf, 0xdead_beef);
    assert_eq!(buf[..4], 0xdead_beefu32.to_be_bytes());
    I32.put(&mut buf, -5);
    assert_eq!(buf[..4], (-5i32).to_be_bytes());
    I32Le.put(&mut buf, -5);
    assert_eq!(buf[..4], (-5i32).to_le_bytes());
    I64.put(&mut buf, i64::MIN + 7);
    assert_eq!(buf[..8], (i64::MIN + 7).to_be_bytes());
    U64Le.put(&mut buf, 0x0102_0304_0506_0708);
    assert_eq!(buf[..8], 0x0102_0304_0506_0708u64.to_le_bytes());
    U128.put(&mut buf, u128::MAX - 3);
    assert_eq!(buf[..16], (u128::MAX - 3).to_be_bytes());
    I128Le.put(&mut buf, -9);
    assert_eq!(buf[..16], (-9i128).to_le_bytes());
    assert_eq!(buf[16..], [0xaa; 4]);
    assert_eq!(I128Le.size(), 16);
    assert_eq!(U8.size(), 1);
}

#[test]
fn typed_gap_in_vec() {
    let mut v: Vec<u8> = vec![9];
    let g = v.put_typed_gap(I32);
    v.put_slice(b"xy");
    assert_eq!(v, vec![9, 0, 0, 0, 0, b'x', b'y']);
    v.fill_typed_gap(g, 0x0102_0304);
    assert_eq!(v, vec![9, 1, 2, 3, 4, b'x', b'y']);
    v.seek(3);
    assert_eq!(v, vec![9, 1, 2]);
    assert_eq!(v.offset(), 3);
}

#[test]
fn typed_gap_in_segmented_buf() {
    let mut buf = SegmentedBuf::new();
    let g = buf.put_typed_gap(I32);
    buf.put_shared_bytes(Bytes::from_static(b"payload"));
    buf.fill_typed_gap(g, 7);
    let mut all = Vec::new();
    for s in buf.chunks_vectored(8) {
        all.extend_from_slice(s);
    }
    assert_eq!(all, b"\0\0\0\x07payload".to_vec());
}

#[test]
fn gap_in_bytes_mut() {
    let mut m = BytesMut::new();
    m.put_slice(b"ab");
    let g = m.put_gap(3);
    assert_eq!(&m[..], b"ab\0\0\0");
    m.gap_buf(g).copy_from_slice(b"xyz");
    assert_eq!(&m[..], b"abxyz");
    m.seek(1);
    assert_eq!(&m[..], b"a");
}

#[test]
fn typed_gap_then_shared_then_fill() {
    let mut b = SegmentedBuf::new();
    let g = b.put_typed_gap(I32);
    b.put_shared_bytes(Bytes::from_static(b"xy"));
    b.fill_typed_gap(g, 2);
    assert_eq!(b.remaining(), 6);
    let v = b.chunks_vectored(4);
    assert_eq!(v.len(), 2);
    assert_eq!(v[0], [0u8, 0, 0, 2]);
    assert_eq!(v[1], b"xy");
}
