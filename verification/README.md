# kafka_protocol

Buffers and error codes for the Kafka wire protocol, verified with Verus.

- `src/protocol/buf.rs`: reading ahead in byte buffers (`ByteBuf`), writing
  into them with gaps that are filled later (`ByteBufMut`, `GapType`,
  `TypedGap`); `buf/gap.rs` holds the integer gap types and their
  big- and little-endian encodings; `buf/segmented.rs` holds `SegmentedBuf`,
  a buffer of inline bytes and shared `Bytes` handles that can be handed out
  for vectored writes.
- `src/error.rs`: Kafka response error codes (`ResponseError`) and
  `ParseResponseErrorCode` for `i16`.
- `src/customizations.rs`: the text replacements that add
  `record_segments` to the generated `fetch_response.rs`.
- `src/bytes_ext.rs`: what the library assumes of the `bytes` crate.
- `app/`: file I/O for the customizations, `Display` for the error types,
  float gaps, and the `bytes::Buf`/`BufMut` traits over `SegmentedBuf`.
