use kafka_protocol::customizations::{
    apply, patch_fetch_response_partition_data, replace_once, BUILDERS_ANCHOR, COMPUTE_SIZE_ANCHOR, DECODE_ANCHOR, DEFAULT_ANCHOR,
    DEFAULT_REPLACEMENT, ENCODE_ANCHOR, FIELD_ANCHOR, FIELD_REPLACEMENT,
};

#[test]
fn replace_once_replaces_first_occurrence_only() {
    assert_eq!(replace_once("a-b-c", "-", "+", "dash"), "a+b-c");
    assert_eq!(replace_once("héllo wörld wörld", "wörld", "x", "w"), "héllo x wörld");
    assert_eq!(replace_once("abc", "", "X", "empty"), "Xabc");
    assert_eq!(replace_once("aaa", "aa", "b", "overlap"), "ba");
}

fn sample() -> String {
    let mut s = String::from("// header\n");
    for (i, a) in [
        FIELD_ANCHOR,
        BUILDERS_ANCHOR,
        ENCODE_ANCHOR,
        COMPUTE_SIZE_ANCHOR,
        DECODE_ANCHOR,
        DEFAULT_ANCHOR,
    ]
    .iter()
    .enumerate()
    {
        s.push_str(&format!("// part {}\n", i));
        s.push_str(a);
        s.push('\n');
    }
    s
}

#[test]
fn apply_patches_every_anchor() {
    let out = apply(&sample()).expect("all anchors are present");
    assert!(out.contains("pub record_segments: Vec<Bytes>,"));
    assert!(out.contains("pub fn with_record_segments(mut self, value: Vec<Bytes>) -> Self {"));
    assert!(out.contains("pub fn for_fetch("));
    assert!(out.contains("buf.put_shared_bytes(segment.clone());"));
    assert!(out.contains("total_size += 4; // i32 length prefix"));
    assert!(out.contains("record_segments: Vec::new(),\n            unknown_tagged_fields,"));
    assert!(out.ends_with(&format!("{}\n", DEFAULT_REPLACEMENT)));
    assert!(out.starts_with("// header\n// part 0\n"));
    assert!(out.contains(FIELD_REPLACEMENT));
}

#[test]
fn apply_reports_first_missing_anchor() {
    let text = sample().replacen(ENCODE_ANCHOR, "", 1);
    let e = apply(&text).unwrap_err();
    assert_eq!(e.step, 2);
    assert_eq!(e.description, "record_segments in PartitionData encode");
    assert_eq!(e.expected, ENCODE_ANCHOR);

    let e = apply("nothing here").unwrap_err();
    assert_eq!(e.step, 0);
    assert_eq!(e.description, "record_segments field in PartitionData");
}

#[test]
fn apply_twice_fails_at_first_step() {
    let once = apply(&sample()).expect("all anchors are present");
    let e = apply(&once).unwrap_err();
    assert_eq!(e.step, 0);
    assert_eq!(e.description, "record_segments field in PartitionData");
    assert_eq!(e.expected, FIELD_ANCHOR);
}

#[test]
fn apply_equals_patch_function() {
    let text = sample();
    assert_eq!(
        apply(&text).unwrap(),
        patch_fetch_response_partition_data(&text).unwrap()
    );
    let e1 = apply("none").unwrap_err();
    let e2 = patch_fetch_response_partition_data("none").unwrap_err();
    assert_eq!((e1.step, e1.description, e1.expected), (e2.step, e2.description, e2.expected));
}
