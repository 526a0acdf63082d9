//! Post-generation customizations for specific message types.
//!
//! These customizations add fields and methods to generated structs that are not
//! part of the upstream Kafka protocol schema but are needed by downstream consumers
//! (e.g., zero-copy multi-batch fetch responses).
//!
//! After running the code generator, `apply()` patches the generated files in-place.
//! This ensures customizations survive regeneration. Here the patching works on the
//! text of a file; reading and writing the file is left to the caller.
use vstd::prelude::*;

verus! {

/// `p` occurs in `s` starting at `i`.
pub open spec fn matches_at(s: Seq<char>, p: Seq<char>, i: int) -> bool {
    0 <= i && i + p.len() <= s.len() && s.subrange(i, i + p.len()) == p
}

/// `p` occurs somewhere in `s`.
pub open spec fn contains(s: Seq<char>, p: Seq<char>) -> bool {
    exists|i: int| matches_at(s, p, i)
}

/// `i` is where `p` first occurs in `s`.
pub open spec fn first_match(s: Seq<char>, p: Seq<char>, i: int) -> bool {
    matches_at(s, p, i) && forall|j: int| 0 <= j < i ==> !#[trigger] matches_at(s, p, j)
}

/// `s` with its first occurrence of `old` replaced by `new` (meaningful when
/// `old` occurs in `s`).
pub open spec fn replace_first(s: Seq<char>, old: Seq<char>, new: Seq<char>) -> Seq<char> {
    let i = choose|i: int| first_match(s, old, i);
    s.take(i) + new + s.skip(i + old.len())
}

/// The result of applying the replacements of `steps` in turn to `content`:
/// the text after the first `n` steps, or the index of the first step whose
/// text to replace was not found.
pub open spec fn run_steps(content: Seq<char>, steps: Seq<(Seq<char>, Seq<char>)>, n: int) -> Result<
    Seq<char>,
    int,
>
    decreases n,
{
    if n <= 0 {
        Ok(content)
    } else {
        match run_steps(content, steps, n - 1) {
            Err(i) => Err(i),
            Ok(t) => if contains(t, steps[n - 1].0) {
                Ok(replace_first(t, steps[n - 1].0, steps[n - 1].1))
            } else {
                Err(n - 1)
            },
        }
    }
}

/// A customization could not be applied: the text it replaces was not found.
#[derive(Debug)]
pub struct AnchorNotFound {
    /// Which replacement failed, counting from zero.
    pub step: usize,
    /// What the replacement is for.
    pub description: &'static str,
    /// The text that was expected.
    pub expected: &'static str,
}

/// Adds the `record_segments` field to `PartitionData`. The anchor is the records field followed by
/// `unknown_tagged_fields`, which occurs only in `PartitionData`.
pub const FIELD_ANCHOR: &'static str = r##"pub records: Option<Bytes>,

    /// Other tagged fields
    pub unknown_tagged_fields: BTreeMap<i32, Bytes>,
}

impl PartitionData {
    /// Sets `partition_index`"##;

/// What replaces [`FIELD_ANCHOR`].
pub const FIELD_REPLACEMENT: &'static str = r##"pub records: Option<Bytes>,

    /// Pre-encoded record batch segments for zero-copy multi-batch encoding.
    ///
    /// When non-empty, these segments are written directly instead of `records`.
    /// This avoids copying record batches into a single contiguous buffer.
    pub record_segments: Vec<Bytes>,

    /// Other tagged fields
    pub unknown_tagged_fields: BTreeMap<i32, Bytes>,
}

impl PartitionData {
    /// Sets `partition_index`"##;

/// What the replacement of [`FIELD_ANCHOR`] is for.
pub const FIELD_DESCRIPTION: &'static str = "record_segments field in PartitionData";

/// Adds the `with_record_segments` builder and the `for_fetch` constructor. The anchor is the close
/// of the `impl PartitionData` block right before the broker `Encodable` impl.
pub const BUILDERS_ANCHOR: &'static str = r##"}

#[cfg(feature = "broker")]
impl Encodable for PartitionData {"##;

/// What replaces [`BUILDERS_ANCHOR`].
pub const BUILDERS_REPLACEMENT: &'static str = r##"    /// Sets `record_segments` for zero-copy multi-batch encoding.
    pub fn with_record_segments(mut self, value: Vec<Bytes>) -> Self {
        self.record_segments = value;
        self
    }
    /// Constructs a partition response with only the fields needed for fetch.
    /// Avoids the allocations in `Default` (BTreeMap, Vec, Bytes).
    #[inline]
    pub fn for_fetch(
        partition_index: i32,
        high_watermark: i64,
        records: Option<Bytes>,
        record_segments: Vec<Bytes>,
        error_code: i16,
        log_start_offset: i64,
    ) -> Self {
        Self {
            partition_index,
            error_code,
            high_watermark,
            last_stable_offset: high_watermark,
            log_start_offset,
            diverging_epoch: Default::default(),
            current_leader: Default::default(),
            snapshot_id: Default::default(),
            aborted_transactions: None,
            preferred_read_replica: (-1).into(),
            records,
            record_segments,
            unknown_tagged_fields: BTreeMap::new(),
        }
    }
}

#[cfg(feature = "broker")]
impl Encodable for PartitionData {"##;

/// What the replacement of [`BUILDERS_ANCHOR`] is for.
pub const BUILDERS_DESCRIPTION: &'static str = "with_record_segments and for_fetch methods";

/// Makes `encode` write `record_segments` when there are any. The anchor occurs only in
/// `PartitionData`'s `Encodable` impl.
pub const ENCODE_ANCHOR: &'static str = r##"if version >= 12 {
            types::CompactBytes.encode(buf, &self.records)?;
        } else {
            types::Bytes.encode(buf, &self.records)?;
        }
        if version >= 12 {
            let mut num_tagged_fields = self.unknown_tagged_fields.len();
            if &self.diverging_epoch != &Default::default()"##;

/// What replaces [`ENCODE_ANCHOR`].
pub const ENCODE_REPLACEMENT: &'static str = r##"if !self.record_segments.is_empty() {
            // Multi-batch zero-copy: write total length prefix, then each segment
            let total_len: usize = self.record_segments.iter().map(|s| s.len()).sum();
            if version >= 12 {
                types::UnsignedVarInt.encode(buf, (total_len as u32) + 1)?;
            } else {
                if total_len > i32::MAX as usize {
                    bail!("Record segments too large to encode ({} bytes)", total_len);
                }
                types::Int32.encode(buf, total_len as i32)?;
            }
            for segment in &self.record_segments {
                buf.put_shared_bytes(segment.clone());
            }
        } else if version >= 12 {
            types::CompactBytes.encode(buf, &self.records)?;
        } else {
            types::Bytes.encode(buf, &self.records)?;
        }
        if version >= 12 {
            let mut num_tagged_fields = self.unknown_tagged_fields.len();
            if &self.diverging_epoch != &Default::default()"##;

/// What the replacement of [`ENCODE_ANCHOR`] is for.
pub const ENCODE_DESCRIPTION: &'static str = "record_segments in PartitionData encode";

/// Makes `compute_size` count `record_segments` when there are any.
pub const COMPUTE_SIZE_ANCHOR: &'static str = r##"if version >= 12 {
            total_size += types::CompactBytes.compute_size(&self.records)?;
        } else {
            total_size += types::Bytes.compute_size(&self.records)?;
        }
        if version >= 12 {
            let mut num_tagged_fields = self.unknown_tagged_fields.len();
            if &self.diverging_epoch != &Default::default()"##;

/// What replaces [`COMPUTE_SIZE_ANCHOR`].
pub const COMPUTE_SIZE_REPLACEMENT: &'static str = r##"if !self.record_segments.is_empty() {
            let total_len: usize = self.record_segments.iter().map(|s| s.len()).sum();
            if version >= 12 {
                total_size += types::UnsignedVarInt.compute_size((total_len as u32) + 1)?;
            } else {
                total_size += 4; // i32 length prefix
            }
            total_size += total_len;
        } else if version >= 12 {
            total_size += types::CompactBytes.compute_size(&self.records)?;
        } else {
            total_size += types::Bytes.compute_size(&self.records)?;
        }
        if version >= 12 {
            let mut num_tagged_fields = self.unknown_tagged_fields.len();
            if &self.diverging_epoch != &Default::default()"##;

/// What the replacement of [`COMPUTE_SIZE_ANCHOR`] is for.
pub const COMPUTE_SIZE_DESCRIPTION: &'static str = "record_segments in PartitionData compute_size";

/// Makes `decode` fill `record_segments` with an empty vector.
pub const DECODE_ANCHOR: &'static str = r##"records,
            unknown_tagged_fields,
        })
    }
}

impl Default for PartitionData {"##;

/// What replaces [`DECODE_ANCHOR`].
pub const DECODE_REPLACEMENT: &'static str = r##"records,
            record_segments: Vec::new(),
            unknown_tagged_fields,
        })
    }
}

impl Default for PartitionData {"##;

/// What the replacement of [`DECODE_ANCHOR`] is for.
pub const DECODE_DESCRIPTION: &'static str = "record_segments in PartitionData decode";

/// Makes `Default` fill `record_segments` with an empty vector.
pub const DEFAULT_ANCHOR: &'static str = r##"records: Some(Default::default()),
            unknown_tagged_fields: BTreeMap::new(),
        }
    }
}
"##;

/// What replaces [`DEFAULT_ANCHOR`].
pub const DEFAULT_REPLACEMENT: &'static str = r##"records: Some(Default::default()),
            record_segments: Vec::new(),
            unknown_tagged_fields: BTreeMap::new(),
        }
    }
}
"##;

/// What the replacement of [`DEFAULT_ANCHOR`] is for.
pub const DEFAULT_DESCRIPTION: &'static str = "record_segments in PartitionData Default";

/// `r` is what customizing the text `content` of `fetch_response.rs` gives:
/// the text after all the replacements of [`fetch_response_steps`], or the
/// first step whose text to replace is missing, with its description and
/// expected text.
pub open spec fn customization_outcome(content: Seq<char>, r: Result<String, AnchorNotFound>) -> bool {
    match r {
        Ok(t) => run_steps(content, fetch_response_steps(), 6) == Ok::<Seq<char>, int>(t@),
        Err(e) => run_steps(content, fetch_response_steps(), 6) == Err::<Seq<char>, int>(
            e.step as int,
        ) && e.step < 6 && e.expected@ == fetch_response_steps()[e.step as int].0
            && e.description@ == fetch_response_descriptions()[e.step as int],
    }
}

/// The replacements that add `record_segments` to `PartitionData` in
/// `fetch_response.rs`, in the order they are applied.
pub open spec fn fetch_response_steps() -> Seq<(Seq<char>, Seq<char>)> {
    seq![
        (FIELD_ANCHOR@, FIELD_REPLACEMENT@),
        (BUILDERS_ANCHOR@, BUILDERS_REPLACEMENT@),
        (ENCODE_ANCHOR@, ENCODE_REPLACEMENT@),
        (COMPUTE_SIZE_ANCHOR@, COMPUTE_SIZE_REPLACEMENT@),
        (DECODE_ANCHOR@, DECODE_REPLACEMENT@),
        (DEFAULT_ANCHOR@, DEFAULT_REPLACEMENT@),
    ]
}

/// The descriptions of the steps of [`fetch_response_steps`].
pub open spec fn fetch_response_descriptions() -> Seq<Seq<char>> {
    seq![
        FIELD_DESCRIPTION@,
        BUILDERS_DESCRIPTION@,
        ENCODE_DESCRIPTION@,
        COMPUTE_SIZE_DESCRIPTION@,
        DECODE_DESCRIPTION@,
        DEFAULT_DESCRIPTION@,
    ]
}

fn chars_of(s: &str) -> (v: Vec<char>)
    ensures
        v@ == s@,
{
    let mut v: Vec<char> = Vec::new();
    for c in iter: s.chars()
        invariant
            v@ == iter.seq().take(iter.index() as int),
    {
        v.push(c);
    }
    v
}

/// Where `p` first occurs in `s`, if it occurs.
fn find_first(s: &Vec<char>, p: &Vec<char>) -> (r: Option<usize>)
    ensures
        match r {
            Some(i) => first_match(s@, p@, i as int),
            None => !contains(s@, p@),
        },
{
    let n = s.len();
    let m = p.len();
    if m > n {
        assert forall|i: int| !matches_at(s@, p@, i) by {}
        return None;
    }
    let mut i: usize = 0;
    while i <= n - m
        invariant
            m <= n == s@.len(),
            m == p@.len(),
            i <= n - m + 1,
            forall|j: int| 0 <= j < i ==> !#[trigger] matches_at(s@, p@, j),
        decreases n - m + 1 - i,
    {
        let mut k: usize = 0;
        while k < m && s[i + k] == p[k]
            invariant
                m <= n == s@.len(),
                m == p@.len(),
                i <= n - m,
                k <= m,
                forall|t: int| 0 <= t < k ==> s@[i + t] == p@[t],
            decreases m - k,
        {
            k = k + 1;
        }
        if k == m {
            assert(s@.subrange(i as int, i + m) =~= p@);
            return Some(i);
        }
        assert(!matches_at(s@, p@, i as int)) by {
            if matches_at(s@, p@, i as int) {
                assert(s@.subrange(i as int, i + m)[k as int] == p@[k as int]);
            }
        }
        i = i + 1;
    }
    assert forall|j: int| !matches_at(s@, p@, j) by {
        if 0 <= j && matches_at(s@, p@, j) {
            assert(j < i);
        }
    }
    None
}

proof fn lemma_first_match_unique(s: Seq<char>, p: Seq<char>, i: int, j: int)
    requires
        first_match(s, p, i),
        first_match(s, p, j),
    ensures
        i == j,
{
    if i < j {
        assert(!matches_at(s, p, i));
    } else if j < i {
        assert(!matches_at(s, p, j));
    }
}

/// `s` with the characters `at..at + len` replaced by `new`.
fn splice(s: &str, at: usize, len: usize, new: &str) -> (r: String)
    requires
        at + len <= s@.len(),
    ensures
        r@ == s@.take(at as int) + new@ + s@.skip(at + len),
{
    let n = s.unicode_len();
    let mut r = String::from_str(s.substring_char(0, at));
    r.append(new);
    r.append(s.substring_char(at + len, n));
    assert(s@.take(at as int) =~= s@.subrange(0, at as int));
    assert(s@.skip(at + len) =~= s@.subrange(at + len, n as int));
    r
}

/// Replace `old` with `new` in `content` exactly once, at its first occurrence.
/// `old` must occur in `content`; `description` says what the replacement is for.
pub fn replace_once(content: &str, old: &str, new: &str, description: &str) -> (r: String)
    requires
        contains(content@, old@),
    ensures
        r@ == replace_first(content@, old@, new@),
{
    let cs = chars_of(content);
    let os = chars_of(old);
    match find_first(&cs, &os) {
        Some(i) => {
            proof {
                let c = choose|c: int| first_match(content@, old@, c);
                lemma_first_match_unique(content@, old@, c, i as int);
            }
            splice(content, i, os.len(), new)
        },
        None => unreached(),
    }
}

/// Apply step `step` of the customizations: replace `old` with `new` in
/// `content`, or report that `old` was not found.
fn replace_step(
    content: &str,
    old: &'static str,
    new: &'static str,
    description: &'static str,
    step: usize,
) -> (r: Result<String, AnchorNotFound>)
    ensures
        match r {
            Ok(t) => contains(content@, old@) && t@ == replace_first(content@, old@, new@),
            Err(e) => !contains(content@, old@) && e.step == step && e.description == description
                && e.expected == old,
        },
{
    let cs = chars_of(content);
    let os = chars_of(old);
    match find_first(&cs, &os) {
        Some(_) => Ok(replace_once(content, old, new, description)),
        None => Err(AnchorNotFound { step, description, expected: old }),
    }
}

/// Add `record_segments` field, `for_fetch` constructor, and zero-copy encode/decode
/// to `PartitionData`, given the text of `fetch_response.rs`.
pub fn patch_fetch_response_partition_data(content: &str) -> (r: Result<String, AnchorNotFound>)
    ensures
        customization_outcome(content@, r),
{
    proof {
        reveal_with_fuel(run_steps, 7);
    }
    let ghost steps = fetch_response_steps();
    let c1 = match replace_step(content, FIELD_ANCHOR, FIELD_REPLACEMENT, FIELD_DESCRIPTION, 0) {
        Ok(t) => t,
        Err(e) => {
            assert(run_steps(content@, steps, 0) == Ok::<Seq<char>, int>(content@));
            return Err(e);
        },
    };
    let c2 = match replace_step(c1.as_str(), BUILDERS_ANCHOR, BUILDERS_REPLACEMENT, BUILDERS_DESCRIPTION, 1) {
        Ok(t) => t,
        Err(e) => {
            assert(run_steps(content@, steps, 1) == Ok::<Seq<char>, int>(c1@));
            return Err(e);
        },
    };
    let c3 = match replace_step(c2.as_str(), ENCODE_ANCHOR, ENCODE_REPLACEMENT, ENCODE_DESCRIPTION, 2) {
        Ok(t) => t,
        Err(e) => {
            assert(run_steps(content@, steps, 2) == Ok::<Seq<char>, int>(c2@));
            return Err(e);
        },
    };
    let c4 = match replace_step(c3.as_str(), COMPUTE_SIZE_ANCHOR, COMPUTE_SIZE_REPLACEMENT, COMPUTE_SIZE_DESCRIPTION, 3) {
        Ok(t) => t,
        Err(e) => {
            assert(run_steps(content@, steps, 3) == Ok::<Seq<char>, int>(c3@));
            return Err(e);
        },
    };
    let c5 = match replace_step(c4.as_str(), DECODE_ANCHOR, DECODE_REPLACEMENT, DECODE_DESCRIPTION, 4) {
        Ok(t) => t,
        Err(e) => {
            assert(run_steps(content@, steps, 4) == Ok::<Seq<char>, int>(c4@));
            return Err(e);
        },
    };
    let c6 = match replace_step(c5.as_str(), DEFAULT_ANCHOR, DEFAULT_REPLACEMENT, DEFAULT_DESCRIPTION, 5) {
        Ok(t) => t,
        Err(e) => {
            assert(run_steps(content@, steps, 5) == Ok::<Seq<char>, int>(c5@));
            return Err(e);
        },
    };
    assert(run_steps(content@, steps, 6) == Ok::<Seq<char>, int>(c6@));
    Ok(c6)
}

/// Apply all post-generation customizations, given the text of the generated
/// `fetch_response.rs`; returns its new text.
pub fn apply(fetch_response: &str) -> (r: Result<String, AnchorNotFound>)
    ensures
        customization_outcome(fetch_response@, r),
{
    let patched = patch_fetch_response_partition_data(fetch_response)?;
    Ok(patched)
}

/// Replacing the first occurrence of `old` keeps the text before it, puts
/// `new` in its place and keeps the text after it: the result is `new.len() -
/// old.len()` characters longer and holds `new` where `old` first stood.
pub proof fn lemma_replace_first_shape(s: Seq<char>, old: Seq<char>, new: Seq<char>)
    requires
        contains(s, old),
    ensures
        exists|i: int|
            first_match(s, old, i) && #[trigger] replace_first(s, old, new).take(i) == s.take(i)
                && matches_at(replace_first(s, old, new), new, i) && replace_first(s, old, new).skip(
                i + new.len(),
            ) == s.skip(i + old.len()),
        replace_first(s, old, new).len() == s.len() - old.len() + new.len(),
{
    let i0 = choose|i: int| matches_at(s, old, i);
    let i = first_occurrence(s, old, i0);
    let r = replace_first(s, old, new);
    assert(r.take(i) =~= s.take(i));
    assert(r.subrange(i, i + new.len()) =~= new);
    assert(r.skip(i + new.len()) =~= s.skip(i + old.len()));
}

/// Where `old` first occurs, given that it occurs at `k`.
proof fn first_occurrence(s: Seq<char>, old: Seq<char>, k: int) -> (i: int)
    requires
        matches_at(s, old, k),
    ensures
        first_match(s, old, i),
    decreases k,
{
    if forall|j: int| 0 <= j < k ==> !#[trigger] matches_at(s, old, j) {
        k
    } else {
        let j = choose|j: int| 0 <= j < k && matches_at(s, old, j);
        first_occurrence(s, old, j)
    }
}

/// A text has one customization outcome: two results that are both what
/// customizing `content` gives agree, text for text or on the failing step,
/// its description and its expected text. So `apply` gives what
/// `patch_fetch_response_partition_data` gives, on every text.
pub proof fn lemma_customization_outcome_unique(
    content: Seq<char>,
    r1: Result<String, AnchorNotFound>,
    r2: Result<String, AnchorNotFound>,
)
    requires
        customization_outcome(content, r1),
        customization_outcome(content, r2),
    ensures
        match (r1, r2) {
            (Ok(t1), Ok(t2)) => t1@ == t2@,
            (Err(e1), Err(e2)) => e1.step == e2.step && e1.description@ == e2.description@
                && e1.expected@ == e2.expected@,
            _ => false,
        },
{
}

} // verus!
