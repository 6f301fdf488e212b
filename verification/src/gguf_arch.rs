//! Typed lookups in parsed metadata and extraction of the model architecture.

use vstd::prelude::*;

use crate::gguf_parse::{EntryView, GgufMetadata, MetadataEntry, MetadataValue, ValueView, entry_views};
use crate::text::{concat, owned};

verus! {

/// A floating-point metadata value, kept as its IEEE-754 bit pattern and width.
#[derive(Debug, Clone, Copy, PartialEq, Eq)]
pub enum FloatBits {
    F32(u32),
    F64(u64),
}

/// Error returned when required architecture metadata is missing.
#[derive(Debug, Clone, PartialEq, Eq)]
pub struct MissingMetadata {
    pub key: String,
}

impl MissingMetadata {
    /// The human-readable message of the error.
    pub fn to_string(&self) -> (s: String)
        ensures
            s@ == "missing metadata key: "@ + self.key@,
    {
        concat(owned("missing metadata key: "), self.key.as_str())
    }
}

// ---------------------------------------------------------------------------
// Lookups
// ---------------------------------------------------------------------------

/// The value of the first entry whose key is `key`, if any.
pub open spec fn find_key(es: Seq<EntryView>, key: Seq<char>) -> Option<ValueView>
    decreases es.len(),
{
    if es.len() == 0 {
        None
    } else if es[0].key == key {
        Some(es[0].value)
    } else {
        find_key(es.drop_first(), key)
    }
}

/// A value read as `u32`: unsigned values of up to 32 bits as they are, and `int32`, `uint64`
/// and `int64` values converted with Rust's `as u32`.
pub open spec fn as_u32(v: ValueView) -> Option<u32> {
    match v {
        ValueView::Uint8(x) => Some(x as u32),
        ValueView::Uint16(x) => Some(x as u32),
        ValueView::Uint32(x) => Some(x),
        ValueView::Int32(x) => Some(x as u32),
        ValueView::Uint64(x) => Some(x as u32),
        ValueView::Int64(x) => Some(x as u32),
        _ => None,
    }
}

/// A value read as `i32`: `int32` as it is; `uint32`, `int64` and `uint64` with Rust's `as i32`.
pub open spec fn as_i32(v: ValueView) -> Option<i32> {
    match v {
        ValueView::Int32(x) => Some(x),
        ValueView::Uint32(x) => Some(x as i32),
        ValueView::Int64(x) => Some(x as i32),
        ValueView::Uint64(x) => Some(x as i32),
        _ => None,
    }
}

/// A value read as `u64`: unsigned values as they are, `int32` and `int64` with Rust's `as u64`.
pub open spec fn as_u64(v: ValueView) -> Option<u64> {
    match v {
        ValueView::Uint8(x) => Some(x as u64),
        ValueView::Uint16(x) => Some(x as u64),
        ValueView::Uint32(x) => Some(x as u64),
        ValueView::Uint64(x) => Some(x),
        ValueView::Int32(x) => Some(x as u64),
        ValueView::Int64(x) => Some(x as u64),
        _ => None,
    }
}

/// A floating-point value.
pub open spec fn as_float(v: ValueView) -> Option<FloatBits> {
    match v {
        ValueView::Float32(x) => Some(FloatBits::F32(x)),
        ValueView::Float64(x) => Some(FloatBits::F64(x)),
        _ => None,
    }
}

/// A string value.
pub open spec fn as_string(v: ValueView) -> Option<Seq<char>> {
    match v {
        ValueView::String(s) => Some(s),
        _ => None,
    }
}

/// Look up a metadata entry by key, returning None if not found.
fn find_entry<'a>(entries: &'a [MetadataEntry], key: &str) -> (r: Option<&'a MetadataEntry>)
    ensures
        match find_key(entry_views(entries@), key@) {
            Some(v) => r matches Some(e) && e@.key == key@ && e@.value == v,
            None => r is None,
        },
{
    let wanted = owned(key);
    let ghost es = entry_views(entries@);
    let mut i: usize = 0;
    assert(es.skip(0) =~= es);
    while i < entries.len()
        invariant
            i <= entries@.len(),
            es == entry_views(entries@),
            wanted@ == key@,
            find_key(es, key@) == find_key(es.skip(i as int), key@),
        decreases entries@.len() - i,
    {
        assert(es.skip(i as int).drop_first() =~= es.skip(i as int + 1));
        if entries[i].key == wanted {
            return Some(&entries[i]);
        }
        i = i + 1;
    }
    None
}

/// Extract a u32 value from metadata. Accepts any integer type source.
fn get_u32(entries: &[MetadataEntry], key: &str) -> (r: Option<u32>)
    ensures
        r == (match find_key(entry_views(entries@), key@) {
            Some(v) => as_u32(v),
            None => None,
        }),
{
    let entry = find_entry(entries, key)?;
    match &entry.value {
        MetadataValue::Uint8(v) => Some(*v as u32),
        MetadataValue::Uint16(v) => Some(*v as u32),
        MetadataValue::Uint32(v) => Some(*v),
        MetadataValue::Int32(v) => Some(*v as u32),
        MetadataValue::Uint64(v) => Some(*v as u32),
        MetadataValue::Int64(v) => Some(*v as u32),
        _ => None,
    }
}

/// Extract an i32 value from metadata. Accepts any integer type source.
#[allow(dead_code)]
fn get_i32(entries: &[MetadataEntry], key: &str) -> (r: Option<i32>)
    ensures
        r == (match find_key(entry_views(entries@), key@) {
            Some(v) => as_i32(v),
            None => None,
        }),
{
    let entry = find_entry(entries, key)?;
    match &entry.value {
        MetadataValue::Int32(v) => Some(*v),
        MetadataValue::Uint32(v) => Some(*v as i32),
        MetadataValue::Int64(v) => Some(*v as i32),
        MetadataValue::Uint64(v) => Some(*v as i32),
        _ => None,
    }
}

/// Extract a u64 value from metadata. Accepts any integer type source.
fn get_u64(entries: &[MetadataEntry], key: &str) -> (r: Option<u64>)
    ensures
        r == (match find_key(entry_views(entries@), key@) {
            Some(v) => as_u64(v),
            None => None,
        }),
{
    let entry = find_entry(entries, key)?;
    match &entry.value {
        MetadataValue::Uint8(v) => Some(*v as u64),
        MetadataValue::Uint16(v) => Some(*v as u64),
        MetadataValue::Uint32(v) => Some(*v as u64),
        MetadataValue::Uint64(v) => Some(*v),
        MetadataValue::Int32(v) => Some(*v as u64),
        MetadataValue::Int64(v) => Some(*v as u64),
        _ => None,
    }
}

/// Extract a floating-point value from metadata. Accepts Float32 or Float64 sources.
fn get_f32(entries: &[MetadataEntry], key: &str) -> (r: Option<FloatBits>)
    ensures
        r == (match find_key(entry_views(entries@), key@) {
            Some(v) => as_float(v),
            None => None,
        }),
{
    let entry = find_entry(entries, key)?;
    match &entry.value {
        MetadataValue::Float32(v) => Some(FloatBits::F32(*v)),
        MetadataValue::Float64(v) => Some(FloatBits::F64(*v)),
        _ => None,
    }
}

/// Extract a String value from metadata.
fn get_string(entries: &[MetadataEntry], key: &str) -> (r: Option<String>)
    ensures
        match find_key(entry_views(entries@), key@) {
            Some(v) => match as_string(v) {
                Some(s) => r matches Some(t) && t@ == s,
                None => r is None,
            },
            None => r is None,
        },
{
    let entry = find_entry(entries, key)?;
    match &entry.value {
        MetadataValue::String(v) => Some(owned(v.as_str())),
        _ => None,
    }
}

// ---------------------------------------------------------------------------
// Required, optional and architecture-prefixed lookups
// ---------------------------------------------------------------------------

/// The `u32` at `key`, or the key itself when it is absent or not an integer.
pub open spec fn spec_require_u32(es: Seq<EntryView>, key: Seq<char>) -> Result<u32, Seq<char>> {
    match find_key(es, key) {
        Some(v) => match as_u32(v) {
            Some(x) => Ok(x),
            None => Err(key),
        },
        None => Err(key),
    }
}

/// The `u64` at `key`, or the key itself when it is absent or not an integer.
pub open spec fn spec_require_u64(es: Seq<EntryView>, key: Seq<char>) -> Result<u64, Seq<char>> {
    match find_key(es, key) {
        Some(v) => match as_u64(v) {
            Some(x) => Ok(x),
            None => Err(key),
        },
        None => Err(key),
    }
}

/// The value at `key` read as `u32`, if present and an integer.
pub open spec fn spec_get_u32(es: Seq<EntryView>, key: Seq<char>) -> Option<u32> {
    match find_key(es, key) {
        Some(v) => as_u32(v),
        None => None,
    }
}

/// The value at `key` read as `u64`, if present and an integer.
pub open spec fn spec_get_u64(es: Seq<EntryView>, key: Seq<char>) -> Option<u64> {
    match find_key(es, key) {
        Some(v) => as_u64(v),
        None => None,
    }
}

/// The floating-point value at `key`, if present and a float.
pub open spec fn spec_get_float(es: Seq<EntryView>, key: Seq<char>) -> Option<FloatBits> {
    match find_key(es, key) {
        Some(v) => as_float(v),
        None => None,
    }
}

/// The string at `key`, if present and a string.
pub open spec fn spec_get_string(es: Seq<EntryView>, key: Seq<char>) -> Option<Seq<char>> {
    match find_key(es, key) {
        Some(v) => as_string(v),
        None => None,
    }
}

/// The key of an architecture-specific field: `arch`, a dot, then `field`.
pub open spec fn arch_key(arch: Seq<char>, field: Seq<char>) -> Seq<char> {
    arch + "."@ + field
}

/// The error naming `key` as missing.
fn missing(key: &str) -> (m: MissingMetadata)
    ensures
        m.key@ == key@,
{
    MissingMetadata { key: owned(key) }
}

/// Extract a required u32 value, returning MissingMetadata if absent or wrong type.
fn require_u32(entries: &[MetadataEntry], key: &str) -> (r: Result<u32, MissingMetadata>)
    ensures
        match spec_require_u32(entry_views(entries@), key@) {
            Ok(x) => r == Ok::<u32, MissingMetadata>(x),
            Err(k) => r matches Err(m) && m.key@ == k,
        },
{
    match get_u32(entries, key) {
        Some(v) => Ok(v),
        None => Err(missing(key)),
    }
}

/// Extract a required u64 value, returning MissingMetadata if absent or wrong type.
fn require_u64(entries: &[MetadataEntry], key: &str) -> (r: Result<u64, MissingMetadata>)
    ensures
        match spec_require_u64(entry_views(entries@), key@) {
            Ok(x) => r == Ok::<u64, MissingMetadata>(x),
            Err(k) => r matches Err(m) && m.key@ == k,
        },
{
    match get_u64(entries, key) {
        Some(v) => Ok(v),
        None => Err(missing(key)),
    }
}

/// Extract a required floating-point value, returning MissingMetadata if absent or wrong type.
#[allow(dead_code)]
fn require_f32(entries: &[MetadataEntry], key: &str) -> (r: Result<FloatBits, MissingMetadata>)
    ensures
        match spec_get_float(entry_views(entries@), key@) {
            Some(x) => r == Ok::<FloatBits, MissingMetadata>(x),
            None => r matches Err(m) && m.key@ == key@,
        },
{
    match get_f32(entries, key) {
        Some(v) => Ok(v),
        None => Err(missing(key)),
    }
}

/// Extract a required String value, returning MissingMetadata if absent or wrong type.
fn require_string(entries: &[MetadataEntry], key: &str) -> (r: Result<String, MissingMetadata>)
    ensures
        match spec_get_string(entry_views(entries@), key@) {
            Some(s) => r matches Ok(t) && t@ == s,
            None => r matches Err(m) && m.key@ == key@,
        },
{
    match get_string(entries, key) {
        Some(v) => Ok(v),
        None => Err(missing(key)),
    }
}

/// Extract an optional String value, returning Ok(None) if absent or wrong type.
#[allow(dead_code)]
fn optional_string(entries: &[MetadataEntry], key: &str) -> (r: Result<Option<String>, MissingMetadata>)
    ensures
        match spec_get_string(entry_views(entries@), key@) {
            Some(s) => r matches Ok(Some(t)) && t@ == s,
            None => r matches Ok(None),
        },
{
    Ok(get_string(entries, key))
}

/// Extract an optional u32 value, returning Ok(None) if absent or wrong type.
fn optional_u32(entries: &[MetadataEntry], key: &str) -> (r: Result<Option<u32>, MissingMetadata>)
    ensures
        r == Ok::<Option<u32>, MissingMetadata>(spec_get_u32(entry_views(entries@), key@)),
{
    Ok(get_u32(entries, key))
}

/// Extract an optional u64 value, returning Ok(None) if absent or wrong type.
#[allow(dead_code)]
fn optional_u64(entries: &[MetadataEntry], key: &str) -> (r: Result<Option<u64>, MissingMetadata>)
    ensures
        r == Ok::<Option<u64>, MissingMetadata>(spec_get_u64(entry_views(entries@), key@)),
{
    Ok(get_u64(entries, key))
}

/// Extract an optional floating-point value, returning Ok(None) if absent or wrong type.
fn optional_f32(entries: &[MetadataEntry], key: &str) -> (r: Result<Option<FloatBits>, MissingMetadata>)
    ensures
        r == Ok::<Option<FloatBits>, MissingMetadata>(spec_get_float(entry_views(entries@), key@)),
{
    Ok(get_f32(entries, key))
}

/// The key `arch.field`.
fn arch_field_key(arch: &str, field: &str) -> (k: String)
    ensures
        k@ == arch_key(arch@, field@),
{
    concat(concat(owned(arch), "."), field)
}

/// Extract a required u32 with architecture-specific prefix.
fn arch_u32(entries: &[MetadataEntry], arch: &str, field: &str) -> (r: Result<u32, MissingMetadata>)
    ensures
        match spec_require_u32(entry_views(entries@), arch_key(arch@, field@)) {
            Ok(x) => r == Ok::<u32, MissingMetadata>(x),
            Err(k) => r matches Err(m) && m.key@ == k,
        },
{
    require_u32(entries, arch_field_key(arch, field).as_str())
}

/// Extract a required u64 with architecture-specific prefix.
fn arch_u64(entries: &[MetadataEntry], arch: &str, field: &str) -> (r: Result<u64, MissingMetadata>)
    ensures
        match spec_require_u64(entry_views(entries@), arch_key(arch@, field@)) {
            Ok(x) => r == Ok::<u64, MissingMetadata>(x),
            Err(k) => r matches Err(m) && m.key@ == k,
        },
{
    require_u64(entries, arch_field_key(arch, field).as_str())
}

/// Extract a required floating-point value with architecture-specific prefix.
#[allow(dead_code)]
fn arch_f32(entries: &[MetadataEntry], arch: &str, field: &str) -> (r: Result<FloatBits, MissingMetadata>)
    ensures
        match spec_get_float(entry_views(entries@), arch_key(arch@, field@)) {
            Some(x) => r == Ok::<FloatBits, MissingMetadata>(x),
            None => r matches Err(m) && m.key@ == arch_key(arch@, field@),
        },
{
    require_f32(entries, arch_field_key(arch, field).as_str())
}

/// Extract an optional u32 with architecture-specific prefix.
fn arch_optional_u32(entries: &[MetadataEntry], arch: &str, field: &str) -> (r: Result<Option<u32>, MissingMetadata>)
    ensures
        r == Ok::<Option<u32>, MissingMetadata>(
            spec_get_u32(entry_views(entries@), arch_key(arch@, field@)),
        ),
{
    optional_u32(entries, arch_field_key(arch, field).as_str())
}

/// Extract an optional u64 with architecture-specific prefix.
#[allow(dead_code)]
fn arch_optional_u64(entries: &[MetadataEntry], arch: &str, field: &str) -> (r: Result<Option<u64>, MissingMetadata>)
    ensures
        r == Ok::<Option<u64>, MissingMetadata>(
            spec_get_u64(entry_views(entries@), arch_key(arch@, field@)),
        ),
{
    optional_u64(entries, arch_field_key(arch, field).as_str())
}

/// Extract an optional floating-point value with architecture-specific prefix.
fn arch_optional_f32(entries: &[MetadataEntry], arch: &str, field: &str) -> (r: Result<Option<FloatBits>, MissingMetadata>)
    ensures
        r == Ok::<Option<FloatBits>, MissingMetadata>(
            spec_get_float(entry_views(entries@), arch_key(arch@, field@)),
        ),
{
    optional_f32(entries, arch_field_key(arch, field).as_str())
}

// ---------------------------------------------------------------------------
// Model architecture
// ---------------------------------------------------------------------------

/// Extracted architecture metadata for a GGUF model.
#[derive(Debug, Clone)]
pub struct ModelArch {
    /// Value of general.architecture (e.g. "llama", "qwen2")
    pub architecture: String,
    /// Value of general.name if present
    pub name: Option<String>,
    /// Value of tokenizer.ggml.model if present
    pub tokenizer_model: Option<String>,
    /// Number of transformer blocks
    pub block_count: u32,
    /// Context length (maximum sequence length)
    pub context_length: u32,
    /// Hidden / embedding dimension
    pub embedding_length: u32,
    /// Feed-forward (intermediate) dimension
    pub feed_forward_length: u32,
    /// Number of attention heads
    pub attention_head_count: u32,
    /// Number of KV heads (GQA) — None means same as attention_head_count
    pub attention_head_count_kv: Option<u32>,
    /// RoPE frequency base if present, as stored (32- or 64-bit float bits)
    pub rope_freq_base: Option<FloatBits>,
    /// File type (quantization type) if present
    pub file_type: Option<u32>,
}

/// A model architecture with its strings as characters.
pub struct ArchView {
    pub architecture: Seq<char>,
    pub name: Option<Seq<char>>,
    pub tokenizer_model: Option<Seq<char>>,
    pub block_count: u32,
    pub context_length: u32,
    pub embedding_length: u32,
    pub feed_forward_length: u32,
    pub attention_head_count: u32,
    pub attention_head_count_kv: Option<u32>,
    pub rope_freq_base: Option<FloatBits>,
    pub file_type: Option<u32>,
}

/// The characters of an optional string.
pub open spec fn opt_view(s: Option<String>) -> Option<Seq<char>> {
    match s {
        Some(t) => Some(t@),
        None => None,
    }
}

impl View for ModelArch {
    type V = ArchView;

    open spec fn view(&self) -> ArchView {
        ArchView {
            architecture: self.architecture@,
            name: opt_view(self.name),
            tokenizer_model: opt_view(self.tokenizer_model),
            block_count: self.block_count,
            context_length: self.context_length,
            embedding_length: self.embedding_length,
            feed_forward_length: self.feed_forward_length,
            attention_head_count: self.attention_head_count,
            attention_head_count_kv: self.attention_head_count_kv,
            rope_freq_base: self.rope_freq_base,
            file_type: self.file_type,
        }
    }
}

/// The architecture described by the metadata `es`, or the first required key that is absent
/// or of the wrong type. `general.architecture` names the prefix `a` of the
/// architecture-specific keys; the required ones are checked in the order `a.block_count`,
/// `a.context_length` (read as `u64`, kept as its low 32 bits), `a.embedding_length`,
/// `a.feed_forward_length`, `a.attention.head_count`.
pub open spec fn spec_model_arch(es: Seq<EntryView>) -> Result<ArchView, Seq<char>> {
    match spec_get_string(es, "general.architecture"@) {
        None => Err("general.architecture"@),
        Some(a) => match spec_require_u32(es, arch_key(a, "block_count"@)) {
            Err(k) => Err(k),
            Ok(block_count) => match spec_require_u64(es, arch_key(a, "context_length"@)) {
                Err(k) => Err(k),
                Ok(context_length) => match spec_require_u32(es, arch_key(a, "embedding_length"@)) {
                    Err(k) => Err(k),
                    Ok(embedding_length) => match spec_require_u32(
                        es,
                        arch_key(a, "feed_forward_length"@),
                    ) {
                        Err(k) => Err(k),
                        Ok(feed_forward_length) => match spec_require_u32(
                            es,
                            arch_key(a, "attention.head_count"@),
                        ) {
                            Err(k) => Err(k),
                            Ok(attention_head_count) => Ok(
                                ArchView {
                                    architecture: a,
                                    name: spec_get_string(es, "general.name"@),
                                    tokenizer_model: spec_get_string(es, "tokenizer.ggml.model"@),
                                    block_count,
                                    context_length: context_length as u32,
                                    embedding_length,
                                    feed_forward_length,
                                    attention_head_count,
                                    attention_head_count_kv: spec_get_u32(
                                        es,
                                        arch_key(a, "attention.head_count_kv"@),
                                    ),
                                    rope_freq_base: spec_get_float(es, arch_key(a, "rope.freq_base"@)),
                                    file_type: spec_get_u32(es, "general.file_type"@),
                                },
                            ),
                        },
                    },
                },
            },
        },
    }
}

impl GgufMetadata {
    /// Extract typed architecture metadata from the parsed GGUF metadata.
    ///
    /// Detects the architecture name from `general.architecture`, then uses
    /// the architecture-specific prefix (e.g. `llama.*`, `qwen2.*`) to look
    /// up the remaining fields.
    ///
    /// Returns `MissingMetadata` if any required field is absent or has an
    /// unexpected type.
    pub fn extract_model_arch(&self) -> (r: Result<ModelArch, MissingMetadata>)
        ensures
            match spec_model_arch(self@) {
                Ok(a) => r matches Ok(m) && m@ == a,
                Err(k) => r matches Err(m) && m.key@ == k,
            },
    {
        let entries = self.entries.as_slice();
        let architecture = require_string(entries, "general.architecture")?;
        let arch = architecture.as_str();
        let name = get_string(entries, "general.name");
        let tokenizer_model = get_string(entries, "tokenizer.ggml.model");
        let block_count = arch_u32(entries, arch, "block_count")?;
        let context_length = arch_u64(entries, arch, "context_length")? as u32;
        let embedding_length = arch_u32(entries, arch, "embedding_length")?;
        let feed_forward_length = arch_u32(entries, arch, "feed_forward_length")?;
        let attention_head_count = arch_u32(entries, arch, "attention.head_count")?;
        let attention_head_count_kv = arch_optional_u32(entries, arch, "attention.head_count_kv")?;
        let rope_freq_base = arch_optional_f32(entries, arch, "rope.freq_base")?;
        let file_type = get_u32(entries, "general.file_type");
        Ok(
            ModelArch {
                architecture: owned(arch),
                name,
                tokenizer_model,
                block_count,
                context_length,
                embedding_length,
                feed_forward_length,
                attention_head_count,
                attention_head_count_kv,
                rope_freq_base,
                file_type,
            },
        )
    }
}

// ---------------------------------------------------------------------------
// Laws
// ---------------------------------------------------------------------------

/// A lookup finds the first entry with the key: the value found is that of an entry with the
/// key, and no earlier entry has it; nothing is found exactly when no entry has the key.
pub proof fn lemma_find_key_first(es: Seq<EntryView>, key: Seq<char>)
    ensures
        find_key(es, key) matches Some(v) ==> exists|i: int|
            0 <= i < es.len() && (#[trigger] es[i]).key == key && es[i].value == v && forall|j: int|
                0 <= j < i ==> (#[trigger] es[j]).key != key,
        find_key(es, key) is None <==> forall|i: int| 0 <= i < es.len() ==> (#[trigger] es[i]).key != key,
    decreases es.len(),
{
    if es.len() > 0 {
        let rest = es.drop_first();
        lemma_find_key_first(rest, key);
        if es[0].key != key {
            if let Some(v) = find_key(es, key) {
                let i = choose|i: int|
                    0 <= i < rest.len() && (#[trigger] rest[i]).key == key && rest[i].value == v
                        && forall|j: int| 0 <= j < i ==> (#[trigger] rest[j]).key != key;
                assert(es[i + 1] == rest[i]);
                assert forall|j: int| 0 <= j < i + 1 implies (#[trigger] es[j]).key != key by {
                    if j > 0 {
                        assert(es[j] == rest[j - 1]);
                    }
                }
            }
            assert forall|i: int| 0 <= i < es.len() && (forall|i2: int| 0 <= i2 < rest.len() ==> (#[trigger] rest[i2]).key != key) implies (#[trigger] es[i]).key != key by {
                if i > 0 {
                    assert(es[i] == rest[i - 1]);
                }
            }
            if find_key(es, key) is None {
                assert forall|i: int| 0 <= i < es.len() implies (#[trigger] es[i]).key != key by {
                    if i > 0 {
                        assert(es[i] == rest[i - 1]);
                    }
                }
            }
            if forall|i: int| 0 <= i < es.len() ==> (#[trigger] es[i]).key != key {
                assert forall|i: int| 0 <= i < rest.len() implies (#[trigger] rest[i]).key != key by {
                    assert(es[i + 1] == rest[i]);
                }
            }
        }
    }
}

/// The architecture-specific keys are the architecture name, a dot and the field's key.
proof fn lemma_arch_keys(n: Seq<char>)
    ensures
        arch_key(n, "block_count"@) == n + ".block_count"@,
        arch_key(n, "context_length"@) == n + ".context_length"@,
        arch_key(n, "embedding_length"@) == n + ".embedding_length"@,
        arch_key(n, "feed_forward_length"@) == n + ".feed_forward_length"@,
        arch_key(n, "attention.head_count"@) == n + ".attention.head_count"@,
        arch_key(n, "attention.head_count_kv"@) == n + ".attention.head_count_kv"@,
        arch_key(n, "rope.freq_base"@) == n + ".rope.freq_base"@,
{
    reveal_strlit(".");
    reveal_strlit("block_count");
    reveal_strlit(".block_count");
    assert(arch_key(n, "block_count"@) =~= n + ".block_count"@);
    reveal_strlit("context_length");
    reveal_strlit(".context_length");
    assert(arch_key(n, "context_length"@) =~= n + ".context_length"@);
    reveal_strlit("embedding_length");
    reveal_strlit(".embedding_length");
    assert(arch_key(n, "embedding_length"@) =~= n + ".embedding_length"@);
    reveal_strlit("feed_forward_length");
    reveal_strlit(".feed_forward_length");
    assert(arch_key(n, "feed_forward_length"@) =~= n + ".feed_forward_length"@);
    reveal_strlit("attention.head_count");
    reveal_strlit(".attention.head_count");
    assert(arch_key(n, "attention.head_count"@) =~= n + ".attention.head_count"@);
    reveal_strlit("attention.head_count_kv");
    reveal_strlit(".attention.head_count_kv");
    assert(arch_key(n, "attention.head_count_kv"@) =~= n + ".attention.head_count_kv"@);
    reveal_strlit("rope.freq_base");
    reveal_strlit(".rope.freq_base");
    assert(arch_key(n, "rope.freq_base"@) =~= n + ".rope.freq_base"@);
}

/// Every field of an extracted architecture is the value stored under its own key, whatever
/// the architecture is named: `general.architecture`, `general.name`, `tokenizer.ggml.model`
/// and `general.file_type` as they are stored, and the other fields under the architecture's
/// name, a dot and the field's key (the context length read as `u64` and kept to its low 32
/// bits). Extraction succeeds exactly when the architecture name is a string and the five
/// required fields are integers.
pub proof fn lemma_model_arch_fields(es: Seq<EntryView>)
    ensures
        spec_model_arch(es) matches Ok(a) ==> {
            &&& spec_get_string(es, "general.architecture"@) == Some(a.architecture)
            &&& a.name == spec_get_string(es, "general.name"@)
            &&& a.tokenizer_model == spec_get_string(es, "tokenizer.ggml.model"@)
            &&& a.file_type == spec_get_u32(es, "general.file_type"@)
            &&& spec_get_u32(es, a.architecture + ".block_count"@) == Some(a.block_count)
            &&& spec_get_u64(es, a.architecture + ".context_length"@) matches Some(c)
            &&& a.context_length == #[verifier::truncate] (c as u32)
            &&& spec_get_u32(es, a.architecture + ".embedding_length"@) == Some(a.embedding_length)
            &&& spec_get_u32(es, a.architecture + ".feed_forward_length"@) == Some(
                a.feed_forward_length,
            )
            &&& spec_get_u32(es, a.architecture + ".attention.head_count"@) == Some(
                a.attention_head_count,
            )
            &&& a.attention_head_count_kv == spec_get_u32(
                es,
                a.architecture + ".attention.head_count_kv"@,
            )
            &&& a.rope_freq_base == spec_get_float(es, a.architecture + ".rope.freq_base"@)
        },
        spec_model_arch(es) is Ok <==> (spec_get_string(es, "general.architecture"@) matches Some(n)
            && spec_get_u32(es, n + ".block_count"@) is Some
            && spec_get_u64(es, n + ".context_length"@) is Some
            && spec_get_u32(es, n + ".embedding_length"@) is Some
            && spec_get_u32(es, n + ".feed_forward_length"@) is Some
            && spec_get_u32(es, n + ".attention.head_count"@) is Some),
{
    if let Some(n) = spec_get_string(es, "general.architecture"@) {
        lemma_arch_keys(n);
    }
}

} // verus!
