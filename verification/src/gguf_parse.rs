//! Parsing of GGUF v3 headers, metadata and tensor descriptors from bytes.

use vstd::prelude::*;
use vstd::utf8::{decode_utf8, valid_utf8};

use crate::gguf_types::{
    tensor_type_from_id, value_type_from_id, GgufError, GgufHeader, GgufTensorType,
    GgufValueType, HEADER_SIZE, SUPPORTED_VERSION,
};
use crate::le_bytes::{
    le16, le32, le64, read_u16_le, read_u32_le, read_u64_le, signed, to_i16, to_i32, to_i64, to_i8,
};
use crate::text::{concat, i64_to_decimal, int_text, owned, str_from_utf8};

verus! {

// ---------------------------------------------------------------------------
// Parsed values and their mathematical views
// ---------------------------------------------------------------------------

/// Parsed GGUF metadata scalar value.
/// Floating-point values are kept as their IEEE-754 bit patterns.
#[derive(Debug, Clone, PartialEq)]
pub enum MetadataValue {
    Uint8(u8),
    Int8(i8),
    Uint16(u16),
    Int16(i16),
    Uint32(u32),
    Int32(i32),
    Uint64(u64),
    Int64(i64),
    Float32(u32),
    Float64(u64),
    Bool(bool),
    String(String),
}

/// A metadata value with its string as a sequence of characters.
pub enum ValueView {
    Uint8(u8),
    Int8(i8),
    Uint16(u16),
    Int16(i16),
    Uint32(u32),
    Int32(i32),
    Uint64(u64),
    Int64(i64),
    Float32(u32),
    Float64(u64),
    Bool(bool),
    String(Seq<char>),
}

impl View for MetadataValue {
    type V = ValueView;

    open spec fn view(&self) -> ValueView {
        match self {
            MetadataValue::Uint8(v) => ValueView::Uint8(*v),
            MetadataValue::Int8(v) => ValueView::Int8(*v),
            MetadataValue::Uint16(v) => ValueView::Uint16(*v),
            MetadataValue::Int16(v) => ValueView::Int16(*v),
            MetadataValue::Uint32(v) => ValueView::Uint32(*v),
            MetadataValue::Int32(v) => ValueView::Int32(*v),
            MetadataValue::Uint64(v) => ValueView::Uint64(*v),
            MetadataValue::Int64(v) => ValueView::Int64(*v),
            MetadataValue::Float32(v) => ValueView::Float32(*v),
            MetadataValue::Float64(v) => ValueView::Float64(*v),
            MetadataValue::Bool(v) => ValueView::Bool(*v),
            MetadataValue::String(s) => ValueView::String(s@),
        }
    }
}

/// The display text of a value that is not a float: integers in decimal, booleans as `true`
/// or `false`, strings in double quotes. `None` for a float, whose text is Rust's float
/// formatting.
pub open spec fn value_text(v: ValueView) -> Option<Seq<char>> {
    match v {
        ValueView::Uint8(x) => Some(int_text(x as int)),
        ValueView::Int8(x) => Some(int_text(x as int)),
        ValueView::Uint16(x) => Some(int_text(x as int)),
        ValueView::Int16(x) => Some(int_text(x as int)),
        ValueView::Uint32(x) => Some(int_text(x as int)),
        ValueView::Int32(x) => Some(int_text(x as int)),
        ValueView::Uint64(x) => Some(int_text(x as int)),
        ValueView::Int64(x) => Some(int_text(x as int)),
        ValueView::Float32(_) => None,
        ValueView::Float64(_) => None,
        ValueView::Bool(b) => Some(if b { "true"@ } else { "false"@ }),
        ValueView::String(s) => Some("\""@ + s + "\""@),
    }
}

impl MetadataValue {
    /// The display text of an integer, boolean or string value; `None` for a float value.
    pub fn text(&self) -> (r: Option<String>)
        ensures
            match value_text(self@) {
                Some(t) => r matches Some(s) && s@ == t,
                None => r is None,
            },
    {
        match self {
            MetadataValue::Uint8(v) => Some(i64_to_decimal(*v as i64)),
            MetadataValue::Int8(v) => Some(i64_to_decimal(*v as i64)),
            MetadataValue::Uint16(v) => Some(i64_to_decimal(*v as i64)),
            MetadataValue::Int16(v) => Some(i64_to_decimal(*v as i64)),
            MetadataValue::Uint32(v) => Some(i64_to_decimal(*v as i64)),
            MetadataValue::Int32(v) => Some(i64_to_decimal(*v as i64)),
            MetadataValue::Uint64(v) => Some(crate::text::u64_to_decimal(*v)),
            MetadataValue::Int64(v) => Some(i64_to_decimal(*v)),
            MetadataValue::Float32(_) => None,
            MetadataValue::Float64(_) => None,
            MetadataValue::Bool(b) => Some(
                if *b {
                    owned("true")
                } else {
                    owned("false")
                },
            ),
            MetadataValue::String(v) => {
                let quoted = concat(concat(owned("\""), v.as_str()), "\"");
                Some(quoted)
            },
        }
    }
}

// ---------------------------------------------------------------------------
// Strings
// ---------------------------------------------------------------------------

/// A GGUF string at `off`: a `u64` byte length, then that many bytes of UTF-8.
/// On success: the characters and the number of bytes the string takes.
pub open spec fn spec_parse_string(b: Seq<u8>, off: int) -> Result<(Seq<char>, int), GgufError> {
    if off + 8 > b.len() {
        Err(GgufError::TruncatedMetadata { context: "string length" })
    } else {
        let len = le64(b, off);
        let start = off + 8;
        if start + len > b.len() {
            Err(GgufError::TruncatedMetadata { context: "string content" })
        } else if !valid_utf8(b.subrange(start, start + len)) {
            Err(GgufError::InvalidUtf8)
        } else {
            Ok((decode_utf8(b.subrange(start, start + len)), 8 + len))
        }
    }
}

/// Parse a GGUF string from bytes at given offset.
/// Returns (string, bytes_consumed).
/// String format: u64 length prefix + UTF-8 bytes.
pub fn parse_string(bytes: &[u8], offset: usize) -> (r: Result<(String, usize), GgufError>)
    ensures
        match spec_parse_string(bytes@, offset as int) {
            Ok((s, n)) => r matches Ok((t, m)) && t@ == s && m == n,
            Err(e) => r == Err::<(String, usize), GgufError>(e),
        },
        r matches Ok((_, m)) ==> offset + m <= bytes@.len(),
{
    let n = bytes.len();
    if offset > n || n - offset < 8 {
        return Err(GgufError::TruncatedMetadata { context: "string length" });
    }
    let len = read_u64_le(bytes, offset);
    let str_start = offset + 8;
    if ((n - str_start) as u64) < len {
        return Err(GgufError::TruncatedMetadata { context: "string content" });
    }
    let end = str_start + len as usize;
    let content = &bytes[str_start..end];
    match str_from_utf8(content) {
        Some(s) => Ok((String::from_str(s), 8 + len as usize)),
        None => Err(GgufError::InvalidUtf8),
    }
}

// ---------------------------------------------------------------------------
// Scalar and string values
// ---------------------------------------------------------------------------

/// A fixed-size value of `size` bytes at `vo`, four bytes after its type ID.
pub open spec fn fixed_value(b: Seq<u8>, vo: int, size: int, context: &'static str, v: ValueView)
    -> Result<(ValueView, int), GgufError> {
    if vo + size > b.len() {
        Err(GgufError::TruncatedMetadata { context })
    } else {
        Ok((v, 4 + size))
    }
}

/// A metadata value at `off`: a `u32` type ID, then the value.
/// On success: the value and the number of bytes it takes, type ID included.
/// Arrays and unknown type IDs are refused.
pub open spec fn spec_parse_value(b: Seq<u8>, off: int) -> Result<(ValueView, int), GgufError> {
    if off + 4 > b.len() {
        Err(GgufError::TruncatedMetadata { context: "value type" })
    } else {
        let type_id = le32(b, off) as u32;
        let vo = off + 4;
        match value_type_from_id(type_id) {
            Some(GgufValueType::Uint8) => fixed_value(b, vo, 1, "uint8 value", ValueView::Uint8(b[vo])),
            Some(GgufValueType::Int8) => fixed_value(
                b,
                vo,
                1,
                "int8 value",
                ValueView::Int8(signed(b[vo] as int, 128) as i8),
            ),
            Some(GgufValueType::Uint16) => fixed_value(
                b,
                vo,
                2,
                "uint16 value",
                ValueView::Uint16(le16(b, vo) as u16),
            ),
            Some(GgufValueType::Int16) => fixed_value(
                b,
                vo,
                2,
                "int16 value",
                ValueView::Int16(signed(le16(b, vo), 32768) as i16),
            ),
            Some(GgufValueType::Uint32) => fixed_value(
                b,
                vo,
                4,
                "uint32 value",
                ValueView::Uint32(le32(b, vo) as u32),
            ),
            Some(GgufValueType::Int32) => fixed_value(
                b,
                vo,
                4,
                "int32 value",
                ValueView::Int32(signed(le32(b, vo), 2147483648) as i32),
            ),
            Some(GgufValueType::Uint64) => fixed_value(
                b,
                vo,
                8,
                "uint64 value",
                ValueView::Uint64(le64(b, vo) as u64),
            ),
            Some(GgufValueType::Int64) => fixed_value(
                b,
                vo,
                8,
                "int64 value",
                ValueView::Int64(signed(le64(b, vo), 9223372036854775808) as i64),
            ),
            Some(GgufValueType::Float32) => fixed_value(
                b,
                vo,
                4,
                "float32 value",
                ValueView::Float32(le32(b, vo) as u32),
            ),
            Some(GgufValueType::Float64) => fixed_value(
                b,
                vo,
                8,
                "float64 value",
                ValueView::Float64(le64(b, vo) as u64),
            ),
            Some(GgufValueType::Bool) => fixed_value(b, vo, 1, "bool value", ValueView::Bool(b[vo] != 0)),
            Some(GgufValueType::String) => match spec_parse_string(b, vo) {
                Ok((s, n)) => Ok((ValueView::String(s), 4 + n)),
                Err(e) => Err(e),
            },
            _ => Err(GgufError::UnsupportedValueType { type_id }),
        }
    }
}

/// Parse a GGUF metadata value from bytes at given offset.
/// Returns (value, bytes_consumed).
/// Value format: u32 type ID + typed value.
pub fn parse_value(bytes: &[u8], offset: usize) -> (r: Result<(MetadataValue, usize), GgufError>)
    ensures
        match spec_parse_value(bytes@, offset as int) {
            Ok((v, n)) => r matches Ok((w, m)) && w@ == v && m == n,
            Err(e) => r == Err::<(MetadataValue, usize), GgufError>(e),
        },
        r matches Ok((_, m)) ==> offset + m <= bytes@.len(),
{
    let n = bytes.len();
    if offset > n || n - offset < 4 {
        return Err(GgufError::TruncatedMetadata { context: "value type" });
    }
    let type_id = read_u32_le(bytes, offset);
    let vo = offset + 4;
    let avail = n - vo;
    match GgufValueType::from_u32(type_id) {
        Some(GgufValueType::Uint8) => {
            if avail < 1 {
                return Err(GgufError::TruncatedMetadata { context: "uint8 value" });
            }
            Ok((MetadataValue::Uint8(bytes[vo]), 5))
        },
        Some(GgufValueType::Int8) => {
            if avail < 1 {
                return Err(GgufError::TruncatedMetadata { context: "int8 value" });
            }
            Ok((MetadataValue::Int8(to_i8(bytes[vo])), 5))
        },
        Some(GgufValueType::Uint16) => {
            if avail < 2 {
                return Err(GgufError::TruncatedMetadata { context: "uint16 value" });
            }
            Ok((MetadataValue::Uint16(read_u16_le(bytes, vo)), 6))
        },
        Some(GgufValueType::Int16) => {
            if avail < 2 {
                return Err(GgufError::TruncatedMetadata { context: "int16 value" });
            }
            Ok((MetadataValue::Int16(to_i16(read_u16_le(bytes, vo))), 6))
        },
        Some(GgufValueType::Uint32) => {
            if avail < 4 {
                return Err(GgufError::TruncatedMetadata { context: "uint32 value" });
            }
            Ok((MetadataValue::Uint32(read_u32_le(bytes, vo)), 8))
        },
        Some(GgufValueType::Int32) => {
            if avail < 4 {
                return Err(GgufError::TruncatedMetadata { context: "int32 value" });
            }
            Ok((MetadataValue::Int32(to_i32(read_u32_le(bytes, vo))), 8))
        },
        Some(GgufValueType::Uint64) => {
            if avail < 8 {
                return Err(GgufError::TruncatedMetadata { context: "uint64 value" });
            }
            Ok((MetadataValue::Uint64(read_u64_le(bytes, vo)), 12))
        },
        Some(GgufValueType::Int64) => {
            if avail < 8 {
                return Err(GgufError::TruncatedMetadata { context: "int64 value" });
            }
            Ok((MetadataValue::Int64(to_i64(read_u64_le(bytes, vo))), 12))
        },
        Some(GgufValueType::Float32) => {
            if avail < 4 {
                return Err(GgufError::TruncatedMetadata { context: "float32 value" });
            }
            Ok((MetadataValue::Float32(read_u32_le(bytes, vo)), 8))
        },
        Some(GgufValueType::Float64) => {
            if avail < 8 {
                return Err(GgufError::TruncatedMetadata { context: "float64 value" });
            }
            Ok((MetadataValue::Float64(read_u64_le(bytes, vo)), 12))
        },
        Some(GgufValueType::Bool) => {
            if avail < 1 {
                return Err(GgufError::TruncatedMetadata { context: "bool value" });
            }
            Ok((MetadataValue::Bool(bytes[vo] != 0), 5))
        },
        Some(GgufValueType::String) => {
            let (s, consumed) = parse_string(bytes, vo)?;
            Ok((MetadataValue::String(s), 4 + consumed))
        },
        _ => Err(GgufError::UnsupportedValueType { type_id }),
    }
}

// ---------------------------------------------------------------------------
// Metadata entries
// ---------------------------------------------------------------------------

/// A single GGUF metadata key-value entry
#[derive(Debug, Clone)]
pub struct MetadataEntry {
    pub key: String,
    pub value: MetadataValue,
}

/// A metadata entry with its key as characters.
pub struct EntryView {
    pub key: Seq<char>,
    pub value: ValueView,
}

impl View for MetadataEntry {
    type V = EntryView;

    open spec fn view(&self) -> EntryView {
        EntryView { key: self.key@, value: self.value@ }
    }
}

/// Collection of parsed GGUF metadata entries
#[derive(Debug, Clone)]
pub struct GgufMetadata {
    pub entries: Vec<MetadataEntry>,
}

/// The views of a vector of entries.
pub open spec fn entry_views(v: Seq<MetadataEntry>) -> Seq<EntryView> {
    v.map_values(|e: MetadataEntry| e@)
}

impl View for GgufMetadata {
    type V = Seq<EntryView>;

    open spec fn view(&self) -> Seq<EntryView> {
        entry_views(self.entries@)
    }
}

impl GgufMetadata {
    pub fn len(&self) -> (n: usize)
        ensures
            n == self@.len(),
    {
        self.entries.len()
    }

    pub fn is_empty(&self) -> (b: bool)
        ensures
            b <==> self@.len() == 0,
    {
        self.entries.len() == 0
    }
}

/// A metadata entry at `off`: a key string, then a value.
pub open spec fn spec_parse_entry(b: Seq<u8>, off: int) -> Result<(EntryView, int), GgufError> {
    match spec_parse_string(b, off) {
        Err(e) => Err(e),
        Ok((key, kc)) => match spec_parse_value(b, off + kc) {
            Err(e) => Err(e),
            Ok((value, vc)) => Ok((EntryView { key, value }, kc + vc)),
        },
    }
}

/// `n` metadata entries one after the other from `off`.
/// On success: the entries and the offset just after the last one.
pub open spec fn spec_parse_entries(b: Seq<u8>, off: int, n: nat) -> Result<(Seq<EntryView>, int), GgufError>
    decreases n,
{
    if n == 0 {
        Ok((seq![], off))
    } else {
        match spec_parse_entries(b, off, (n - 1) as nat) {
            Err(e) => Err(e),
            Ok((es, p)) => match spec_parse_entry(b, p) {
                Err(e) => Err(e),
                Ok((e, c)) => Ok((es.push(e), p + c)),
            },
        }
    }
}

/// The metadata region: `kv_count` entries right after the header.
pub open spec fn spec_parse_metadata(b: Seq<u8>, kv_count: u64) -> Result<Seq<EntryView>, GgufError> {
    match spec_parse_entries(b, HEADER_SIZE as int, kv_count as nat) {
        Ok((es, _)) => Ok(es),
        Err(e) => Err(e),
    }
}

/// Once the entries fail, every longer run fails with the same error.
pub proof fn lemma_entries_error_persists(b: Seq<u8>, off: int, i: nat, j: nat)
    requires
        i <= j,
        spec_parse_entries(b, off, i) is Err,
    ensures
        spec_parse_entries(b, off, j) == spec_parse_entries(b, off, i),
    decreases j,
{
    if j > i {
        lemma_entries_error_persists(b, off, i, (j - 1) as nat);
    }
}

/// Parse a single GGUF metadata key-value entry.
/// Returns (entry, bytes_consumed).
pub fn parse_metadata_entry(bytes: &[u8], offset: usize) -> (r: Result<(MetadataEntry, usize), GgufError>)
    ensures
        match spec_parse_entry(bytes@, offset as int) {
            Ok((v, n)) => r matches Ok((w, m)) && w@ == v && m == n,
            Err(e) => r == Err::<(MetadataEntry, usize), GgufError>(e),
        },
        r matches Ok((_, m)) ==> offset + m <= bytes@.len(),
{
    assert(bytes@.len() == bytes.len());
    let (key, key_consumed) = parse_string(bytes, offset)?;
    let (value, val_consumed) = parse_value(bytes, offset + key_consumed)?;
    Ok((MetadataEntry { key, value }, key_consumed + val_consumed))
}

/// Parse all GGUF metadata entries after the header.
pub fn parse_metadata(bytes: &[u8], kv_count: u64) -> (r: Result<GgufMetadata, GgufError>)
    ensures
        match spec_parse_metadata(bytes@, kv_count) {
            Ok(es) => r matches Ok(m) && m@ == es,
            Err(e) => r == Err::<GgufMetadata, GgufError>(e),
        },
{
    let mut entries: Vec<MetadataEntry> = Vec::new();
    let mut offset: usize = HEADER_SIZE;
    let mut i: u64 = 0;
    let n = bytes.len();
    assert(entry_views(entries@) =~= seq![]);
    while i < kv_count
        invariant
            i <= kv_count,
            n == bytes@.len(),
            spec_parse_entries(bytes@, HEADER_SIZE as int, i as nat) == Ok::<
                (Seq<EntryView>, int),
                GgufError,
            >((entry_views(entries@), offset as int)),
        decreases kv_count - i,
    {
        match parse_metadata_entry(bytes, offset) {
            Ok((entry, consumed)) => {
                let ghost before = entries@;
                entries.push(entry);
                assert(entry_views(entries@) =~= entry_views(before).push(entry@));
                offset = offset + consumed;
                i = i + 1;
            },
            Err(e) => {
                proof {
                    lemma_entries_error_persists(
                        bytes@,
                        HEADER_SIZE as int,
                        (i + 1) as nat,
                        kv_count as nat,
                    );
                }
                return Err(e);
            },
        }
    }
    Ok(GgufMetadata { entries })
}

// ---------------------------------------------------------------------------
// Tensor descriptors
// ---------------------------------------------------------------------------

/// Parsed GGUF tensor descriptor (metadata only, no data loaded)
#[derive(Debug, Clone)]
pub struct TensorDescriptor {
    pub name: String,
    pub n_dims: u32,
    pub shape: Vec<u64>,
    pub dtype: GgufTensorType,
    pub offset: u64,
}

/// A tensor descriptor with its name as characters and its shape as a sequence.
pub struct TensorView {
    pub name: Seq<char>,
    pub n_dims: u32,
    pub shape: Seq<u64>,
    pub dtype: GgufTensorType,
    pub offset: u64,
}

impl View for TensorDescriptor {
    type V = TensorView;

    open spec fn view(&self) -> TensorView {
        TensorView {
            name: self.name@,
            n_dims: self.n_dims,
            shape: self.shape@,
            dtype: self.dtype,
            offset: self.offset,
        }
    }
}

/// The product of the dimensions `s[0] * s[1] * ...`, taken from the left.
pub open spec fn shape_product(s: Seq<u64>) -> int
    decreases s.len(),
{
    if s.len() == 0 {
        1
    } else {
        shape_product(s.drop_last()) * s.last()
    }
}

/// Every partial product of the dimensions, taken from the left, fits in a `u64`.
pub open spec fn products_fit_u64(s: Seq<u64>) -> bool {
    forall|k: int| 0 <= k <= s.len() ==> #[trigger] shape_product(s.take(k)) <= u64::MAX
}

impl TensorDescriptor {
    /// Total number of elements in the tensor (product of all dimensions).
    pub fn element_count(&self) -> (c: u64)
        requires
            products_fit_u64(self.shape@),
        ensures
            c == shape_product(self.shape@),
    {
        let mut acc: u64 = 1;
        let mut i: usize = 0;
        assert(self.shape@.take(0) =~= Seq::<u64>::empty());
        while i < self.shape.len()
            invariant
                i <= self.shape@.len(),
                products_fit_u64(self.shape@),
                acc == shape_product(self.shape@.take(i as int)),
            decreases self.shape@.len() - i,
        {
            let ghost prefix = self.shape@.take(i as int + 1);
            assert(prefix.drop_last() =~= self.shape@.take(i as int));
            assert(shape_product(prefix) <= u64::MAX);
            acc = acc * self.shape[i];
            i = i + 1;
        }
        assert(self.shape@.take(i as int) =~= self.shape@);
        acc
    }
}

/// Collection of parsed GGUF tensor descriptors
#[derive(Debug, Clone)]
pub struct GgufTensors {
    pub descriptors: Vec<TensorDescriptor>,
}

/// The views of a vector of tensor descriptors.
pub open spec fn tensor_views(v: Seq<TensorDescriptor>) -> Seq<TensorView> {
    v.map_values(|t: TensorDescriptor| t@)
}

impl View for GgufTensors {
    type V = Seq<TensorView>;

    open spec fn view(&self) -> Seq<TensorView> {
        tensor_views(self.descriptors@)
    }
}

impl GgufTensors {
    pub fn len(&self) -> (n: usize)
        ensures
            n == self@.len(),
    {
        self.descriptors.len()
    }

    pub fn is_empty(&self) -> (b: bool)
        ensures
            b <==> self@.len() == 0,
    {
        self.descriptors.len() == 0
    }
}

/// The dimensions of a tensor: `n` little-endian `u64`s from `at`.
pub open spec fn spec_shape(b: Seq<u8>, at: int, n: nat) -> Seq<u64> {
    Seq::new(n, |i: int| le64(b, at + 8 * i) as u64)
}

/// A tensor descriptor at `off`: name string, `u32` dimension count, that many `u64` dimensions,
/// `u32` GGML type ID and `u64` data offset.
/// On success: the descriptor and the number of bytes it takes.
pub open spec fn spec_parse_tensor(b: Seq<u8>, off: int) -> Result<(TensorView, int), GgufError> {
    match spec_parse_string(b, off) {
        Err(e) => Err(e),
        Ok((name, c)) => {
            let p = off + c;
            if p + 4 > b.len() {
                Err(GgufError::TruncatedTensor { context: "n_dims" })
            } else {
                let n_dims = le32(b, p) as u32;
                let q = p + 4;
                if q + 8 * n_dims > b.len() {
                    Err(GgufError::TruncatedTensor { context: "shape" })
                } else {
                    let r = q + 8 * n_dims;
                    if r + 4 > b.len() {
                        Err(GgufError::TruncatedTensor { context: "dtype" })
                    } else {
                        let type_id = le32(b, r) as u32;
                        match tensor_type_from_id(type_id) {
                            None => Err(GgufError::UnsupportedTensorType { type_id }),
                            Some(dtype) => if r + 12 > b.len() {
                                Err(GgufError::TruncatedTensor { context: "offset" })
                            } else {
                                Ok(
                                    (
                                        TensorView {
                                            name,
                                            n_dims,
                                            shape: spec_shape(b, q, n_dims as nat),
                                            dtype,
                                            offset: le64(b, r + 4) as u64,
                                        },
                                        r + 12 - off,
                                    ),
                                )
                            },
                        }
                    }
                }
            }
        },
    }
}

/// `n` tensor descriptors one after the other from `off`.
/// On success: the descriptors and the offset just after the last one.
pub open spec fn spec_parse_tensor_run(b: Seq<u8>, off: int, n: nat) -> Result<(Seq<TensorView>, int), GgufError>
    decreases n,
{
    if n == 0 {
        Ok((seq![], off))
    } else {
        match spec_parse_tensor_run(b, off, (n - 1) as nat) {
            Err(e) => Err(e),
            Ok((ts, p)) => match spec_parse_tensor(b, p) {
                Err(e) => Err(e),
                Ok((t, c)) => Ok((ts.push(t), p + c)),
            },
        }
    }
}

/// The tensor descriptor region: `count` descriptors from `off`.
pub open spec fn spec_parse_tensors(b: Seq<u8>, count: u64, off: int) -> Result<Seq<TensorView>, GgufError> {
    match spec_parse_tensor_run(b, off, count as nat) {
        Ok((ts, _)) => Ok(ts),
        Err(e) => Err(e),
    }
}

/// Once the descriptors fail, every longer run fails with the same error.
pub proof fn lemma_tensor_run_error_persists(b: Seq<u8>, off: int, i: nat, j: nat)
    requires
        i <= j,
        spec_parse_tensor_run(b, off, i) is Err,
    ensures
        spec_parse_tensor_run(b, off, j) == spec_parse_tensor_run(b, off, i),
    decreases j,
{
    if j > i {
        lemma_tensor_run_error_persists(b, off, i, (j - 1) as nat);
    }
}

/// A run of `n` descriptors that parses holds `n` descriptors.
pub proof fn lemma_tensor_run_len(b: Seq<u8>, off: int, n: nat)
    ensures
        spec_parse_tensor_run(b, off, n) matches Ok((ts, _)) ==> ts.len() == n,
    decreases n,
{
    if n > 0 {
        lemma_tensor_run_len(b, off, (n - 1) as nat);
    }
}

/// In a run of `n` descriptors that parses, descriptor `i` is the one parsed where the first
/// `i` end: the first `i` parse on their own to the first `i` of the run (file order), and the
/// descriptor at the offset just after them is the run's descriptor `i`.
pub proof fn lemma_tensor_run_steps(b: Seq<u8>, off: int, n: nat, i: nat)
    requires
        i < n,
    ensures
        spec_parse_tensor_run(b, off, n) matches Ok((ts, _)) ==> {
            &&& ts.len() == n
            &&& spec_parse_tensor_run(b, off, i) matches Ok((ps, p))
            &&& ps == ts.take(i as int)
            &&& spec_parse_tensor(b, p) matches Ok((t, _))
            &&& t == ts[i as int]
        },
    decreases n,
{
    lemma_tensor_run_len(b, off, n);
    if let Ok((ts, _)) = spec_parse_tensor_run(b, off, n) {
        let (ps, p) = spec_parse_tensor_run(b, off, (n - 1) as nat)->Ok_0;
        lemma_tensor_run_len(b, off, (n - 1) as nat);
        assert(ts == ps.push(spec_parse_tensor(b, p)->Ok_0.0));
        if i + 1 == n {
            assert(ts.take(i as int) =~= ps);
        } else {
            lemma_tensor_run_steps(b, off, (n - 1) as nat, i);
            assert(ts.take(i as int) =~= ps.take(i as int));
        }
    }
}

/// Parse a single GGUF tensor descriptor from bytes at given offset.
/// Returns (descriptor, bytes_consumed).
///
/// GGUF v3 tensor header layout:
///   name: string (u64 length + UTF-8)
///   n_dims: u32
///   shape: [u64; n_dims] (big-to-small order)
///   dtype: u32 (GGML type ID)
///   offset: u64 (absolute file offset)
pub fn parse_tensor_descriptor(bytes: &[u8], offset: usize) -> (r: Result<(TensorDescriptor, usize), GgufError>)
    ensures
        match spec_parse_tensor(bytes@, offset as int) {
            Ok((v, n)) => r matches Ok((w, m)) && w@ == v && m == n,
            Err(e) => r == Err::<(TensorDescriptor, usize), GgufError>(e),
        },
        r matches Ok((_, m)) ==> offset + m <= bytes@.len(),
{
    let n = bytes.len();
    let (name, consumed) = parse_string(bytes, offset)?;
    let pos = offset + consumed;
    if n - pos < 4 {
        return Err(GgufError::TruncatedTensor { context: "n_dims" });
    }
    let n_dims = read_u32_le(bytes, pos);
    let q = pos + 4;
    if ((n - q) as u64) < (n_dims as u64) * 8 {
        return Err(GgufError::TruncatedTensor { context: "shape" });
    }
    let mut shape: Vec<u64> = Vec::new();
    let mut i: u32 = 0;
    assert(shape@ =~= spec_shape(bytes@, q as int, 0));
    while i < n_dims
        invariant
            i <= n_dims,
            n == bytes@.len(),
            q + 8 * n_dims <= n,
            shape@ == spec_shape(bytes@, q as int, i as nat),
        decreases n_dims - i,
    {
        let v = read_u64_le(bytes, q + (i as usize) * 8);
        shape.push(v);
        i = i + 1;
        assert(shape@ =~= spec_shape(bytes@, q as int, i as nat));
    }
    let r = q + (n_dims as usize) * 8;
    if n - r < 4 {
        return Err(GgufError::TruncatedTensor { context: "dtype" });
    }
    let type_id = read_u32_le(bytes, r);
    let dtype = GgufTensorType::from_u32(type_id)?;
    if n - r - 4 < 8 {
        return Err(GgufError::TruncatedTensor { context: "offset" });
    }
    let tensor_offset = read_u64_le(bytes, r + 4);
    let end = r + 12;
    Ok((TensorDescriptor { name, n_dims, shape, dtype, offset: tensor_offset }, end - offset))
}

/// Parse all GGUF tensor descriptors after the metadata region.
pub fn parse_tensors(bytes: &[u8], tensor_count: u64, metadata_end_offset: usize) -> (r: Result<GgufTensors, GgufError>)
    ensures
        match spec_parse_tensors(bytes@, tensor_count, metadata_end_offset as int) {
            Ok(ts) => r matches Ok(t) && t@ == ts,
            Err(e) => r == Err::<GgufTensors, GgufError>(e),
        },
{
    let mut descriptors: Vec<TensorDescriptor> = Vec::new();
    let mut offset: usize = metadata_end_offset;
    let mut i: u64 = 0;
    let n = bytes.len();
    assert(tensor_views(descriptors@) =~= seq![]);
    while i < tensor_count
        invariant
            i <= tensor_count,
            n == bytes@.len(),
            spec_parse_tensor_run(bytes@, metadata_end_offset as int, i as nat) == Ok::<
                (Seq<TensorView>, int),
                GgufError,
            >((tensor_views(descriptors@), offset as int)),
        decreases tensor_count - i,
    {
        match parse_tensor_descriptor(bytes, offset) {
            Ok((desc, consumed)) => {
                let ghost before = descriptors@;
                descriptors.push(desc);
                assert(tensor_views(descriptors@) =~= tensor_views(before).push(desc@));
                offset = offset + consumed;
                i = i + 1;
            },
            Err(e) => {
                proof {
                    lemma_tensor_run_error_persists(
                        bytes@,
                        metadata_end_offset as int,
                        (i + 1) as nat,
                        tensor_count as nat,
                    );
                }
                return Err(e);
            },
        }
    }
    Ok(GgufTensors { descriptors })
}

// ---------------------------------------------------------------------------
// Header
// ---------------------------------------------------------------------------

/// The header: magic `GGUF`, `u32` version (only version 3), `u64` tensor count and
/// `u64` metadata entry count, in the first 24 bytes.
pub open spec fn spec_parse_header(b: Seq<u8>) -> Result<GgufHeader, GgufError> {
    if b.len() < HEADER_SIZE {
        Err(GgufError::FileTooShort { required: HEADER_SIZE, available: b.len() as usize })
    } else if !(b[0] == 71 && b[1] == 71 && b[2] == 85 && b[3] == 70) {
        Err(GgufError::InvalidMagic { got: [b[0], b[1], b[2], b[3]] })
    } else if le32(b, 4) != SUPPORTED_VERSION {
        Err(GgufError::UnsupportedVersion { version: le32(b, 4) as u32 })
    } else {
        Ok(
            GgufHeader {
                version: SUPPORTED_VERSION,
                tensor_count: le64(b, 8) as u64,
                metadata_kv_count: le64(b, 16) as u64,
            },
        )
    }
}

/// Parse a GGUF header from a byte slice (at least 24 bytes).
pub fn parse_header(bytes: &[u8]) -> (r: Result<GgufHeader, GgufError>)
    ensures
        r == spec_parse_header(bytes@),
{
    if bytes.len() < HEADER_SIZE {
        return Err(GgufError::FileTooShort { required: HEADER_SIZE, available: bytes.len() });
    }
    let magic = [bytes[0], bytes[1], bytes[2], bytes[3]];
    if !(bytes[0] == 71 && bytes[1] == 71 && bytes[2] == 85 && bytes[3] == 70) {
        return Err(GgufError::InvalidMagic { got: magic });
    }
    let version = read_u32_le(bytes, 4);
    let tensor_count = read_u64_le(bytes, 8);
    let metadata_kv_count = read_u64_le(bytes, 16);
    if version != SUPPORTED_VERSION {
        return Err(GgufError::UnsupportedVersion { version });
    }
    Ok(GgufHeader { version, tensor_count, metadata_kv_count })
}

// ---------------------------------------------------------------------------
// Skipping the metadata region (arrays included)
// ---------------------------------------------------------------------------

/// `x` if it fits in a `usize`, else `usize::MAX`.
pub open spec fn clamp_usize(x: int) -> int {
    if x <= usize::MAX {
        x
    } else {
        usize::MAX as int
    }
}

/// The encoded size of a fixed-size value type; `None` for strings, arrays and unknown IDs.
pub open spec fn scalar_size(t: Option<GgufValueType>) -> Option<int> {
    match t {
        Some(GgufValueType::Uint8) | Some(GgufValueType::Int8) | Some(GgufValueType::Bool) => Some(1),
        Some(GgufValueType::Uint16) | Some(GgufValueType::Int16) => Some(2),
        Some(GgufValueType::Uint32) | Some(GgufValueType::Int32) | Some(GgufValueType::Float32) => Some(4),
        Some(GgufValueType::Uint64) | Some(GgufValueType::Int64) | Some(GgufValueType::Float64) => Some(8),
        _ => None,
    }
}

/// `n` strings one after the other from `off`; on success the offset just after the last one.
pub open spec fn spec_skip_strings(b: Seq<u8>, off: int, n: nat) -> Result<int, GgufError>
    decreases n,
{
    if n == 0 {
        Ok(off)
    } else {
        match spec_skip_strings(b, off, (n - 1) as nat) {
            Err(e) => Err(e),
            Ok(p) => match spec_parse_string(b, p) {
                Err(e) => Err(e),
                Ok((_, c)) => Ok(p + c),
            },
        }
    }
}

/// Once the strings fail, every longer run fails with the same error.
pub proof fn lemma_skip_strings_error_persists(b: Seq<u8>, off: int, i: nat, j: nat)
    requires
        i <= j,
        spec_skip_strings(b, off, i) is Err,
    ensures
        spec_skip_strings(b, off, j) == spec_skip_strings(b, off, i),
    decreases j,
{
    if j > i {
        lemma_skip_strings_error_persists(b, off, i, (j - 1) as nat);
    }
}

/// An array value at `off` (after its `u32` array type ID): `u32` element type, `u64` length,
/// then the elements. On success: the element type ID and the bytes the array takes.
/// Fixed-size elements are counted without reading them; strings are read; other element
/// types are refused unless the array is empty.
pub open spec fn spec_skip_array(b: Seq<u8>, off: int) -> Result<(u32, int), GgufError> {
    if off + 4 > b.len() {
        Err(GgufError::TruncatedMetadata { context: "array type" })
    } else {
        let t = le32(b, off) as u32;
        if off + 12 > b.len() {
            Err(GgufError::TruncatedMetadata { context: "array length" })
        } else {
            let n = le64(b, off + 4);
            match scalar_size(value_type_from_id(t)) {
                Some(size) => Ok((t, 12 + n * size)),
                None => if value_type_from_id(t) == Some(GgufValueType::String) {
                    match spec_skip_strings(b, off + 12, n as nat) {
                        Ok(end) => Ok((t, end - off)),
                        Err(e) => Err(e),
                    }
                } else if n == 0 {
                    Ok((t, 12))
                } else {
                    Err(GgufError::UnsupportedValueType { type_id: t })
                },
            }
        }
    }
}

/// Skip over a GGUF array value, returning the element type ID and bytes consumed
/// (`usize::MAX` when the count does not fit).
pub fn parse_array_skip(bytes: &[u8], offset: usize) -> (r: Result<(u32, usize), GgufError>)
    ensures
        match spec_skip_array(bytes@, offset as int) {
            Ok((t, c)) => r matches Ok((u, d)) && u == t && d == clamp_usize(c),
            Err(e) => r == Err::<(u32, usize), GgufError>(e),
        },
{
    let n = bytes.len();
    if offset > n || n - offset < 4 {
        return Err(GgufError::TruncatedMetadata { context: "array type" });
    }
    let type_id = read_u32_le(bytes, offset);
    if n - offset - 4 < 8 {
        return Err(GgufError::TruncatedMetadata { context: "array length" });
    }
    let len = read_u64_le(bytes, offset + 4);
    let size: u128 = match GgufValueType::from_u32(type_id) {
        Some(GgufValueType::Uint8) | Some(GgufValueType::Int8) | Some(GgufValueType::Bool) => 1,
        Some(GgufValueType::Uint16) | Some(GgufValueType::Int16) => 2,
        Some(GgufValueType::Uint32) | Some(GgufValueType::Int32) | Some(GgufValueType::Float32) => 4,
        Some(GgufValueType::Uint64) | Some(GgufValueType::Int64) | Some(GgufValueType::Float64) => 8,
        Some(GgufValueType::String) => 0,
        _ => {
            if len == 0 {
                return Ok((type_id, 12));
            }
            return Err(GgufError::UnsupportedValueType { type_id });
        },
    };
    if size > 0 {
        assert(len as u128 * size <= 8 * 18446744073709551615u128) by (nonlinear_arith)
            requires
                size <= 8,
        ;
        let total: u128 = 12 + len as u128 * size;
        assert(scalar_size(value_type_from_id(type_id)) == Some(size as int));
        assert(total == 12 + le64(bytes@, offset + 4) * size);
        if total > usize::MAX as u128 {
            return Ok((type_id, usize::MAX));
        }
        return Ok((type_id, total as usize));
    }
    let start = offset + 12;
    let mut pos: usize = start;
    let mut i: u64 = 0;
    while i < len
        invariant
            i <= len,
            n == bytes@.len(),
            offset <= start <= pos <= n,
            start == offset + 12,
            value_type_from_id(type_id) == Some(GgufValueType::String),
            type_id == le32(bytes@, offset as int),
            len == le64(bytes@, offset + 4),
            spec_skip_strings(bytes@, start as int, i as nat) == Ok::<int, GgufError>(pos as int),
        decreases len - i,
    {
        match parse_string(bytes, pos) {
            Ok((_s, consumed)) => {
                pos = pos + consumed;
                i = i + 1;
            },
            Err(e) => {
                proof {
                    lemma_skip_strings_error_persists(bytes@, start as int, (i + 1) as nat, len as nat);
                }
                return Err(e);
            },
        }
    }
    Ok((type_id, pos - offset))
}

/// The bytes one metadata entry takes, read as in `compute_metadata_end_offset`: fixed-size
/// values are counted without reading them, strings and arrays are walked.
pub open spec fn spec_skip_entry(b: Seq<u8>, off: int) -> Result<int, GgufError> {
    match spec_parse_string(b, off) {
        Err(e) => Err(e),
        Ok((_, kc)) => {
            let q = off + kc;
            if q + 4 > b.len() {
                Err(GgufError::TruncatedMetadata { context: "value type" })
            } else {
                let t = le32(b, q) as u32;
                match scalar_size(value_type_from_id(t)) {
                    Some(size) => Ok(kc + 4 + size),
                    None => match value_type_from_id(t) {
                        Some(GgufValueType::String) => match spec_parse_string(b, q + 4) {
                            Ok((_, c)) => Ok(kc + 4 + c),
                            Err(e) => Err(e),
                        },
                        Some(GgufValueType::Array) => match spec_skip_array(b, q + 4) {
                            Ok((_, c)) => Ok(kc + 4 + c),
                            Err(e) => Err(e),
                        },
                        _ => Err(GgufError::UnsupportedValueType { type_id: t }),
                    },
                }
            }
        },
    }
}

/// `n` metadata entries skipped one after the other from `off`; on success the offset just
/// after the last one.
pub open spec fn spec_skip_entries(b: Seq<u8>, off: int, n: nat) -> Result<int, GgufError>
    decreases n,
{
    if n == 0 {
        Ok(off)
    } else {
        match spec_skip_entries(b, off, (n - 1) as nat) {
            Err(e) => Err(e),
            Ok(p) => match spec_skip_entry(b, p) {
                Err(e) => Err(e),
                Ok(c) => Ok(p + c),
            },
        }
    }
}

/// The offset just after the metadata region of `kv_count` entries.
pub open spec fn spec_metadata_end(b: Seq<u8>, kv_count: u64) -> Result<int, GgufError> {
    spec_skip_entries(b, HEADER_SIZE as int, kv_count as nat)
}

/// Once the skipped entries fail, every longer run fails with the same error.
pub proof fn lemma_skip_entries_error_persists(b: Seq<u8>, off: int, i: nat, j: nat)
    requires
        i <= j,
        spec_skip_entries(b, off, i) is Err,
    ensures
        spec_skip_entries(b, off, j) == spec_skip_entries(b, off, i),
    decreases j,
{
    if j > i {
        lemma_skip_entries_error_persists(b, off, i, (j - 1) as nat);
    }
}

/// Skipped entries never move backwards.
pub proof fn lemma_skip_entries_monotone(b: Seq<u8>, off: int, n: nat)
    requires
        off >= 0,
    ensures
        spec_skip_entries(b, off, n) matches Ok(end) ==> end >= off,
    decreases n,
{
    if n > 0 {
        lemma_skip_entries_monotone(b, off, (n - 1) as nat);
        if let Ok(p) = spec_skip_entries(b, off, (n - 1) as nat) {
            lemma_skip_entry_nonneg(b, p);
        }
    }
}

/// Skipped strings never move backwards.
pub proof fn lemma_skip_strings_monotone(b: Seq<u8>, off: int, n: nat)
    ensures
        spec_skip_strings(b, off, n) matches Ok(end) ==> end >= off,
    decreases n,
{
    if n > 0 {
        lemma_skip_strings_monotone(b, off, (n - 1) as nat);
    }
}

/// A skipped array takes at least its 12-byte prefix.
pub proof fn lemma_skip_array_nonneg(b: Seq<u8>, off: int)
    ensures
        spec_skip_array(b, off) matches Ok((_, c)) ==> c >= 12,
{
    if off + 12 <= b.len() {
        let n = le64(b, off + 4);
        lemma_skip_strings_monotone(b, off + 12, n as nat);
        assert(n * 1 >= 0 && n * 2 >= 0 && n * 4 >= 0 && n * 8 >= 0);
    }
}

/// A skipped entry takes a positive number of bytes.
pub proof fn lemma_skip_entry_nonneg(b: Seq<u8>, off: int)
    ensures
        spec_skip_entry(b, off) matches Ok(c) ==> c > 0,
{
    if let Ok((_, kc)) = spec_parse_string(b, off) {
        lemma_skip_array_nonneg(b, off + kc + 4);
    }
}

/// Compute the byte offset immediately after the last metadata entry
/// (`usize::MAX` when it does not fit).
pub fn compute_metadata_end_offset(bytes: &[u8], kv_count: u64) -> (r: Result<usize, GgufError>)
    ensures
        match spec_metadata_end(bytes@, kv_count) {
            Ok(end) => r == Ok::<usize, GgufError>(clamp_usize(end) as usize),
            Err(e) => r == Err::<usize, GgufError>(e),
        },
{
    let n = bytes.len();
    let mut offset: usize = HEADER_SIZE;
    let mut i: u64 = 0;
    while i < kv_count
        invariant
            i <= kv_count,
            n == bytes@.len(),
            spec_skip_entries(bytes@, HEADER_SIZE as int, i as nat) matches Ok(end) && offset
                == clamp_usize(end),
        decreases kv_count - i,
    {
        let ghost end = spec_skip_entries(bytes@, HEADER_SIZE as int, i as nat)->Ok_0;
        proof {
            lemma_skip_entries_monotone(bytes@, HEADER_SIZE as int, i as nat);
        }
        let step = parse_string(bytes, offset);
        proof {
            if end > usize::MAX {
                assert(spec_parse_string(bytes@, end) == spec_parse_string(bytes@, offset as int));
            }
        }
        let key_consumed = match step {
            Ok((_key, c)) => c,
            Err(e) => {
                proof {
                    lemma_skip_entries_error_persists(bytes@, HEADER_SIZE as int, (i + 1) as nat, kv_count as nat);
                }
                return Err(e);
            },
        };
        assert(end == offset as int);
        let q = offset + key_consumed;
        if n - q < 4 {
            proof {
                lemma_skip_entries_error_persists(bytes@, HEADER_SIZE as int, (i + 1) as nat, kv_count as nat);
            }
            return Err(GgufError::TruncatedMetadata { context: "value type" });
        }
        let type_id = read_u32_le(bytes, q);
        let vo = q + 4;
        let consumed: usize = match GgufValueType::from_u32(type_id) {
            Some(GgufValueType::Uint8) | Some(GgufValueType::Int8) | Some(GgufValueType::Bool) => 1,
            Some(GgufValueType::Uint16) | Some(GgufValueType::Int16) => 2,
            Some(GgufValueType::Uint32) | Some(GgufValueType::Int32) | Some(GgufValueType::Float32) => 4,
            Some(GgufValueType::Uint64) | Some(GgufValueType::Int64) | Some(GgufValueType::Float64) => 8,
            Some(GgufValueType::String) => {
                match parse_string(bytes, vo) {
                    Ok((_s, c)) => c,
                    Err(e) => {
                        proof {
                            lemma_skip_entries_error_persists(bytes@, HEADER_SIZE as int, (i + 1) as nat, kv_count as nat);
                        }
                        return Err(e);
                    },
                }
            },
            Some(GgufValueType::Array) => {
                match parse_array_skip(bytes, vo) {
                    Ok((_t, c)) => c,
                    Err(e) => {
                        proof {
                            lemma_skip_entries_error_persists(bytes@, HEADER_SIZE as int, (i + 1) as nat, kv_count as nat);
                        }
                        return Err(e);
                    },
                }
            },
            None => {
                proof {
                    lemma_skip_entries_error_persists(bytes@, HEADER_SIZE as int, (i + 1) as nat, kv_count as nat);
                }
                return Err(GgufError::UnsupportedValueType { type_id });
            },
        };
        offset = vo.saturating_add(consumed);
        i = i + 1;
    }
    Ok(offset)
}

// ---------------------------------------------------------------------------
// Whole files
// ---------------------------------------------------------------------------

/// Header and metadata of a GGUF file.
pub open spec fn spec_parse_gguf(b: Seq<u8>) -> Result<(GgufHeader, Seq<EntryView>), GgufError> {
    match spec_parse_header(b) {
        Err(e) => Err(e),
        Ok(h) => match spec_parse_metadata(b, h.metadata_kv_count) {
            Err(e) => Err(e),
            Ok(es) => Ok((h, es)),
        },
    }
}

/// Header, metadata and tensor descriptors of a GGUF file. The tensor descriptors start where
/// the metadata region ends (arrays in it are skipped).
pub open spec fn spec_parse_gguf_full(b: Seq<u8>) -> Result<
    (GgufHeader, Seq<EntryView>, Seq<TensorView>),
    GgufError,
> {
    match spec_parse_gguf(b) {
        Err(e) => Err(e),
        Ok((h, es)) => match spec_metadata_end(b, h.metadata_kv_count) {
            Err(e) => Err(e),
            Ok(end) => match spec_parse_tensors(b, h.tensor_count, end) {
                Err(e) => Err(e),
                Ok(ts) => Ok((h, es, ts)),
            },
        },
    }
}

/// From an offset past the end of the bytes, a non-empty run of descriptors fails on the
/// length of the first name.
pub proof fn lemma_tensor_run_past_end(b: Seq<u8>, off: int, n: nat)
    requires
        off + 8 > b.len(),
        n > 0,
    ensures
        spec_parse_tensor_run(b, off, n) == Err::<(Seq<TensorView>, int), GgufError>(
            GgufError::TruncatedMetadata { context: "string length" },
        ),
    decreases n,
{
    if n > 1 {
        lemma_tensor_run_past_end(b, off, (n - 1) as nat);
    } else {
        assert(spec_parse_tensor_run(b, off, 0) == Ok::<(Seq<TensorView>, int), GgufError>((seq![], off)));
    }
}

/// Reading descriptors from an offset clamped to `usize::MAX` gives what reading from the
/// offset itself gives.
pub proof fn lemma_tensors_at_clamped_offset(b: Seq<u8>, count: u64, off: int)
    requires
        off >= 0,
        b.len() <= usize::MAX,
    ensures
        spec_parse_tensors(b, count, clamp_usize(off)) == spec_parse_tensors(b, count, off),
{
    if off > usize::MAX && count > 0 {
        lemma_tensor_run_past_end(b, off, count as nat);
        lemma_tensor_run_past_end(b, usize::MAX as int, count as nat);
    }
}

/// Parse GGUF header + metadata from a byte slice.
pub fn parse_gguf(bytes: &[u8]) -> (r: Result<(GgufHeader, GgufMetadata), GgufError>)
    ensures
        match spec_parse_gguf(bytes@) {
            Ok((h, es)) => r matches Ok((g, m)) && g == h && m@ == es,
            Err(e) => r == Err::<(GgufHeader, GgufMetadata), GgufError>(e),
        },
{
    let header = parse_header(bytes)?;
    let metadata = parse_metadata(bytes, header.metadata_kv_count)?;
    Ok((header, metadata))
}

/// Parse GGUF header + metadata + tensor descriptors from a byte slice.
pub fn parse_gguf_full(bytes: &[u8]) -> (r: Result<(GgufHeader, GgufMetadata, GgufTensors), GgufError>)
    ensures
        match spec_parse_gguf_full(bytes@) {
            Ok((h, es, ts)) => r matches Ok((g, m, t)) && g == h && m@ == es && t@ == ts,
            Err(e) => r == Err::<(GgufHeader, GgufMetadata, GgufTensors), GgufError>(e),
        },
{
    let header = parse_header(bytes)?;
    let metadata = parse_metadata(bytes, header.metadata_kv_count)?;
    let metadata_end_offset = compute_metadata_end_offset(bytes, header.metadata_kv_count)?;
    proof {
        let end = spec_metadata_end(bytes@, header.metadata_kv_count)->Ok_0;
        lemma_skip_entries_monotone(bytes@, HEADER_SIZE as int, header.metadata_kv_count as nat);
        assert(bytes@.len() == bytes.len());
        lemma_tensors_at_clamped_offset(bytes@, header.tensor_count, end);
    }
    let tensors = parse_tensors(bytes, header.tensor_count, metadata_end_offset)?;
    Ok((header, metadata, tensors))
}

} // verus!
