//! What the parser gives back of what an encoder wrote, stated over byte-level encoders of the
//! GGUF layout.

use vstd::prelude::*;
use vstd::utf8::{decode_utf8, encode_utf8, encode_utf8_decode_utf8, encode_utf8_valid_utf8, valid_utf8};

use crate::gguf_parse::{
    spec_metadata_end, spec_parse_entries, spec_parse_entry, spec_parse_gguf, spec_parse_gguf_full,
    spec_parse_header, spec_parse_metadata, spec_parse_string, spec_parse_tensor,
    spec_parse_tensor_run, spec_parse_tensors, spec_parse_value, spec_shape, spec_skip_entries,
    spec_skip_entry, EntryView, TensorView, ValueView,
};
use crate::gguf_types::{
    lemma_tensor_type_id_roundtrip, tensor_type_id, GgufError, GgufHeader, HEADER_SIZE,
};
use crate::le_bytes::{le16, le32, le64, signed};

verus! {

// ---------------------------------------------------------------------------
// Little-endian encoders
// ---------------------------------------------------------------------------

/// The low byte of `v`.
pub open spec fn low_byte(v: u64) -> u8 {
    (v & 0xff) as u8
}

/// The two little-endian bytes of `x`.
pub open spec fn encode_u16(x: u16) -> Seq<u8> {
    seq![low_byte(x as u64), low_byte((x as u64) >> 8u64)]
}

/// The four little-endian bytes of `x`.
pub open spec fn encode_u32(x: u32) -> Seq<u8> {
    seq![
        low_byte(x as u64),
        low_byte((x as u64) >> 8u64),
        low_byte((x as u64) >> 16u64),
        low_byte((x as u64) >> 24u64),
    ]
}

/// The eight little-endian bytes of `x`.
pub open spec fn encode_u64(x: u64) -> Seq<u8> {
    seq![
        low_byte(x),
        low_byte(x >> 8u64),
        low_byte(x >> 16u64),
        low_byte(x >> 24u64),
        low_byte(x >> 32u64),
        low_byte(x >> 40u64),
        low_byte(x >> 48u64),
        low_byte(x >> 56u64),
    ]
}

proof fn lemma_low_byte(v: u64)
    ensures
        low_byte(v) == v & 0xff,
{
    assert(v & 0xff < 256) by (bit_vector);
}

/// `e` stands in `b` from `off`.
pub open spec fn written_at(b: Seq<u8>, off: int, e: Seq<u8>) -> bool {
    0 <= off && off + e.len() <= b.len() && b.subrange(off, off + e.len()) == e
}

proof fn lemma_written_index(b: Seq<u8>, off: int, e: Seq<u8>, k: int)
    requires
        written_at(b, off, e),
        0 <= k < e.len(),
    ensures
        b[off + k] == e[k],
{
    assert(b.subrange(off, off + e.len())[k] == b[off + k]);
}

proof fn lemma_u16_bytes(x: u64)
    requires
        x <= 0xffff,
    ensures
        (x & 0xff) + 256 * ((x >> 8u64) & 0xff) == x,
{
    assert((x & 0xff) + 256 * ((x >> 8u64) & 0xff) == x) by (bit_vector)
        requires
            x <= 0xffff,
    ;
}

proof fn lemma_u32_bytes(x: u64)
    requires
        x <= 0xffff_ffff,
    ensures
        (x & 0xff) + 256 * ((x >> 8u64) & 0xff) + 65536 * (((x >> 16u64) & 0xff) + 256 * (
        (x >> 24u64) & 0xff)) == x,
{
    assert((x & 0xff) + 256 * ((x >> 8u64) & 0xff) + 65536 * (((x >> 16u64) & 0xff) + 256
        * ((x >> 24u64) & 0xff)) == x) by (bit_vector)
        requires
            x <= 0xffff_ffff,
    ;
}

proof fn lemma_u64_bytes(x: u64)
    ensures
        (x & 0xff) + 256 * ((x >> 8u64) & 0xff) + 65536 * (((x >> 16u64) & 0xff) + 256 * (
        (x >> 24u64) & 0xff)) + 4294967296 * (((x >> 32u64) & 0xff) + 256 * ((x >> 40u64) & 0xff)
            + 65536 * (((x >> 48u64) & 0xff) + 256 * ((x >> 56u64) & 0xff))) == x,
{
    assert((x & 0xff) + 256 * ((x >> 8u64) & 0xff) + 65536 * (((x >> 16u64) & 0xff) + 256
        * ((x >> 24u64) & 0xff)) + 4294967296 * (((x >> 32u64) & 0xff) + 256 * ((x >> 40u64) & 0xff)
        + 65536 * (((x >> 48u64) & 0xff) + 256 * ((x >> 56u64) & 0xff))) == x) by (bit_vector);
}

/// Reading two little-endian bytes gives back the `u16` written.
pub proof fn lemma_read_u16(b: Seq<u8>, off: int, x: u16)
    requires
        written_at(b, off, encode_u16(x)),
    ensures
        le16(b, off) == x,
{
    lemma_written_index(b, off, encode_u16(x), 0);
    lemma_written_index(b, off, encode_u16(x), 1);
    lemma_low_byte(x as u64);
    lemma_low_byte((x as u64) >> 8u64);
    lemma_u16_bytes(x as u64);
}

/// Reading four little-endian bytes gives back the `u32` written.
pub proof fn lemma_read_u32(b: Seq<u8>, off: int, x: u32)
    requires
        written_at(b, off, encode_u32(x)),
    ensures
        le32(b, off) == x,
{
    let e = encode_u32(x);
    lemma_written_index(b, off, e, 0);
    lemma_written_index(b, off, e, 1);
    lemma_written_index(b, off, e, 2);
    lemma_written_index(b, off, e, 3);
    lemma_low_byte(x as u64);
    lemma_low_byte((x as u64) >> 8u64);
    lemma_low_byte((x as u64) >> 16u64);
    lemma_low_byte((x as u64) >> 24u64);
    lemma_u32_bytes(x as u64);
}

/// Reading eight little-endian bytes gives back the `u64` written.
pub proof fn lemma_read_u64(b: Seq<u8>, off: int, x: u64)
    requires
        written_at(b, off, encode_u64(x)),
    ensures
        le64(b, off) == x,
{
    let e = encode_u64(x);
    lemma_written_index(b, off, e, 0);
    lemma_written_index(b, off, e, 1);
    lemma_written_index(b, off, e, 2);
    lemma_written_index(b, off, e, 3);
    lemma_written_index(b, off, e, 4);
    lemma_written_index(b, off, e, 5);
    lemma_written_index(b, off, e, 6);
    lemma_written_index(b, off, e, 7);
    lemma_low_byte(x);
    lemma_low_byte(x >> 8u64);
    lemma_low_byte(x >> 16u64);
    lemma_low_byte(x >> 24u64);
    lemma_low_byte(x >> 32u64);
    lemma_low_byte(x >> 40u64);
    lemma_low_byte(x >> 48u64);
    lemma_low_byte(x >> 56u64);
    lemma_u64_bytes(x);
}

// ---------------------------------------------------------------------------
// Strings
// ---------------------------------------------------------------------------

/// A GGUF string: its UTF-8 byte length as a little-endian `u64`, then the UTF-8 bytes.
pub open spec fn encode_string(s: Seq<char>) -> Seq<u8> {
    encode_u64(encode_utf8(s).len() as u64) + encode_utf8(s)
}

/// A string can be written: its UTF-8 length fits in a `u64`.
pub open spec fn string_fits(s: Seq<char>) -> bool {
    encode_utf8(s).len() <= u64::MAX
}

/// Where a string was written, parsing a string there gives it back and takes exactly the
/// bytes written.
pub proof fn lemma_string_roundtrip(b: Seq<u8>, off: int, s: Seq<char>)
    requires
        string_fits(s),
        written_at(b, off, encode_string(s)),
    ensures
        spec_parse_string(b, off) == Ok::<(Seq<char>, int), GgufError>(
            (s, encode_string(s).len() as int),
        ),
{
    let u = encode_utf8(s);
    let e = encode_string(s);
    assert(e.subrange(0, 8) =~= encode_u64(u.len() as u64));
    assert(b.subrange(off, off + 8) =~= e.subrange(0, 8));
    lemma_read_u64(b, off, u.len() as u64);
    assert(e.subrange(8, 8 + u.len() as int) =~= u);
    assert(b.subrange(off + 8, off + 8 + u.len()) =~= e.subrange(8, 8 + u.len() as int));
    encode_utf8_valid_utf8(s);
    encode_utf8_decode_utf8(s);
}

/// Two encodings written one after the other.
pub proof fn lemma_written_split(b: Seq<u8>, off: int, e1: Seq<u8>, e2: Seq<u8>)
    requires
        written_at(b, off, e1 + e2),
    ensures
        written_at(b, off, e1),
        written_at(b, off + e1.len(), e2),
{
    assert(b.subrange(off, off + e1.len()) =~= (e1 + e2).subrange(0, e1.len() as int));
    assert((e1 + e2).subrange(0, e1.len() as int) =~= e1);
    assert(b.subrange(off + e1.len(), off + e1.len() + e2.len()) =~= (e1 + e2).subrange(
        e1.len() as int,
        (e1 + e2).len() as int,
    ));
    assert((e1 + e2).subrange(e1.len() as int, (e1 + e2).len() as int) =~= e2);
}

// ---------------------------------------------------------------------------
// Metadata values and entries
// ---------------------------------------------------------------------------

/// The unsigned bit pattern of a two's-complement value `x` whose type has `range` values.
pub open spec fn unsigned(x: int, range: int) -> int {
    if x >= 0 {
        x
    } else {
        x + range
    }
}

/// The encoding of a value: its `u32` type ID, then its payload. A bool is written as 0 or 1.
pub open spec fn encode_value(v: ValueView) -> Seq<u8> {
    match v {
        ValueView::Uint8(x) => encode_u32(0) + seq![x],
        ValueView::Int8(x) => encode_u32(1) + seq![unsigned(x as int, 256) as u8],
        ValueView::Uint16(x) => encode_u32(2) + encode_u16(x),
        ValueView::Int16(x) => encode_u32(3) + encode_u16(unsigned(x as int, 65536) as u16),
        ValueView::Uint32(x) => encode_u32(4) + encode_u32(x),
        ValueView::Int32(x) => encode_u32(5) + encode_u32(unsigned(x as int, 4294967296) as u32),
        ValueView::Float32(x) => encode_u32(6) + encode_u32(x),
        ValueView::Bool(x) => encode_u32(7) + seq![if x { 1u8 } else { 0u8 }],
        ValueView::String(s) => encode_u32(8) + encode_string(s),
        ValueView::Uint64(x) => encode_u32(10) + encode_u64(x),
        ValueView::Int64(x) => encode_u32(11) + encode_u64(
            unsigned(x as int, 18446744073709551616) as u64,
        ),
        ValueView::Float64(x) => encode_u32(12) + encode_u64(x),
    }
}

/// A value can be written: a string's UTF-8 length fits in a `u64`.
pub open spec fn value_fits(v: ValueView) -> bool {
    match v {
        ValueView::String(s) => string_fits(s),
        _ => true,
    }
}

/// Where a value was written, parsing a value there gives it back and takes exactly the
/// bytes written.
pub proof fn lemma_value_roundtrip(b: Seq<u8>, off: int, v: ValueView)
    requires
        value_fits(v),
        written_at(b, off, encode_value(v)),
    ensures
        spec_parse_value(b, off) == Ok::<(ValueView, int), GgufError>((v, encode_value(v).len() as int)),
{
    let e = encode_value(v);
    let payload = e.subrange(4, e.len() as int);
    let tag = e.subrange(0, 4);
    assert(e =~= tag + payload);
    lemma_written_split(b, off, tag, payload);
    match v {
        ValueView::Uint8(x) => {
            assert(tag =~= encode_u32(0));
            lemma_read_u32(b, off, 0);
            lemma_written_index(b, off + 4, payload, 0);
        },
        ValueView::Int8(x) => {
            assert(tag =~= encode_u32(1));
            lemma_read_u32(b, off, 1);
            lemma_written_index(b, off + 4, payload, 0);
        },
        ValueView::Uint16(x) => {
            assert(tag =~= encode_u32(2));
            lemma_read_u32(b, off, 2);
            assert(payload =~= encode_u16(x));
            lemma_read_u16(b, off + 4, x);
        },
        ValueView::Int16(x) => {
            assert(tag =~= encode_u32(3));
            lemma_read_u32(b, off, 3);
            assert(payload =~= encode_u16(unsigned(x as int, 65536) as u16));
            lemma_read_u16(b, off + 4, unsigned(x as int, 65536) as u16);
        },
        ValueView::Uint32(x) => {
            assert(tag =~= encode_u32(4));
            lemma_read_u32(b, off, 4);
            assert(payload =~= encode_u32(x));
            lemma_read_u32(b, off + 4, x);
        },
        ValueView::Int32(x) => {
            assert(tag =~= encode_u32(5));
            lemma_read_u32(b, off, 5);
            assert(payload =~= encode_u32(unsigned(x as int, 4294967296) as u32));
            lemma_read_u32(b, off + 4, unsigned(x as int, 4294967296) as u32);
        },
        ValueView::Float32(x) => {
            assert(tag =~= encode_u32(6));
            lemma_read_u32(b, off, 6);
            assert(payload =~= encode_u32(x));
            lemma_read_u32(b, off + 4, x);
        },
        ValueView::Bool(x) => {
            assert(tag =~= encode_u32(7));
            lemma_read_u32(b, off, 7);
            lemma_written_index(b, off + 4, payload, 0);
        },
        ValueView::String(t) => {
            assert(tag =~= encode_u32(8));
            lemma_read_u32(b, off, 8);
            assert(payload =~= encode_string(t));
            lemma_string_roundtrip(b, off + 4, t);
        },
        ValueView::Uint64(x) => {
            assert(tag =~= encode_u32(10));
            lemma_read_u32(b, off, 10);
            assert(payload =~= encode_u64(x));
            lemma_read_u64(b, off + 4, x);
        },
        ValueView::Int64(x) => {
            assert(tag =~= encode_u32(11));
            lemma_read_u32(b, off, 11);
            assert(payload =~= encode_u64(unsigned(x as int, 18446744073709551616) as u64));
            lemma_read_u64(b, off + 4, unsigned(x as int, 18446744073709551616) as u64);
        },
        ValueView::Float64(x) => {
            assert(tag =~= encode_u32(12));
            lemma_read_u32(b, off, 12);
            assert(payload =~= encode_u64(x));
            lemma_read_u64(b, off + 4, x);
        },
    }
}

/// A metadata entry: its key string, then its value.
pub open spec fn encode_entry(e: EntryView) -> Seq<u8> {
    encode_string(e.key) + encode_value(e.value)
}

/// Metadata entries one after the other.
pub open spec fn encode_entries(es: Seq<EntryView>) -> Seq<u8>
    decreases es.len(),
{
    if es.len() == 0 {
        seq![]
    } else {
        encode_entries(es.drop_last()) + encode_entry(es.last())
    }
}

/// An entry can be written: its key and value fit.
pub open spec fn entry_fits(e: EntryView) -> bool {
    string_fits(e.key) && value_fits(e.value)
}

/// Where an entry was written, parsing an entry there gives it back and takes exactly the
/// bytes written.
pub proof fn lemma_entry_roundtrip(b: Seq<u8>, off: int, e: EntryView)
    requires
        entry_fits(e),
        written_at(b, off, encode_entry(e)),
    ensures
        spec_parse_entry(b, off) == Ok::<(EntryView, int), GgufError>((e, encode_entry(e).len() as int)),
{
    lemma_written_split(b, off, encode_string(e.key), encode_value(e.value));
    lemma_string_roundtrip(b, off, e.key);
    lemma_value_roundtrip(b, off + encode_string(e.key).len(), e.value);
}

/// Where entries were written, parsing that many entries there gives them back and ends just
/// after them.
pub proof fn lemma_entries_roundtrip(b: Seq<u8>, off: int, es: Seq<EntryView>)
    requires
        forall|i: int| 0 <= i < es.len() ==> entry_fits(#[trigger] es[i]),
        written_at(b, off, encode_entries(es)),
    ensures
        spec_parse_entries(b, off, es.len()) == Ok::<(Seq<EntryView>, int), GgufError>(
            (es, off + encode_entries(es).len()),
        ),
    decreases es.len(),
{
    if es.len() > 0 {
        let init = es.drop_last();
        lemma_written_split(b, off, encode_entries(init), encode_entry(es.last()));
        lemma_entries_roundtrip(b, off, init);
        lemma_entry_roundtrip(b, off + encode_entries(init).len(), es.last());
        assert(init.push(es.last()) =~= es);
        assert(init.len() == (es.len() - 1) as nat);
    } else {
        assert(es =~= seq![]);
    }
}

// ---------------------------------------------------------------------------
// Tensor descriptors
// ---------------------------------------------------------------------------

/// Dimensions one after the other, each a little-endian `u64`.
pub open spec fn encode_shape(shape: Seq<u64>) -> Seq<u8>
    decreases shape.len(),
{
    if shape.len() == 0 {
        seq![]
    } else {
        encode_shape(shape.drop_last()) + encode_u64(shape.last())
    }
}

/// Where dimensions were written, they read back and take eight bytes each.
pub proof fn lemma_shape_roundtrip(b: Seq<u8>, off: int, shape: Seq<u64>)
    requires
        written_at(b, off, encode_shape(shape)),
    ensures
        encode_shape(shape).len() == 8 * shape.len(),
        spec_shape(b, off, shape.len()) == shape,
    decreases shape.len(),
{
    if shape.len() > 0 {
        let init = shape.drop_last();
        lemma_written_split(b, off, encode_shape(init), encode_u64(shape.last()));
        lemma_shape_roundtrip(b, off, init);
        lemma_read_u64(b, off + encode_shape(init).len(), shape.last());
        assert(spec_shape(b, off, shape.len()) =~= shape) by {
            assert forall|i: int| 0 <= i < shape.len() implies #[trigger] spec_shape(
                b,
                off,
                shape.len(),
            )[i] == shape[i] by {
                if i < init.len() {
                    assert(spec_shape(b, off, init.len())[i] == init[i]);
                }
            }
        }
    } else {
        assert(spec_shape(b, off, 0) =~= shape);
    }
}

/// A tensor descriptor: name string, `u32` dimension count, the dimensions, `u32` GGML type
/// ID and `u64` data offset.
pub open spec fn encode_tensor(t: TensorView) -> Seq<u8> {
    encode_string(t.name) + encode_u32(t.n_dims) + encode_shape(t.shape) + encode_u32(
        tensor_type_id(t.dtype),
    ) + encode_u64(t.offset)
}

/// A descriptor can be written: its name fits and its dimension count is its number of
/// dimensions.
pub open spec fn tensor_fits(t: TensorView) -> bool {
    string_fits(t.name) && t.n_dims == t.shape.len()
}

/// Where a descriptor was written, parsing a descriptor there gives it back and takes exactly
/// the bytes written.
pub proof fn lemma_tensor_roundtrip(b: Seq<u8>, off: int, t: TensorView)
    requires
        tensor_fits(t),
        written_at(b, off, encode_tensor(t)),
    ensures
        spec_parse_tensor(b, off) == Ok::<(TensorView, int), GgufError>((t, encode_tensor(t).len() as int)),
{
    let e0 = encode_string(t.name);
    let e1 = encode_u32(t.n_dims);
    let e2 = encode_shape(t.shape);
    let e3 = encode_u32(tensor_type_id(t.dtype));
    let e4 = encode_u64(t.offset);
    lemma_written_split(b, off, e0 + e1 + e2 + e3, e4);
    lemma_written_split(b, off, e0 + e1 + e2, e3);
    lemma_written_split(b, off, e0 + e1, e2);
    lemma_written_split(b, off, e0, e1);
    lemma_string_roundtrip(b, off, t.name);
    lemma_read_u32(b, off + e0.len(), t.n_dims);
    lemma_shape_roundtrip(b, off + e0.len() + 4, t.shape);
    lemma_read_u32(b, off + e0.len() + 4 + e2.len(), tensor_type_id(t.dtype));
    lemma_read_u64(b, off + e0.len() + 8 + e2.len(), t.offset);
    lemma_tensor_type_id_roundtrip(t.dtype);
}

/// Tensor descriptors one after the other.
pub open spec fn encode_tensors(ts: Seq<TensorView>) -> Seq<u8>
    decreases ts.len(),
{
    if ts.len() == 0 {
        seq![]
    } else {
        encode_tensors(ts.drop_last()) + encode_tensor(ts.last())
    }
}

/// Where descriptors were written, parsing that many descriptors there gives them back and
/// ends just after them.
pub proof fn lemma_tensors_roundtrip(b: Seq<u8>, off: int, ts: Seq<TensorView>)
    requires
        forall|i: int| 0 <= i < ts.len() ==> tensor_fits(#[trigger] ts[i]),
        written_at(b, off, encode_tensors(ts)),
    ensures
        spec_parse_tensor_run(b, off, ts.len()) == Ok::<(Seq<TensorView>, int), GgufError>(
            (ts, off + encode_tensors(ts).len()),
        ),
    decreases ts.len(),
{
    if ts.len() > 0 {
        let init = ts.drop_last();
        lemma_written_split(b, off, encode_tensors(init), encode_tensor(ts.last()));
        lemma_tensors_roundtrip(b, off, init);
        lemma_tensor_roundtrip(b, off + encode_tensors(init).len(), ts.last());
        assert(init.push(ts.last()) =~= ts);
        assert(init.len() == (ts.len() - 1) as nat);
    } else {
        assert(ts =~= seq![]);
    }
}

// ---------------------------------------------------------------------------
// Header and whole files
// ---------------------------------------------------------------------------

/// A version-3 header: the magic `GGUF`, the version, the tensor count and the metadata entry
/// count.
pub open spec fn encode_header(tensor_count: u64, kv_count: u64) -> Seq<u8> {
    seq![71u8, 71u8, 85u8, 70u8] + encode_u32(3) + encode_u64(tensor_count) + encode_u64(kv_count)
}

/// Where a version-3 header was written at the start, the header parses back to its counts.
pub proof fn lemma_header_roundtrip(b: Seq<u8>, tensor_count: u64, kv_count: u64)
    requires
        written_at(b, 0, encode_header(tensor_count, kv_count)),
    ensures
        spec_parse_header(b) == Ok::<GgufHeader, GgufError>(
            GgufHeader { version: 3, tensor_count, metadata_kv_count: kv_count },
        ),
{
    let m = seq![71u8, 71u8, 85u8, 70u8];
    lemma_written_split(b, 0, m + encode_u32(3) + encode_u64(tensor_count), encode_u64(kv_count));
    lemma_written_split(b, 0, m + encode_u32(3), encode_u64(tensor_count));
    lemma_written_split(b, 0, m, encode_u32(3));
    lemma_written_index(b, 0, m, 0);
    lemma_written_index(b, 0, m, 1);
    lemma_written_index(b, 0, m, 2);
    lemma_written_index(b, 0, m, 3);
    lemma_read_u32(b, 4, 3);
    lemma_read_u64(b, 8, tensor_count);
    lemma_read_u64(b, 16, kv_count);
}

/// Only version 3 is accepted. A header that parses starts with the magic `GGUF` and the
/// version number 3, and its counts are the two little-endian `u64`s that follow; a header
/// with the magic and any other version number is refused, naming that version.
pub proof fn lemma_header_version_3_only(b: Seq<u8>)
    ensures
        spec_parse_header(b) matches Ok(h) ==> {
            &&& b.len() >= 24
            &&& b.take(4) =~= seq![71u8, 71u8, 85u8, 70u8]
            &&& le32(b, 4) == 3
            &&& h.version == 3
            &&& h.tensor_count == le64(b, 8)
            &&& h.metadata_kv_count == le64(b, 16)
        },
        b.len() >= 24 && b.take(4) =~= seq![71u8, 71u8, 85u8, 70u8] && le32(b, 4) != 3
            ==> spec_parse_header(b) == Err::<GgufHeader, GgufError>(
            GgufError::UnsupportedVersion { version: le32(b, 4) as u32 },
        ),
{
    if b.len() >= 24 {
        assert(b.take(4)[0] == b[0] && b.take(4)[1] == b[1] && b.take(4)[2] == b[2] && b.take(4)[3]
            == b[3]);
    }
}

/// A header written with the magic and any version other than 3 is refused, naming the
/// version written.
pub proof fn lemma_header_other_version_refused(
    b: Seq<u8>,
    version: u32,
    tensor_count: u64,
    kv_count: u64,
)
    requires
        version != 3,
        written_at(
            b,
            0,
            seq![71u8, 71u8, 85u8, 70u8] + encode_u32(version) + encode_u64(tensor_count)
                + encode_u64(kv_count),
        ),
    ensures
        spec_parse_header(b) == Err::<GgufHeader, GgufError>(
            GgufError::UnsupportedVersion { version },
        ),
{
    let m = seq![71u8, 71u8, 85u8, 70u8];
    lemma_written_split(b, 0, m + encode_u32(version) + encode_u64(tensor_count), encode_u64(kv_count));
    lemma_written_split(b, 0, m + encode_u32(version), encode_u64(tensor_count));
    lemma_written_split(b, 0, m, encode_u32(version));
    lemma_written_index(b, 0, m, 0);
    lemma_written_index(b, 0, m, 1);
    lemma_written_index(b, 0, m, 2);
    lemma_written_index(b, 0, m, 3);
    lemma_read_u32(b, 4, version);
}

/// The header is read from the first 24 bytes alone: what follows them does not change it.
pub proof fn lemma_header_ignores_rest(b: Seq<u8>)
    requires
        b.len() >= HEADER_SIZE,
    ensures
        spec_parse_header(b) == spec_parse_header(b.take(HEADER_SIZE as int)),
{
    let h = b.take(HEADER_SIZE as int);
    assert(forall|i: int| 0 <= i < HEADER_SIZE ==> #[trigger] h[i] == b[i]);
}

/// Where an entry parses, skipping it takes the same bytes.
pub proof fn lemma_skip_entry_agrees(b: Seq<u8>, off: int)
    ensures
        spec_parse_entry(b, off) matches Ok((_, c)) ==> spec_skip_entry(b, off) == Ok::<int, GgufError>(c),
{
}

/// Where the entries parse, skipping them ends at the same offset: the tensor descriptors are
/// read right after the parsed metadata.
pub proof fn lemma_skip_entries_agree(b: Seq<u8>, off: int, n: nat)
    ensures
        spec_parse_entries(b, off, n) matches Ok((_, end)) ==> spec_skip_entries(b, off, n) == Ok::<
            int,
            GgufError,
        >(end),
    decreases n,
{
    if n > 0 {
        lemma_skip_entries_agree(b, off, (n - 1) as nat);
        if let Ok((_, p)) = spec_parse_entries(b, off, (n - 1) as nat) {
            lemma_skip_entry_agrees(b, p);
        }
    }
}

/// A whole file: a version-3 header counting the entries and descriptors, the entries, then
/// the descriptors.
pub open spec fn encode_file(es: Seq<EntryView>, ts: Seq<TensorView>) -> Seq<u8> {
    encode_header(ts.len() as u64, es.len() as u64) + encode_entries(es) + encode_tensors(ts)
}

/// Where a whole file was written (whatever follows it), parsing the file gives back its
/// header, its metadata entries and its tensor descriptors.
pub proof fn lemma_file_roundtrip(b: Seq<u8>, es: Seq<EntryView>, ts: Seq<TensorView>)
    requires
        es.len() <= u64::MAX,
        ts.len() <= u64::MAX,
        forall|i: int| 0 <= i < es.len() ==> entry_fits(#[trigger] es[i]),
        forall|i: int| 0 <= i < ts.len() ==> tensor_fits(#[trigger] ts[i]),
        written_at(b, 0, encode_file(es, ts)),
    ensures
        spec_parse_gguf_full(b) == Ok::<(GgufHeader, Seq<EntryView>, Seq<TensorView>), GgufError>(
            (
                GgufHeader {
                    version: 3,
                    tensor_count: ts.len() as u64,
                    metadata_kv_count: es.len() as u64,
                },
                es,
                ts,
            ),
        ),
{
    let h = encode_header(ts.len() as u64, es.len() as u64);
    let em = encode_entries(es);
    let et = encode_tensors(ts);
    lemma_written_split(b, 0, h + em, et);
    lemma_written_split(b, 0, h, em);
    lemma_header_roundtrip(b, ts.len() as u64, es.len() as u64);
    assert(h.len() == HEADER_SIZE);
    lemma_entries_roundtrip(b, HEADER_SIZE as int, es);
    lemma_skip_entries_agree(b, HEADER_SIZE as int, es.len());
    lemma_tensors_roundtrip(b, HEADER_SIZE + em.len(), ts);
    assert(spec_parse_metadata(b, es.len() as u64) == Ok::<Seq<EntryView>, GgufError>(es));
    assert(spec_metadata_end(b, es.len() as u64) == Ok::<int, GgufError>(HEADER_SIZE + em.len()));
    assert(spec_parse_gguf(b) == Ok::<(GgufHeader, Seq<EntryView>), GgufError>(
        (GgufHeader { version: 3, tensor_count: ts.len() as u64, metadata_kv_count: es.len() as u64 }, es),
    ));
    assert(spec_parse_tensors(b, ts.len() as u64, HEADER_SIZE + em.len()) == Ok::<Seq<TensorView>, GgufError>(ts));
}

/// The whole-file parse extends the header-and-metadata parse: where header and metadata fail,
/// the whole file fails with the same error; where they parse, the whole file has the same
/// header and entries, and its tensor descriptors are those read from the offset just after
/// the last parsed entry.
pub proof fn lemma_full_extends_gguf(b: Seq<u8>)
    ensures
        spec_parse_gguf(b) matches Err(e) ==> spec_parse_gguf_full(b) == Err::<
            (GgufHeader, Seq<EntryView>, Seq<TensorView>),
            GgufError,
        >(e),
        spec_parse_gguf(b) matches Ok((h, es)) ==> {
            &&& spec_parse_header(b) == Ok::<GgufHeader, GgufError>(h)
            &&& spec_parse_entries(b, HEADER_SIZE as int, h.metadata_kv_count as nat) matches Ok((
                es2,
                end,
            ))
            &&& es2 == es
            &&& spec_parse_gguf_full(b) == match spec_parse_tensors(b, h.tensor_count, end) {
                Ok(ts) => Ok::<(GgufHeader, Seq<EntryView>, Seq<TensorView>), GgufError>((h, es, ts)),
                Err(e) => Err(e),
            }
        },
{
    if let Ok((h, es)) = spec_parse_gguf(b) {
        lemma_skip_entries_agree(b, HEADER_SIZE as int, h.metadata_kv_count as nat);
    }
}

} // verus!
