use vstd::prelude::*;
use vstd::utf8::{decode_utf8, valid_utf8};

use crate::text::{concat, decimal, owned, str_debug, str_debug_text, str_from_utf8, u64_to_decimal};

verus! {

/// Size in bytes of the fixed GGUF header.
pub const HEADER_SIZE: usize = 24;

/// The only GGUF version this parser accepts.
pub const SUPPORTED_VERSION: u32 = 3;

/// The file magic, as text.
pub const GGUF_MAGIC_STR: &'static str = "GGUF";

/// The std I/O error, carried by `GgufError::Io`.
#[verifier::external_type_specification]
#[verifier::external_body]
pub struct ExIoError(std::io::Error);

/// The fixed-size GGUF header.
#[derive(Debug, Clone, Copy, PartialEq, Eq)]
pub struct GgufHeader {
    pub version: u32,
    pub tensor_count: u64,
    pub metadata_kv_count: u64,
}

/// Errors of GGUF parsing.
#[derive(Debug)]
pub enum GgufError {
    FileTooShort { required: usize, available: usize },
    InvalidMagic { got: [u8; 4] },
    UnsupportedVersion { version: u32 },
    Io(std::io::Error),
    TruncatedMetadata { context: &'static str },
    TruncatedTensor { context: &'static str },
    InvalidUtf8,
    UnsupportedValueType { type_id: u32 },
    UnsupportedTensorType { type_id: u32 },
}

/// The text shown for the bytes of a bad magic: the bytes decoded as UTF-8, or a placeholder.
pub open spec fn magic_text(got: Seq<u8>) -> Seq<char> {
    if valid_utf8(got) {
        decode_utf8(got)
    } else {
        "<invalid utf8>"@
    }
}

/// The message of every error but `Io`, whose text comes from the operating system.
pub open spec fn error_text(e: GgufError) -> Seq<char> {
    match e {
        GgufError::FileTooShort { required, available } => "file too short: need "@ + decimal(
            required as nat,
        ) + " bytes, got "@ + decimal(available as nat),
        GgufError::InvalidMagic { got } => "invalid magic: expected "@ + "GGUF"@ + ", got "@
            + str_debug_text(magic_text(got@)),
        GgufError::UnsupportedVersion { version } => "unsupported GGUF version "@ + decimal(
            version as nat,
        ) + ": supported versions are ["@ + decimal(SUPPORTED_VERSION as nat) + "]"@,
        GgufError::Io(_) => "io error: "@,
        GgufError::TruncatedMetadata { context } => "truncated metadata while reading: "@
            + context@,
        GgufError::TruncatedTensor { context } => "truncated tensor header while reading: "@
            + context@,
        GgufError::InvalidUtf8 => "invalid UTF-8 in metadata string"@,
        GgufError::UnsupportedValueType { type_id } => "unsupported metadata value type: "@
            + decimal(type_id as nat),
        GgufError::UnsupportedTensorType { type_id } => "unsupported tensor data type: "@
            + decimal(type_id as nat),
    }
}

/// The `Display` text of an I/O error.
/// Nothing is claimed of the text: it depends on the operating system's error.
#[verifier::external_body]
fn io_error_text(e: &std::io::Error) -> String {
    e.to_string()
}

impl GgufError {
    /// The human-readable message of the error.
    pub fn to_string(&self) -> (s: String)
        ensures
            !(self is Io) ==> s@ == error_text(*self),
            self is Io ==> s@.len() >= 10 && s@.subrange(0, 10) == error_text(*self),
    {
        match self {
            GgufError::FileTooShort { required, available } => {
                let s = owned("file too short: need ");
                let s = concat(s, u64_to_decimal(*required as u64).as_str());
                let s = concat(s, " bytes, got ");
                concat(s, u64_to_decimal(*available as u64).as_str())
            },
            GgufError::InvalidMagic { got } => {
                let shown = match str_from_utf8(got.as_slice()) {
                    Some(t) => t,
                    None => "<invalid utf8>",
                };
                let s = owned("invalid magic: expected ");
                let s = concat(s, GGUF_MAGIC_STR);
                let s = concat(s, ", got ");
                concat(s, str_debug(shown).as_str())
            },
            GgufError::UnsupportedVersion { version } => {
                let s = owned("unsupported GGUF version ");
                let s = concat(s, u64_to_decimal(*version as u64).as_str());
                let s = concat(s, ": supported versions are [");
                let s = concat(s, u64_to_decimal(SUPPORTED_VERSION as u64).as_str());
                concat(s, "]")
            },
            GgufError::Io(e) => {
                let s = owned("io error: ");
                proof {
                    reveal_strlit("io error: ");
                }
                let r = concat(s, io_error_text(e).as_str());
                assert(r@.subrange(0, 10) =~= "io error: "@);
                r
            },
            GgufError::TruncatedMetadata { context } => {
                concat(owned("truncated metadata while reading: "), context)
            },
            GgufError::TruncatedTensor { context } => {
                concat(owned("truncated tensor header while reading: "), context)
            },
            GgufError::InvalidUtf8 => owned("invalid UTF-8 in metadata string"),
            GgufError::UnsupportedValueType { type_id } => {
                let s = owned("unsupported metadata value type: ");
                concat(s, u64_to_decimal(*type_id as u64).as_str())
            },
            GgufError::UnsupportedTensorType { type_id } => {
                let s = owned("unsupported tensor data type: ");
                concat(s, u64_to_decimal(*type_id as u64).as_str())
            },
        }
    }
}

/// An I/O error becomes `GgufError::Io`, so that `?` passes file errors on.
impl From<std::io::Error> for GgufError {
    fn from(e: std::io::Error) -> (r: Self) {
        GgufError::Io(e)
    }
}

impl vstd::std_specs::convert::FromSpecImpl<std::io::Error> for GgufError {
    open spec fn obeys_from_spec() -> bool {
        true
    }

    open spec fn from_spec(e: std::io::Error) -> Self {
        GgufError::Io(e)
    }
}

/// GGUF metadata value type IDs (from llama.cpp gguf.h)
#[derive(Debug, Clone, Copy, PartialEq, Eq)]
pub enum GgufValueType {
    Uint8,
    Int8,
    Uint16,
    Int16,
    Uint32,
    Int32,
    Float32,
    Bool,
    String,
    Array,
    Uint64,
    Int64,
    Float64,
}

/// The numeric type ID of each metadata value type.
pub open spec fn value_type_id(t: GgufValueType) -> u32 {
    match t {
        GgufValueType::Uint8 => 0,
        GgufValueType::Int8 => 1,
        GgufValueType::Uint16 => 2,
        GgufValueType::Int16 => 3,
        GgufValueType::Uint32 => 4,
        GgufValueType::Int32 => 5,
        GgufValueType::Float32 => 6,
        GgufValueType::Bool => 7,
        GgufValueType::String => 8,
        GgufValueType::Array => 9,
        GgufValueType::Uint64 => 10,
        GgufValueType::Int64 => 11,
        GgufValueType::Float64 => 12,
    }
}

/// The value type whose ID is `id`, if any.
pub open spec fn value_type_from_id(id: u32) -> Option<GgufValueType> {
    if id == 0 { Some(GgufValueType::Uint8) }
    else if id == 1 { Some(GgufValueType::Int8) }
    else if id == 2 { Some(GgufValueType::Uint16) }
    else if id == 3 { Some(GgufValueType::Int16) }
    else if id == 4 { Some(GgufValueType::Uint32) }
    else if id == 5 { Some(GgufValueType::Int32) }
    else if id == 6 { Some(GgufValueType::Float32) }
    else if id == 7 { Some(GgufValueType::Bool) }
    else if id == 8 { Some(GgufValueType::String) }
    else if id == 9 { Some(GgufValueType::Array) }
    else if id == 10 { Some(GgufValueType::Uint64) }
    else if id == 11 { Some(GgufValueType::Int64) }
    else if id == 12 { Some(GgufValueType::Float64) }
    else { None }
}

impl GgufValueType {
    pub fn to_u32(self) -> (id: u32)
        ensures
            id == value_type_id(self),
    {
        match self {
            GgufValueType::Uint8 => 0,
            GgufValueType::Int8 => 1,
            GgufValueType::Uint16 => 2,
            GgufValueType::Int16 => 3,
            GgufValueType::Uint32 => 4,
            GgufValueType::Int32 => 5,
            GgufValueType::Float32 => 6,
            GgufValueType::Bool => 7,
            GgufValueType::String => 8,
            GgufValueType::Array => 9,
            GgufValueType::Uint64 => 10,
            GgufValueType::Int64 => 11,
            GgufValueType::Float64 => 12,
        }
    }

    pub fn from_u32(id: u32) -> (t: Option<Self>)
        ensures
            t == value_type_from_id(id),
    {
        match id {
            0 => Some(GgufValueType::Uint8),
            1 => Some(GgufValueType::Int8),
            2 => Some(GgufValueType::Uint16),
            3 => Some(GgufValueType::Int16),
            4 => Some(GgufValueType::Uint32),
            5 => Some(GgufValueType::Int32),
            6 => Some(GgufValueType::Float32),
            7 => Some(GgufValueType::Bool),
            8 => Some(GgufValueType::String),
            9 => Some(GgufValueType::Array),
            10 => Some(GgufValueType::Uint64),
            11 => Some(GgufValueType::Int64),
            12 => Some(GgufValueType::Float64),
            _ => None,
        }
    }
}

/// Decoding a value type's ID gives the type back.
pub proof fn lemma_value_type_id_roundtrip(t: GgufValueType)
    ensures
        value_type_from_id(value_type_id(t)) == Some(t),
{
}

/// Every ID that decodes to a type is that type's ID.
pub proof fn lemma_value_type_from_id_inverse(id: u32)
    ensures
        value_type_from_id(id) matches Some(t) ==> value_type_id(t) == id,
        value_type_from_id(id) is Some <==> id <= 12,
{
}


/// The display name of each metadata value type.
pub open spec fn value_type_name(t: GgufValueType) -> Seq<char> {
    match t {
        GgufValueType::Uint8 => "uint8"@,
        GgufValueType::Int8 => "int8"@,
        GgufValueType::Uint16 => "uint16"@,
        GgufValueType::Int16 => "int16"@,
        GgufValueType::Uint32 => "uint32"@,
        GgufValueType::Int32 => "int32"@,
        GgufValueType::Float32 => "float32"@,
        GgufValueType::Bool => "bool"@,
        GgufValueType::String => "string"@,
        GgufValueType::Array => "array"@,
        GgufValueType::Uint64 => "uint64"@,
        GgufValueType::Int64 => "int64"@,
        GgufValueType::Float64 => "float64"@,
    }
}

impl GgufValueType {
    /// The display name of the type (for example `uint8`).
    pub fn to_string(&self) -> (s: String)
        ensures
            s@ == value_type_name(*self),
    {
        match self {
            GgufValueType::Uint8 => owned("uint8"),
            GgufValueType::Int8 => owned("int8"),
            GgufValueType::Uint16 => owned("uint16"),
            GgufValueType::Int16 => owned("int16"),
            GgufValueType::Uint32 => owned("uint32"),
            GgufValueType::Int32 => owned("int32"),
            GgufValueType::Float32 => owned("float32"),
            GgufValueType::Bool => owned("bool"),
            GgufValueType::String => owned("string"),
            GgufValueType::Array => owned("array"),
            GgufValueType::Uint64 => owned("uint64"),
            GgufValueType::Int64 => owned("int64"),
            GgufValueType::Float64 => owned("float64"),
        }
    }
}

/// GGML tensor data type IDs (from llama.cpp ggml.h)
#[allow(non_camel_case_types)]
#[derive(Debug, Clone, Copy, PartialEq, Eq)]
pub enum GgufTensorType {
    F32,
    F16,
    Q4_0,
    Q4_1,
    Q4_1_F16,
    Q8_0,
    Q8_1,
    Q5_0,
    Q5_1,
    Q2_K,
    Q3_K,
    Q4_K,
    Q5_K,
    Q6_K,
    IQ2_XXS,
    IQ2_XS,
    IQ3_XXS,
    IQ1_S,
    IQ4_NL,
    IQ3_S,
    IQ2_S,
    IQ4_XS,
    I8,
    I16,
    I32,
    I64,
    F64,
    IQ1_M,
    BF16,
    Q4_0_4_4,
    Q4_0_4_8,
    Q4_0_8_8,
    TQ1_0,
    TQ2_0,
}

/// The GGML type ID of each tensor type.
pub open spec fn tensor_type_id(t: GgufTensorType) -> u32 {
    match t {
        GgufTensorType::F32 => 0,
        GgufTensorType::F16 => 1,
        GgufTensorType::Q4_0 => 2,
        GgufTensorType::Q4_1 => 3,
        GgufTensorType::Q4_1_F16 => 4,
        GgufTensorType::Q8_0 => 7,
        GgufTensorType::Q8_1 => 8,
        GgufTensorType::Q5_0 => 9,
        GgufTensorType::Q5_1 => 10,
        GgufTensorType::Q2_K => 11,
        GgufTensorType::Q3_K => 12,
        GgufTensorType::Q4_K => 13,
        GgufTensorType::Q5_K => 14,
        GgufTensorType::Q6_K => 15,
        GgufTensorType::IQ2_XXS => 16,
        GgufTensorType::IQ2_XS => 17,
        GgufTensorType::IQ3_XXS => 18,
        GgufTensorType::IQ1_S => 19,
        GgufTensorType::IQ4_NL => 20,
        GgufTensorType::IQ3_S => 21,
        GgufTensorType::IQ2_S => 22,
        GgufTensorType::IQ4_XS => 23,
        GgufTensorType::I8 => 24,
        GgufTensorType::I16 => 25,
        GgufTensorType::I32 => 26,
        GgufTensorType::I64 => 27,
        GgufTensorType::F64 => 28,
        GgufTensorType::IQ1_M => 29,
        GgufTensorType::BF16 => 30,
        GgufTensorType::Q4_0_4_4 => 31,
        GgufTensorType::Q4_0_4_8 => 32,
        GgufTensorType::Q4_0_8_8 => 33,
        GgufTensorType::TQ1_0 => 34,
        GgufTensorType::TQ2_0 => 35,
    }
}

/// The tensor type whose GGML ID is `id`, if this library knows it.
pub open spec fn tensor_type_from_id(id: u32) -> Option<GgufTensorType> {
    if id == 0 { Some(GgufTensorType::F32) }
    else if id == 1 { Some(GgufTensorType::F16) }
    else if id == 2 { Some(GgufTensorType::Q4_0) }
    else if id == 3 { Some(GgufTensorType::Q4_1) }
    else if id == 4 { Some(GgufTensorType::Q4_1_F16) }
    else if id == 7 { Some(GgufTensorType::Q8_0) }
    else if id == 8 { Some(GgufTensorType::Q8_1) }
    else if id == 9 { Some(GgufTensorType::Q5_0) }
    else if id == 10 { Some(GgufTensorType::Q5_1) }
    else if id == 11 { Some(GgufTensorType::Q2_K) }
    else if id == 12 { Some(GgufTensorType::Q3_K) }
    else if id == 13 { Some(GgufTensorType::Q4_K) }
    else if id == 14 { Some(GgufTensorType::Q5_K) }
    else if id == 15 { Some(GgufTensorType::Q6_K) }
    else if id == 16 { Some(GgufTensorType::IQ2_XXS) }
    else if id == 17 { Some(GgufTensorType::IQ2_XS) }
    else if id == 18 { Some(GgufTensorType::IQ3_XXS) }
    else if id == 19 { Some(GgufTensorType::IQ1_S) }
    else if id == 20 { Some(GgufTensorType::IQ4_NL) }
    else if id == 21 { Some(GgufTensorType::IQ3_S) }
    else if id == 22 { Some(GgufTensorType::IQ2_S) }
    else if id == 23 { Some(GgufTensorType::IQ4_XS) }
    else if id == 24 { Some(GgufTensorType::I8) }
    else if id == 25 { Some(GgufTensorType::I16) }
    else if id == 26 { Some(GgufTensorType::I32) }
    else if id == 27 { Some(GgufTensorType::I64) }
    else if id == 28 { Some(GgufTensorType::F64) }
    else if id == 29 { Some(GgufTensorType::IQ1_M) }
    else if id == 30 { Some(GgufTensorType::BF16) }
    else if id == 31 { Some(GgufTensorType::Q4_0_4_4) }
    else if id == 32 { Some(GgufTensorType::Q4_0_4_8) }
    else if id == 33 { Some(GgufTensorType::Q4_0_8_8) }
    else if id == 34 { Some(GgufTensorType::TQ1_0) }
    else if id == 35 { Some(GgufTensorType::TQ2_0) }
    else { None }
}

/// The display name of each tensor type.
pub open spec fn tensor_type_name(t: GgufTensorType) -> Seq<char> {
    match t {
        GgufTensorType::F32 => "F32"@,
        GgufTensorType::F16 => "F16"@,
        GgufTensorType::Q4_0 => "Q4_0"@,
        GgufTensorType::Q4_1 => "Q4_1"@,
        GgufTensorType::Q4_1_F16 => "Q4_1_F16"@,
        GgufTensorType::Q8_0 => "Q8_0"@,
        GgufTensorType::Q8_1 => "Q8_1"@,
        GgufTensorType::Q5_0 => "Q5_0"@,
        GgufTensorType::Q5_1 => "Q5_1"@,
        GgufTensorType::Q2_K => "Q2_K"@,
        GgufTensorType::Q3_K => "Q3_K"@,
        GgufTensorType::Q4_K => "Q4_K"@,
        GgufTensorType::Q5_K => "Q5_K"@,
        GgufTensorType::Q6_K => "Q6_K"@,
        GgufTensorType::IQ2_XXS => "IQ2_XXS"@,
        GgufTensorType::IQ2_XS => "IQ2_XS"@,
        GgufTensorType::IQ3_XXS => "IQ3_XXS"@,
        GgufTensorType::IQ1_S => "IQ1_S"@,
        GgufTensorType::IQ4_NL => "IQ4_NL"@,
        GgufTensorType::IQ3_S => "IQ3_S"@,
        GgufTensorType::IQ2_S => "IQ2_S"@,
        GgufTensorType::IQ4_XS => "IQ4_XS"@,
        GgufTensorType::I8 => "I8"@,
        GgufTensorType::I16 => "I16"@,
        GgufTensorType::I32 => "I32"@,
        GgufTensorType::I64 => "I64"@,
        GgufTensorType::F64 => "F64"@,
        GgufTensorType::IQ1_M => "IQ1_M"@,
        GgufTensorType::BF16 => "BF16"@,
        GgufTensorType::Q4_0_4_4 => "Q4_0_4_4"@,
        GgufTensorType::Q4_0_4_8 => "Q4_0_4_8"@,
        GgufTensorType::Q4_0_8_8 => "Q4_0_8_8"@,
        GgufTensorType::TQ1_0 => "TQ1_0"@,
        GgufTensorType::TQ2_0 => "TQ2_0"@,
    }
}

impl GgufTensorType {
    /// The GGML type ID of the type (the value the format stores for it).
    pub fn to_u32(self) -> (id: u32)
        ensures
            id == tensor_type_id(self),
    {
        match self {
            GgufTensorType::F32 => 0,
            GgufTensorType::F16 => 1,
            GgufTensorType::Q4_0 => 2,
            GgufTensorType::Q4_1 => 3,
            GgufTensorType::Q4_1_F16 => 4,
            GgufTensorType::Q8_0 => 7,
            GgufTensorType::Q8_1 => 8,
            GgufTensorType::Q5_0 => 9,
            GgufTensorType::Q5_1 => 10,
            GgufTensorType::Q2_K => 11,
            GgufTensorType::Q3_K => 12,
            GgufTensorType::Q4_K => 13,
            GgufTensorType::Q5_K => 14,
            GgufTensorType::Q6_K => 15,
            GgufTensorType::IQ2_XXS => 16,
            GgufTensorType::IQ2_XS => 17,
            GgufTensorType::IQ3_XXS => 18,
            GgufTensorType::IQ1_S => 19,
            GgufTensorType::IQ4_NL => 20,
            GgufTensorType::IQ3_S => 21,
            GgufTensorType::IQ2_S => 22,
            GgufTensorType::IQ4_XS => 23,
            GgufTensorType::I8 => 24,
            GgufTensorType::I16 => 25,
            GgufTensorType::I32 => 26,
            GgufTensorType::I64 => 27,
            GgufTensorType::F64 => 28,
            GgufTensorType::IQ1_M => 29,
            GgufTensorType::BF16 => 30,
            GgufTensorType::Q4_0_4_4 => 31,
            GgufTensorType::Q4_0_4_8 => 32,
            GgufTensorType::Q4_0_8_8 => 33,
            GgufTensorType::TQ1_0 => 34,
            GgufTensorType::TQ2_0 => 35,
        }
    }

    /// The tensor type with GGML type ID `id`, or `UnsupportedTensorType` for an unknown ID.
    pub fn from_u32(id: u32) -> (r: Result<Self, GgufError>)
        ensures
            r == (match tensor_type_from_id(id) {
                Some(t) => Ok(t),
                None => Err(GgufError::UnsupportedTensorType { type_id: id }),
            }),
    {
        match id {
            0 => Ok(GgufTensorType::F32),
            1 => Ok(GgufTensorType::F16),
            2 => Ok(GgufTensorType::Q4_0),
            3 => Ok(GgufTensorType::Q4_1),
            4 => Ok(GgufTensorType::Q4_1_F16),
            7 => Ok(GgufTensorType::Q8_0),
            8 => Ok(GgufTensorType::Q8_1),
            9 => Ok(GgufTensorType::Q5_0),
            10 => Ok(GgufTensorType::Q5_1),
            11 => Ok(GgufTensorType::Q2_K),
            12 => Ok(GgufTensorType::Q3_K),
            13 => Ok(GgufTensorType::Q4_K),
            14 => Ok(GgufTensorType::Q5_K),
            15 => Ok(GgufTensorType::Q6_K),
            16 => Ok(GgufTensorType::IQ2_XXS),
            17 => Ok(GgufTensorType::IQ2_XS),
            18 => Ok(GgufTensorType::IQ3_XXS),
            19 => Ok(GgufTensorType::IQ1_S),
            20 => Ok(GgufTensorType::IQ4_NL),
            21 => Ok(GgufTensorType::IQ3_S),
            22 => Ok(GgufTensorType::IQ2_S),
            23 => Ok(GgufTensorType::IQ4_XS),
            24 => Ok(GgufTensorType::I8),
            25 => Ok(GgufTensorType::I16),
            26 => Ok(GgufTensorType::I32),
            27 => Ok(GgufTensorType::I64),
            28 => Ok(GgufTensorType::F64),
            29 => Ok(GgufTensorType::IQ1_M),
            30 => Ok(GgufTensorType::BF16),
            31 => Ok(GgufTensorType::Q4_0_4_4),
            32 => Ok(GgufTensorType::Q4_0_4_8),
            33 => Ok(GgufTensorType::Q4_0_8_8),
            34 => Ok(GgufTensorType::TQ1_0),
            35 => Ok(GgufTensorType::TQ2_0),
            _ => Err(GgufError::UnsupportedTensorType { type_id: id }),
        }
    }

    /// The display name of the type (for example `Q4_0`).
    pub fn to_string(&self) -> (s: String)
        ensures
            s@ == tensor_type_name(*self),
    {
        match self {
            GgufTensorType::F32 => owned("F32"),
            GgufTensorType::F16 => owned("F16"),
            GgufTensorType::Q4_0 => owned("Q4_0"),
            GgufTensorType::Q4_1 => owned("Q4_1"),
            GgufTensorType::Q4_1_F16 => owned("Q4_1_F16"),
            GgufTensorType::Q8_0 => owned("Q8_0"),
            GgufTensorType::Q8_1 => owned("Q8_1"),
            GgufTensorType::Q5_0 => owned("Q5_0"),
            GgufTensorType::Q5_1 => owned("Q5_1"),
            GgufTensorType::Q2_K => owned("Q2_K"),
            GgufTensorType::Q3_K => owned("Q3_K"),
            GgufTensorType::Q4_K => owned("Q4_K"),
            GgufTensorType::Q5_K => owned("Q5_K"),
            GgufTensorType::Q6_K => owned("Q6_K"),
            GgufTensorType::IQ2_XXS => owned("IQ2_XXS"),
            GgufTensorType::IQ2_XS => owned("IQ2_XS"),
            GgufTensorType::IQ3_XXS => owned("IQ3_XXS"),
            GgufTensorType::IQ1_S => owned("IQ1_S"),
            GgufTensorType::IQ4_NL => owned("IQ4_NL"),
            GgufTensorType::IQ3_S => owned("IQ3_S"),
            GgufTensorType::IQ2_S => owned("IQ2_S"),
            GgufTensorType::IQ4_XS => owned("IQ4_XS"),
            GgufTensorType::I8 => owned("I8"),
            GgufTensorType::I16 => owned("I16"),
            GgufTensorType::I32 => owned("I32"),
            GgufTensorType::I64 => owned("I64"),
            GgufTensorType::F64 => owned("F64"),
            GgufTensorType::IQ1_M => owned("IQ1_M"),
            GgufTensorType::BF16 => owned("BF16"),
            GgufTensorType::Q4_0_4_4 => owned("Q4_0_4_4"),
            GgufTensorType::Q4_0_4_8 => owned("Q4_0_4_8"),
            GgufTensorType::Q4_0_8_8 => owned("Q4_0_8_8"),
            GgufTensorType::TQ1_0 => owned("TQ1_0"),
            GgufTensorType::TQ2_0 => owned("TQ2_0"),
        }
    }
}

/// Decoding a tensor type's GGML ID gives the type back.
pub proof fn lemma_tensor_type_id_roundtrip(t: GgufTensorType)
    ensures
        tensor_type_from_id(tensor_type_id(t)) == Some(t),
{
}

/// Every ID that decodes to a tensor type is that type's ID; exactly the IDs 0 to 4 and
/// 7 to 35 decode.
pub proof fn lemma_tensor_type_from_id_inverse(id: u32)
    ensures
        tensor_type_from_id(id) matches Some(t) ==> tensor_type_id(t) == id,
        tensor_type_from_id(id) is Some <==> (id <= 4 || (7 <= id && id <= 35)),
{
}

/// The GGML type table of `ggml.h`: each known ID decodes to the type of that name, the type's
/// ID is that number and its display name is the `ggml.h` name; IDs 5 and 6 (retired
/// `Q4_2`/`Q4_3`) and every ID above 35 decode to nothing.
pub proof fn lemma_ggml_type_table()
    ensures
        tensor_type_from_id(0) == Some(GgufTensorType::F32) && tensor_type_id(GgufTensorType::F32) == 0
            && tensor_type_name(GgufTensorType::F32) == "F32"@,
        tensor_type_from_id(1) == Some(GgufTensorType::F16) && tensor_type_id(GgufTensorType::F16) == 1
            && tensor_type_name(GgufTensorType::F16) == "F16"@,
        tensor_type_from_id(2) == Some(GgufTensorType::Q4_0) && tensor_type_id(GgufTensorType::Q4_0) == 2
            && tensor_type_name(GgufTensorType::Q4_0) == "Q4_0"@,
        tensor_type_from_id(3) == Some(GgufTensorType::Q4_1) && tensor_type_id(GgufTensorType::Q4_1) == 3
            && tensor_type_name(GgufTensorType::Q4_1) == "Q4_1"@,
        tensor_type_from_id(4) == Some(GgufTensorType::Q4_1_F16) && tensor_type_id(GgufTensorType::Q4_1_F16) == 4
            && tensor_type_name(GgufTensorType::Q4_1_F16) == "Q4_1_F16"@,
        tensor_type_from_id(7) == Some(GgufTensorType::Q8_0) && tensor_type_id(GgufTensorType::Q8_0) == 7
            && tensor_type_name(GgufTensorType::Q8_0) == "Q8_0"@,
        tensor_type_from_id(8) == Some(GgufTensorType::Q8_1) && tensor_type_id(GgufTensorType::Q8_1) == 8
            && tensor_type_name(GgufTensorType::Q8_1) == "Q8_1"@,
        tensor_type_from_id(9) == Some(GgufTensorType::Q5_0) && tensor_type_id(GgufTensorType::Q5_0) == 9
            && tensor_type_name(GgufTensorType::Q5_0) == "Q5_0"@,
        tensor_type_from_id(10) == Some(GgufTensorType::Q5_1) && tensor_type_id(GgufTensorType::Q5_1) == 10
            && tensor_type_name(GgufTensorType::Q5_1) == "Q5_1"@,
        tensor_type_from_id(11) == Some(GgufTensorType::Q2_K) && tensor_type_id(GgufTensorType::Q2_K) == 11
            && tensor_type_name(GgufTensorType::Q2_K) == "Q2_K"@,
        tensor_type_from_id(12) == Some(GgufTensorType::Q3_K) && tensor_type_id(GgufTensorType::Q3_K) == 12
            && tensor_type_name(GgufTensorType::Q3_K) == "Q3_K"@,
        tensor_type_from_id(13) == Some(GgufTensorType::Q4_K) && tensor_type_id(GgufTensorType::Q4_K) == 13
            && tensor_type_name(GgufTensorType::Q4_K) == "Q4_K"@,
        tensor_type_from_id(14) == Some(GgufTensorType::Q5_K) && tensor_type_id(GgufTensorType::Q5_K) == 14
            && tensor_type_name(GgufTensorType::Q5_K) == "Q5_K"@,
        tensor_type_from_id(15) == Some(GgufTensorType::Q6_K) && tensor_type_id(GgufTensorType::Q6_K) == 15
            && tensor_type_name(GgufTensorType::Q6_K) == "Q6_K"@,
        tensor_type_from_id(16) == Some(GgufTensorType::IQ2_XXS) && tensor_type_id(GgufTensorType::IQ2_XXS) == 16
            && tensor_type_name(GgufTensorType::IQ2_XXS) == "IQ2_XXS"@,
        tensor_type_from_id(17) == Some(GgufTensorType::IQ2_XS) && tensor_type_id(GgufTensorType::IQ2_XS) == 17
            && tensor_type_name(GgufTensorType::IQ2_XS) == "IQ2_XS"@,
        tensor_type_from_id(18) == Some(GgufTensorType::IQ3_XXS) && tensor_type_id(GgufTensorType::IQ3_XXS) == 18
            && tensor_type_name(GgufTensorType::IQ3_XXS) == "IQ3_XXS"@,
        tensor_type_from_id(19) == Some(GgufTensorType::IQ1_S) && tensor_type_id(GgufTensorType::IQ1_S) == 19
            && tensor_type_name(GgufTensorType::IQ1_S) == "IQ1_S"@,
        tensor_type_from_id(20) == Some(GgufTensorType::IQ4_NL) && tensor_type_id(GgufTensorType::IQ4_NL) == 20
            && tensor_type_name(GgufTensorType::IQ4_NL) == "IQ4_NL"@,
        tensor_type_from_id(21) == Some(GgufTensorType::IQ3_S) && tensor_type_id(GgufTensorType::IQ3_S) == 21
            && tensor_type_name(GgufTensorType::IQ3_S) == "IQ3_S"@,
        tensor_type_from_id(22) == Some(GgufTensorType::IQ2_S) && tensor_type_id(GgufTensorType::IQ2_S) == 22
            && tensor_type_name(GgufTensorType::IQ2_S) == "IQ2_S"@,
        tensor_type_from_id(23) == Some(GgufTensorType::IQ4_XS) && tensor_type_id(GgufTensorType::IQ4_XS) == 23
            && tensor_type_name(GgufTensorType::IQ4_XS) == "IQ4_XS"@,
        tensor_type_from_id(24) == Some(GgufTensorType::I8) && tensor_type_id(GgufTensorType::I8) == 24
            && tensor_type_name(GgufTensorType::I8) == "I8"@,
        tensor_type_from_id(25) == Some(GgufTensorType::I16) && tensor_type_id(GgufTensorType::I16) == 25
            && tensor_type_name(GgufTensorType::I16) == "I16"@,
        tensor_type_from_id(26) == Some(GgufTensorType::I32) && tensor_type_id(GgufTensorType::I32) == 26
            && tensor_type_name(GgufTensorType::I32) == "I32"@,
        tensor_type_from_id(27) == Some(GgufTensorType::I64) && tensor_type_id(GgufTensorType::I64) == 27
            && tensor_type_name(GgufTensorType::I64) == "I64"@,
        tensor_type_from_id(28) == Some(GgufTensorType::F64) && tensor_type_id(GgufTensorType::F64) == 28
            && tensor_type_name(GgufTensorType::F64) == "F64"@,
        tensor_type_from_id(29) == Some(GgufTensorType::IQ1_M) && tensor_type_id(GgufTensorType::IQ1_M) == 29
            && tensor_type_name(GgufTensorType::IQ1_M) == "IQ1_M"@,
        tensor_type_from_id(30) == Some(GgufTensorType::BF16) && tensor_type_id(GgufTensorType::BF16) == 30
            && tensor_type_name(GgufTensorType::BF16) == "BF16"@,
        tensor_type_from_id(31) == Some(GgufTensorType::Q4_0_4_4) && tensor_type_id(GgufTensorType::Q4_0_4_4) == 31
            && tensor_type_name(GgufTensorType::Q4_0_4_4) == "Q4_0_4_4"@,
        tensor_type_from_id(32) == Some(GgufTensorType::Q4_0_4_8) && tensor_type_id(GgufTensorType::Q4_0_4_8) == 32
            && tensor_type_name(GgufTensorType::Q4_0_4_8) == "Q4_0_4_8"@,
        tensor_type_from_id(33) == Some(GgufTensorType::Q4_0_8_8) && tensor_type_id(GgufTensorType::Q4_0_8_8) == 33
            && tensor_type_name(GgufTensorType::Q4_0_8_8) == "Q4_0_8_8"@,
        tensor_type_from_id(34) == Some(GgufTensorType::TQ1_0) && tensor_type_id(GgufTensorType::TQ1_0) == 34
            && tensor_type_name(GgufTensorType::TQ1_0) == "TQ1_0"@,
        tensor_type_from_id(35) == Some(GgufTensorType::TQ2_0) && tensor_type_id(GgufTensorType::TQ2_0) == 35
            && tensor_type_name(GgufTensorType::TQ2_0) == "TQ2_0"@,
        forall|id: u32| (id == 5 || id == 6 || id > 35) ==> tensor_type_from_id(id) is None,
{
}

/// The GGUF metadata value type table of the format: each ID from 0 to 12 decodes to the type
/// of that name, the type's ID is that number and its display name is the format's name; every
/// ID above 12 decodes to nothing.
pub proof fn lemma_gguf_value_type_table()
    ensures
        value_type_from_id(0) == Some(GgufValueType::Uint8) && value_type_id(GgufValueType::Uint8) == 0
            && value_type_name(GgufValueType::Uint8) == "uint8"@,
        value_type_from_id(1) == Some(GgufValueType::Int8) && value_type_id(GgufValueType::Int8) == 1
            && value_type_name(GgufValueType::Int8) == "int8"@,
        value_type_from_id(2) == Some(GgufValueType::Uint16) && value_type_id(GgufValueType::Uint16) == 2
            && value_type_name(GgufValueType::Uint16) == "uint16"@,
        value_type_from_id(3) == Some(GgufValueType::Int16) && value_type_id(GgufValueType::Int16) == 3
            && value_type_name(GgufValueType::Int16) == "int16"@,
        value_type_from_id(4) == Some(GgufValueType::Uint32) && value_type_id(GgufValueType::Uint32) == 4
            && value_type_name(GgufValueType::Uint32) == "uint32"@,
        value_type_from_id(5) == Some(GgufValueType::Int32) && value_type_id(GgufValueType::Int32) == 5
            && value_type_name(GgufValueType::Int32) == "int32"@,
        value_type_from_id(6) == Some(GgufValueType::Float32) && value_type_id(GgufValueType::Float32) == 6
            && value_type_name(GgufValueType::Float32) == "float32"@,
        value_type_from_id(7) == Some(GgufValueType::Bool) && value_type_id(GgufValueType::Bool) == 7
            && value_type_name(GgufValueType::Bool) == "bool"@,
        value_type_from_id(8) == Some(GgufValueType::String) && value_type_id(GgufValueType::String) == 8
            && value_type_name(GgufValueType::String) == "string"@,
        value_type_from_id(9) == Some(GgufValueType::Array) && value_type_id(GgufValueType::Array) == 9
            && value_type_name(GgufValueType::Array) == "array"@,
        value_type_from_id(10) == Some(GgufValueType::Uint64) && value_type_id(GgufValueType::Uint64) == 10
            && value_type_name(GgufValueType::Uint64) == "uint64"@,
        value_type_from_id(11) == Some(GgufValueType::Int64) && value_type_id(GgufValueType::Int64) == 11
            && value_type_name(GgufValueType::Int64) == "int64"@,
        value_type_from_id(12) == Some(GgufValueType::Float64) && value_type_id(GgufValueType::Float64) == 12
            && value_type_name(GgufValueType::Float64) == "float64"@,
        forall|id: u32| id > 12 ==> value_type_from_id(id) is None,
{
}

} // verus!
