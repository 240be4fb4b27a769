use crate::types::Number;
use vstd::prelude::*;

verus! {

/// The value of one field, as the destinations take it: the bytes that
/// the byte encoder makes of it, the words that the tokenizer finds in it,
/// and the number that it stands for. Where a value has none of these, the
/// `Err` says why.
///
/// However deep the value is nested, it is one unit here: nothing looks
/// for fields inside it.
#[derive(Debug, PartialEq, Eq)]
pub struct FieldValue {
    pub encoded: Result<Vec<u8>, String>,
    pub words: Result<Vec<String>, String>,
    pub number: Result<Number, String>,
}

/// A key of a map-shaped document, as the key normalizer leaves it.
#[derive(Clone, Debug, PartialEq, Eq)]
pub enum Key {
    /// The key is a string, or stands for one: the name of a field.
    Name(String),
    /// The key is no string. `shape` names what it is.
    Unserializable { shape: &'static str },
}

/// One input document, by its shape.
///
/// Only a map and a struct have fields that can be taken in. A newtype
/// struct stands for what it wraps. Every other shape is refused, whatever
/// it holds.
#[derive(Debug, PartialEq, Eq)]
pub enum Document {
    Bool(bool),
    Char(char),
    I8(i8),
    I16(i16),
    I32(i32),
    I64(i64),
    U8(u8),
    U16(u16),
    U32(u32),
    U64(u64),
    /// A single-precision number, held as its IEEE 754 bit pattern.
    F32(u32),
    /// A double, held as its IEEE 754 bit pattern.
    F64(u64),
    Str(String),
    Bytes(Vec<u8>),
    Option(Option<Box<Document>>),
    Unit,
    UnitStruct { name: &'static str },
    UnitVariant { name: &'static str, variant_index: u32, variant: &'static str },
    NewtypeStruct { name: &'static str, value: Box<Document> },
    NewtypeVariant {
        name: &'static str,
        variant_index: u32,
        variant: &'static str,
        value: Box<Document>,
    },
    Sequence(Vec<Document>),
    Tuple(Vec<Document>),
    TupleStruct { name: &'static str, fields: Vec<Document> },
    TupleVariant {
        name: &'static str,
        variant_index: u32,
        variant: &'static str,
        fields: Vec<Document>,
    },
    Mapping(Vec<(Key, FieldValue)>),
    Struct { name: &'static str, fields: Vec<(&'static str, FieldValue)> },
    StructVariant {
        name: &'static str,
        variant_index: u32,
        variant: &'static str,
        fields: Vec<(&'static str, FieldValue)>,
    },
}

impl Key {
    /// The field name that the key gives, or the name of its shape.
    pub open spec fn name(&self) -> Result<Seq<char>, &'static str> {
        match *self {
            Key::Name(name) => Ok(name@),
            Key::Unserializable { shape } => Err(shape),
        }
    }
}

impl Document {
    /// The name of the document's shape.
    pub open spec fn shape(&self) -> &'static str {
        match *self {
            Document::Bool(_) => "bool",
            Document::Char(_) => "char",
            Document::I8(_) => "i8",
            Document::I16(_) => "i16",
            Document::I32(_) => "i32",
            Document::I64(_) => "i64",
            Document::U8(_) => "u8",
            Document::U16(_) => "u16",
            Document::U32(_) => "u32",
            Document::U64(_) => "u64",
            Document::F32(_) => "f32",
            Document::F64(_) => "f64",
            Document::Str(_) => "str",
            Document::Bytes(_) => "&[u8]",
            Document::Option(_) => "Option",
            Document::Unit => "()",
            Document::UnitStruct { .. } => "unit struct",
            Document::UnitVariant { .. } => "unit variant",
            Document::NewtypeStruct { .. } => "newtype struct",
            Document::NewtypeVariant { .. } => "newtype variant",
            Document::Sequence(_) => "sequence",
            Document::Tuple(_) => "tuple",
            Document::TupleStruct { .. } => "tuple struct",
            Document::TupleVariant { .. } => "tuple variant",
            Document::Mapping(_) => "map",
            Document::Struct { .. } => "struct",
            Document::StructVariant { .. } => "struct variant",
        }
    }
}

} // verus!
