use vstd::prelude::*;

verus! {

/// Identifies one document in every destination structure.
#[derive(Clone, Copy, Debug, PartialEq, Eq, Structural, Hash)]
pub struct DocumentId(pub u64);

/// The handle that a schema gives to a field name it declares.
#[derive(Clone, Copy, Debug, PartialEq, Eq, Structural, Hash)]
pub struct SchemaAttr(pub u16);

/// What a schema asks for a field, besides storing it.
#[derive(Clone, Copy, Debug, PartialEq, Eq, Structural, Hash)]
pub struct SchemaProps {
    /// The field's words are searchable.
    pub indexed: bool,
    /// The field's number can order search results.
    pub ranked: bool,
}

/// A number that results can be sorted by.
#[derive(Clone, Copy, Debug, PartialEq, Eq, Structural, Hash)]
pub enum Number {
    Unsigned(u64),
    Signed(i64),
    /// A double, held as its IEEE 754 bit pattern.
    Float(u64),
}

} // verus!
