use vstd::prelude::*;

verus! {

/// Why a document, or one of its fields, could not be taken in.
#[derive(Clone, Debug, PartialEq, Eq)]
pub enum SerializerError {
    /// The document, or a key of a map-shaped document, has a shape that
    /// cannot be taken in. `shape` names it.
    UnserializableType { shape: &'static str },
    /// The byte encoder refused a field's value.
    EncodeFailure { reason: String },
    /// The word indexer refused a field's value.
    IndexFailure { reason: String },
    /// The value of a ranked field is no number.
    NumberConversionFailure { reason: String },
    /// A map-shaped document gave a value with no key before it, or a key
    /// while the key before it still waited for its value.
    ProtocolViolation,
}

} // verus!
