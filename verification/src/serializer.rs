use crate::document::{Document, FieldValue, Key};
use crate::document_store::RamDocumentStore;
use crate::error::SerializerError;
use crate::field_map::{FieldsCounts, RankedMap};
use crate::raw_indexer::RawIndexer;
use crate::routing::{
    document_effect, document_outcome, entries_effect, entries_of, entries_outcome, entry_effect,
    entry_outcome, field_effect, field_outcome, fields_of, holding, is_record,
    lemma_failure_ends_routing, lemma_only_records_have_entries, refused_shape, Destinations,
};
use crate::schema::Schema;
use crate::types::DocumentId;
use vstd::prelude::*;

verus! {

/// Routes one field of the document `document_id` to its destinations.
///
/// A field that the schema does not declare is passed over. For a declared
/// field the bytes of the value go to the document store; then, if the
/// field is indexed, its words go to the word index and their number to
/// the field counts; then, if the field is ranked, its number goes to the
/// ranked map. The first refusal ends the routing; what was written
/// before it stays.
pub fn serialize_value(
    schema: &Schema,
    document_id: DocumentId,
    document_store: &mut RamDocumentStore,
    documents_fields_counts: &mut FieldsCounts,
    indexer: &mut RawIndexer,
    ranked_map: &mut RankedMap,
    key: &str,
    value: &FieldValue,
) -> (result: Result<(), SerializerError>)
    ensures
        result == field_outcome(schema, key@, value),
        holding(final(document_store), final(documents_fields_counts), final(indexer), final(ranked_map))
            == field_effect(
            schema,
            holding(old(document_store), old(documents_fields_counts), old(indexer), old(ranked_map)),
            document_id,
            key@,
            value,
        ),
        schema.spec_attribute(key@) is None ==> {
            &&& result is Ok
            &&& final(document_store)@ == old(document_store)@
            &&& final(documents_fields_counts)@ == old(documents_fields_counts)@
            &&& final(indexer)@ == old(indexer)@
            &&& final(ranked_map)@ == old(ranked_map)@
        },
        schema.spec_attribute(key@) matches Some(attribute) ==> {
            let props = schema.spec_props(attribute);
            let at = (document_id, attribute);
            &&& value.encoded is Ok ==> final(document_store)@ == old(document_store)@.insert(
                at,
                value.encoded->Ok_0@,
            )
            &&& value.encoded is Err ==> final(document_store)@ == old(document_store)@
            &&& !props.indexed || value.words is Err || value.words->Ok_0.len() == 0 ==> {
                &&& final(documents_fields_counts)@ == old(documents_fields_counts)@
                &&& final(indexer)@ == old(indexer)@
            }
            &&& !props.ranked || value.number is Err ==> final(ranked_map)@ == old(ranked_map)@
            &&& !props.indexed && !props.ranked && value.encoded is Ok ==> result is Ok
        },
{
    if let Some(attribute) = schema.attribute(key) {
        let props = schema.props(attribute);

        let serialized = match &value.encoded {
            Ok(bytes) => bytes.clone(),
            Err(reason) => {
                return Err(SerializerError::EncodeFailure { reason: reason.clone() });
            },
        };
        assert(serialized@ =~= value.encoded->Ok_0@);
        document_store.set_document_field(document_id, attribute, serialized);

        if props.indexed {
            let words = match &value.words {
                Ok(words) => words,
                Err(reason) => {
                    return Err(SerializerError::IndexFailure { reason: reason.clone() });
                },
            };
            if let Some(number_of_words) = indexer.index_words(document_id, attribute, words) {
                documents_fields_counts.insert(document_id, attribute, number_of_words);
            }
        }

        if props.ranked {
            let number = match &value.number {
                Ok(number) => *number,
                Err(reason) => {
                    return Err(SerializerError::NumberConversionFailure { reason: reason.clone() });
                },
            };
            ranked_map.insert(document_id, attribute, number);
        }
    }

    Ok(())
}

/// The refusal of a document, or of a key, of the shape that `shape`
/// names.
pub open spec fn refused(shape: &'static str) -> Result<(), SerializerError> {
    Err(SerializerError::UnserializableType { shape })
}

/// How the taking of a key ends, while `waiting` is the key that waits for
/// its value, if one does.
pub open spec fn key_outcome(waiting: Option<String>, key: &Key) -> Result<(), SerializerError> {
    match *key {
        Key::Unserializable { shape } => refused(shape),
        Key::Name(_) => if waiting is Some {
            Err(SerializerError::ProtocolViolation)
        } else {
            Ok(())
        },
    }
}

/// The key that waits for its value once `key` was given: `key`, if it
/// was taken, and else the one that waited before.
pub open spec fn key_kept(waiting: Option<String>, key: &Key) -> Option<String> {
    match *key {
        Key::Unserializable { .. } => waiting,
        Key::Name(name) => if waiting is Some {
            waiting
        } else {
            Some(name)
        },
    }
}

/// How the taking of a value ends, while `waiting` is the key that waits
/// for it, if one does.
pub open spec fn value_outcome(schema: &Schema, waiting: Option<String>, value: &FieldValue)
    -> Result<(), SerializerError> {
    match waiting {
        None => Err(SerializerError::ProtocolViolation),
        Some(name) => field_outcome(schema, name@, value),
    }
}

/// What the destinations hold once a value was given, while `waiting` is
/// the key that waits for it, if one does.
pub open spec fn value_effect(
    schema: &Schema,
    before: Destinations,
    document_id: DocumentId,
    waiting: Option<String>,
    value: &FieldValue,
) -> Destinations {
    match waiting {
        None => before,
        Some(name) => field_effect(schema, before, document_id, name@, value),
    }
}

/// While no key waits, to give a key and its value at once is to give the
/// key and then the value: both end alike and leave the destinations
/// alike, and a key that is refused leaves them as they are.
pub proof fn lemma_entry_is_key_then_value(
    schema: &Schema,
    before: Destinations,
    document_id: DocumentId,
    key: &Key,
    value: &FieldValue,
)
    ensures
        key_outcome(None, key) is Err ==> {
            &&& entry_outcome(schema, (key.name(), *value)) == key_outcome(None, key)
            &&& entry_effect(schema, before, document_id, (key.name(), *value)) == before
        },
        key_outcome(None, key) is Ok ==> {
            &&& entry_outcome(schema, (key.name(), *value)) == value_outcome(
                schema,
                key_kept(None, key),
                value,
            )
            &&& entry_effect(schema, before, document_id, (key.name(), *value)) == value_effect(
                schema,
                before,
                document_id,
                key_kept(None, key),
                value,
            )
        },
{
}

/// Takes one document in: sends the fields that it finds in a map or a
/// struct to their destinations, under the document's identifier, and
/// refuses every other shape before it writes anything.
pub struct Serializer<'a> {
    pub schema: &'a Schema,
    pub document_store: &'a mut RamDocumentStore,
    pub document_fields_counts: &'a mut FieldsCounts,
    pub indexer: &'a mut RawIndexer,
    pub ranked_map: &'a mut RankedMap,
    pub document_id: DocumentId,
}

impl<'a> Serializer<'a> {
    /// What the destinations hold now.
    pub open spec fn destinations(&self) -> Destinations {
        holding(
            &*self.document_store,
            &*self.document_fields_counts,
            &*self.indexer,
            &*self.ranked_map,
        )
    }

    /// Refuses a boolean.
    pub fn serialize_bool(self, _v: bool) -> (result: Result<(), SerializerError>)
        ensures
            result == refused("bool"),
            holding(
                final(self.document_store),
                final(self.document_fields_counts),
                final(self.indexer),
                final(self.ranked_map),
            ) == self.destinations(),
    {
        Err(SerializerError::UnserializableType { shape: "bool" })
    }

    /// Refuses a character.
    pub fn serialize_char(self, _v: char) -> (result: Result<(), SerializerError>)
        ensures
            result == refused("char"),
            holding(
                final(self.document_store),
                final(self.document_fields_counts),
                final(self.indexer),
                final(self.ranked_map),
            ) == self.destinations(),
    {
        Err(SerializerError::UnserializableType { shape: "char" })
    }

    /// Refuses an `i8`.
    pub fn serialize_i8(self, _v: i8) -> (result: Result<(), SerializerError>)
        ensures
            result == refused("i8"),
            holding(
                final(self.document_store),
                final(self.document_fields_counts),
                final(self.indexer),
                final(self.ranked_map),
            ) == self.destinations(),
    {
        Err(SerializerError::UnserializableType { shape: "i8" })
    }

    /// Refuses an `i16`.
    pub fn serialize_i16(self, _v: i16) -> (result: Result<(), SerializerError>)
        ensures
            result == refused("i16"),
            holding(
                final(self.document_store),
                final(self.document_fields_counts),
                final(self.indexer),
                final(self.ranked_map),
            ) == self.destinations(),
    {
        Err(SerializerError::UnserializableType { shape: "i16" })
    }

    /// Refuses an `i32`.
    pub fn serialize_i32(self, _v: i32) -> (result: Result<(), SerializerError>)
        ensures
            result == refused("i32"),
            holding(
                final(self.document_store),
                final(self.document_fields_counts),
                final(self.indexer),
                final(self.ranked_map),
            ) == self.destinations(),
    {
        Err(SerializerError::UnserializableType { shape: "i32" })
    }

    /// Refuses an `i64`.
    pub fn serialize_i64(self, _v: i64) -> (result: Result<(), SerializerError>)
        ensures
            result == refused("i64"),
            holding(
                final(self.document_store),
                final(self.document_fields_counts),
                final(self.indexer),
                final(self.ranked_map),
            ) == self.destinations(),
    {
        Err(SerializerError::UnserializableType { shape: "i64" })
    }

    /// Refuses a `u8`.
    pub fn serialize_u8(self, _v: u8) -> (result: Result<(), SerializerError>)
        ensures
            result == refused("u8"),
            holding(
                final(self.document_store),
                final(self.document_fields_counts),
                final(self.indexer),
                final(self.ranked_map),
            ) == self.destinations(),
    {
        Err(SerializerError::UnserializableType { shape: "u8" })
    }

    /// Refuses a `u16`.
    pub fn serialize_u16(self, _v: u16) -> (result: Result<(), SerializerError>)
        ensures
            result == refused("u16"),
            holding(
                final(self.document_store),
                final(self.document_fields_counts),
                final(self.indexer),
                final(self.ranked_map),
            ) == self.destinations(),
    {
        Err(SerializerError::UnserializableType { shape: "u16" })
    }

    /// Refuses a `u32`.
    pub fn serialize_u32(self, _v: u32) -> (result: Result<(), SerializerError>)
        ensures
            result == refused("u32"),
            holding(
                final(self.document_store),
                final(self.document_fields_counts),
                final(self.indexer),
                final(self.ranked_map),
            ) == self.destinations(),
    {
        Err(SerializerError::UnserializableType { shape: "u32" })
    }

    /// Refuses a `u64`.
    pub fn serialize_u64(self, _v: u64) -> (result: Result<(), SerializerError>)
        ensures
            result == refused("u64"),
            holding(
                final(self.document_store),
                final(self.document_fields_counts),
                final(self.indexer),
                final(self.ranked_map),
            ) == self.destinations(),
    {
        Err(SerializerError::UnserializableType { shape: "u64" })
    }

    /// Refuses a single-precision number, given by its bit pattern.
    pub fn serialize_f32(self, _bits: u32) -> (result: Result<(), SerializerError>)
        ensures
            result == refused("f32"),
            holding(
                final(self.document_store),
                final(self.document_fields_counts),
                final(self.indexer),
                final(self.ranked_map),
            ) == self.destinations(),
    {
        Err(SerializerError::UnserializableType { shape: "f32" })
    }

    /// Refuses a double, given by its bit pattern.
    pub fn serialize_f64(self, _bits: u64) -> (result: Result<(), SerializerError>)
        ensures
            result == refused("f64"),
            holding(
                final(self.document_store),
                final(self.document_fields_counts),
                final(self.indexer),
                final(self.ranked_map),
            ) == self.destinations(),
    {
        Err(SerializerError::UnserializableType { shape: "f64" })
    }

    /// Refuses a string.
    pub fn serialize_str(self, _v: &str) -> (result: Result<(), SerializerError>)
        ensures
            result == refused("str"),
            holding(
                final(self.document_store),
                final(self.document_fields_counts),
                final(self.indexer),
                final(self.ranked_map),
            ) == self.destinations(),
    {
        Err(SerializerError::UnserializableType { shape: "str" })
    }

    /// Refuses a byte string.
    pub fn serialize_bytes(self, _v: &[u8]) -> (result: Result<(), SerializerError>)
        ensures
            result == refused("&[u8]"),
            holding(
                final(self.document_store),
                final(self.document_fields_counts),
                final(self.indexer),
                final(self.ranked_map),
            ) == self.destinations(),
    {
        Err(SerializerError::UnserializableType { shape: "&[u8]" })
    }

    /// Refuses an absent value.
    pub fn serialize_none(self) -> (result: Result<(), SerializerError>)
        ensures
            result == refused("Option"),
            holding(
                final(self.document_store),
                final(self.document_fields_counts),
                final(self.indexer),
                final(self.ranked_map),
            ) == self.destinations(),
    {
        Err(SerializerError::UnserializableType { shape: "Option" })
    }

    /// Refuses an optional value that is present, whatever it is.
    pub fn serialize_some(self) -> (result: Result<(), SerializerError>)
        ensures
            result == refused("Option"),
            holding(
                final(self.document_store),
                final(self.document_fields_counts),
                final(self.indexer),
                final(self.ranked_map),
            ) == self.destinations(),
    {
        Err(SerializerError::UnserializableType { shape: "Option" })
    }

    /// Refuses the unit value.
    pub fn serialize_unit(self) -> (result: Result<(), SerializerError>)
        ensures
            result == refused("()"),
            holding(
                final(self.document_store),
                final(self.document_fields_counts),
                final(self.indexer),
                final(self.ranked_map),
            ) == self.destinations(),
    {
        Err(SerializerError::UnserializableType { shape: "()" })
    }

    /// Refuses a struct without fields.
    pub fn serialize_unit_struct(self, _name: &'static str) -> (result: Result<(), SerializerError>)
        ensures
            result == refused("unit struct"),
            holding(
                final(self.document_store),
                final(self.document_fields_counts),
                final(self.indexer),
                final(self.ranked_map),
            ) == self.destinations(),
    {
        Err(SerializerError::UnserializableType { shape: "unit struct" })
    }

    /// Refuses an enum variant without fields.
    pub fn serialize_unit_variant(self,
        _name: &'static str,
        _variant_index: u32,
        _variant: &'static str,
    ) -> (result: Result<(), SerializerError>)
        ensures
            result == refused("unit variant"),
            holding(
                final(self.document_store),
                final(self.document_fields_counts),
                final(self.indexer),
                final(self.ranked_map),
            ) == self.destinations(),
    {
        Err(SerializerError::UnserializableType { shape: "unit variant" })
    }

    /// Takes in what a newtype struct wraps, as if the struct were not
    /// there.
    pub fn serialize_newtype_struct(self, _name: &'static str, value: &Document) -> (result: Result<
        (),
        SerializerError,
    >)
        ensures
            result == document_outcome(self.schema, value),
            holding(
                final(self.document_store),
                final(self.document_fields_counts),
                final(self.indexer),
                final(self.ranked_map),
            ) == document_effect(self.schema, self.destinations(), self.document_id, value),
        decreases value, 2nat,
    {
        value.serialize(self)
    }

    /// Refuses an enum variant that wraps a value, whatever the value is.
    pub fn serialize_newtype_variant(self,
        _name: &'static str,
        _variant_index: u32,
        _variant: &'static str,
    ) -> (result: Result<(), SerializerError>)
        ensures
            result == refused("newtype variant"),
            holding(
                final(self.document_store),
                final(self.document_fields_counts),
                final(self.indexer),
                final(self.ranked_map),
            ) == self.destinations(),
    {
        Err(SerializerError::UnserializableType { shape: "newtype variant" })
    }

    /// Refuses a sequence.
    pub fn serialize_seq(self, _len: Option<usize>) -> (result: Result<(), SerializerError>)
        ensures
            result == refused("sequence"),
            holding(
                final(self.document_store),
                final(self.document_fields_counts),
                final(self.indexer),
                final(self.ranked_map),
            ) == self.destinations(),
    {
        Err(SerializerError::UnserializableType { shape: "sequence" })
    }

    /// Refuses a tuple.
    pub fn serialize_tuple(self, _len: usize) -> (result: Result<(), SerializerError>)
        ensures
            result == refused("tuple"),
            holding(
                final(self.document_store),
                final(self.document_fields_counts),
                final(self.indexer),
                final(self.ranked_map),
            ) == self.destinations(),
    {
        Err(SerializerError::UnserializableType { shape: "tuple" })
    }

    /// Refuses a tuple struct.
    pub fn serialize_tuple_struct(self, _name: &'static str, _len: usize) -> (result: Result<(), SerializerError>)
        ensures
            result == refused("tuple struct"),
            holding(
                final(self.document_store),
                final(self.document_fields_counts),
                final(self.indexer),
                final(self.ranked_map),
            ) == self.destinations(),
    {
        Err(SerializerError::UnserializableType { shape: "tuple struct" })
    }

    /// Refuses a tuple variant of an enum.
    pub fn serialize_tuple_variant(self,
        _name: &'static str,
        _variant_index: u32,
        _variant: &'static str,
        _len: usize,
    ) -> (result: Result<(), SerializerError>)
        ensures
            result == refused("tuple variant"),
            holding(
                final(self.document_store),
                final(self.document_fields_counts),
                final(self.indexer),
                final(self.ranked_map),
            ) == self.destinations(),
    {
        Err(SerializerError::UnserializableType { shape: "tuple variant" })
    }

    /// Begins a map-shaped document: its entries go to the serializer
    /// that is returned, which writes to the same destinations.
    pub fn serialize_map(self, _len: Option<usize>) -> (result: Result<
        MapSerializer<'a>,
        SerializerError,
    >)
        ensures
            result matches Ok(map) && {
                &&& map.schema == self.schema
                &&& map.document_id == self.document_id
                &&& map.current_key_name is None
                &&& map.destinations() == self.destinations()
                &&& holding(
                    final(map.document_store),
                    final(map.document_fields_counts),
                    final(map.indexer),
                    final(map.ranked_map),
                ) == holding(
                    final(self.document_store),
                    final(self.document_fields_counts),
                    final(self.indexer),
                    final(self.ranked_map),
                )
            },
    {
        Ok(
            MapSerializer {
                schema: self.schema,
                document_id: self.document_id,
                document_store: self.document_store,
                document_fields_counts: self.document_fields_counts,
                indexer: self.indexer,
                ranked_map: self.ranked_map,
                current_key_name: None,
            },
        )
    }

    /// Begins a struct-shaped document: its fields go to the serializer
    /// that is returned, which writes to the same destinations.
    pub fn serialize_struct(self, _name: &'static str, _len: usize) -> (result: Result<
        StructSerializer<'a>,
        SerializerError,
    >)
        ensures
            result matches Ok(fields) && {
                &&& fields.schema == self.schema
                &&& fields.document_id == self.document_id
                &&& fields.destinations() == self.destinations()
                &&& holding(
                    final(fields.document_store),
                    final(fields.document_fields_counts),
                    final(fields.indexer),
                    final(fields.ranked_map),
                ) == holding(
                    final(self.document_store),
                    final(self.document_fields_counts),
                    final(self.indexer),
                    final(self.ranked_map),
                )
            },
    {
        Ok(
            StructSerializer {
                schema: self.schema,
                document_id: self.document_id,
                document_store: self.document_store,
                document_fields_counts: self.document_fields_counts,
                indexer: self.indexer,
                ranked_map: self.ranked_map,
            },
        )
    }

    /// Refuses a struct variant of an enum.
    pub fn serialize_struct_variant(self,
        _name: &'static str,
        _variant_index: u32,
        _variant: &'static str,
        _len: usize,
    ) -> (result: Result<(), SerializerError>)
        ensures
            result == refused("struct variant"),
            holding(
                final(self.document_store),
                final(self.document_fields_counts),
                final(self.indexer),
                final(self.ranked_map),
            ) == self.destinations(),
    {
        Err(SerializerError::UnserializableType { shape: "struct variant" })
    }
}

/// Takes in the entries of a map-shaped document: each key with its value
/// at once, or a key and then its value.
pub struct MapSerializer<'a> {
    pub schema: &'a Schema,
    pub document_id: DocumentId,
    pub document_store: &'a mut RamDocumentStore,
    pub document_fields_counts: &'a mut FieldsCounts,
    pub indexer: &'a mut RawIndexer,
    pub ranked_map: &'a mut RankedMap,
    /// The key that waits for its value, if one does.
    pub current_key_name: Option<String>,
}

/// Takes in the fields of a struct-shaped document.
pub struct StructSerializer<'a> {
    pub schema: &'a Schema,
    pub document_id: DocumentId,
    pub document_store: &'a mut RamDocumentStore,
    pub document_fields_counts: &'a mut FieldsCounts,
    pub indexer: &'a mut RawIndexer,
    pub ranked_map: &'a mut RankedMap,
}

impl<'a> MapSerializer<'a> {
    /// What the destinations hold now.
    pub open spec fn destinations(&self) -> Destinations {
        holding(
            &*self.document_store,
            &*self.document_fields_counts,
            &*self.indexer,
            &*self.ranked_map,
        )
    }

    /// Takes the key of the next entry, which then waits for its value.
    ///
    /// A key that is no string is refused. A key that comes while another
    /// waits for its value breaks the order of keys and values. Either way
    /// nothing changes.
    pub fn serialize_key(&mut self, key: &Key) -> (result: Result<(), SerializerError>)
        ensures
            result == key_outcome(old(self).current_key_name, key),
            final(self).current_key_name == key_kept(old(self).current_key_name, key),
            final(self).destinations() == old(self).destinations(),
            final(self).schema == old(self).schema,
            final(self).document_id == old(self).document_id,
            holding(
                final(final(self).document_store),
                final(final(self).document_fields_counts),
                final(final(self).indexer),
                final(final(self).ranked_map),
            ) == holding(
                final(old(self).document_store),
                final(old(self).document_fields_counts),
                final(old(self).indexer),
                final(old(self).ranked_map),
            ),
    {
        match key {
            Key::Unserializable { shape } => Err(
                SerializerError::UnserializableType { shape: *shape },
            ),
            Key::Name(name) => {
                if self.current_key_name.is_some() {
                    return Err(SerializerError::ProtocolViolation);
                }
                self.current_key_name = Some(name.clone());
                Ok(())
            },
        }
    }

    /// Takes the value of the key that waits, and routes the two as one
    /// field. No key waits afterwards.
    ///
    /// A value that comes while no key waits breaks the order of keys and
    /// values: nothing is routed.
    pub fn serialize_value(&mut self, value: &FieldValue) -> (result: Result<(), SerializerError>)
        ensures
            result == value_outcome(old(self).schema, old(self).current_key_name, value),
            final(self).destinations() == value_effect(
                old(self).schema,
                old(self).destinations(),
                old(self).document_id,
                old(self).current_key_name,
                value,
            ),
            final(self).current_key_name is None,
            final(self).schema == old(self).schema,
            final(self).document_id == old(self).document_id,
            holding(
                final(final(self).document_store),
                final(final(self).document_fields_counts),
                final(final(self).indexer),
                final(final(self).ranked_map),
            ) == holding(
                final(old(self).document_store),
                final(old(self).document_fields_counts),
                final(old(self).indexer),
                final(old(self).ranked_map),
            ),
    {
        match self.current_key_name.take() {
            None => Err(SerializerError::ProtocolViolation),
            Some(key) => serialize_value(
                self.schema,
                self.document_id,
                self.document_store,
                self.document_fields_counts,
                self.indexer,
                self.ranked_map,
                key.as_str(),
                value,
            ),
        }
    }

    /// Takes a key and its value at once, and routes the two as one
    /// field. A key that waits for its value goes on waiting.
    pub fn serialize_entry(&mut self, key: &Key, value: &FieldValue) -> (result: Result<
        (),
        SerializerError,
    >)
        ensures
            result == entry_outcome(old(self).schema, (key.name(), *value)),
            final(self).destinations() == entry_effect(
                old(self).schema,
                old(self).destinations(),
                old(self).document_id,
                (key.name(), *value),
            ),
            final(self).current_key_name == old(self).current_key_name,
            final(self).schema == old(self).schema,
            final(self).document_id == old(self).document_id,
            holding(
                final(final(self).document_store),
                final(final(self).document_fields_counts),
                final(final(self).indexer),
                final(final(self).ranked_map),
            ) == holding(
                final(old(self).document_store),
                final(old(self).document_fields_counts),
                final(old(self).indexer),
                final(old(self).ranked_map),
            ),
    {
        let key = match key {
            Key::Unserializable { shape } => {
                return Err(SerializerError::UnserializableType { shape: *shape });
            },
            Key::Name(name) => name,
        };

        serialize_value(
            self.schema,
            self.document_id,
            self.document_store,
            self.document_fields_counts,
            self.indexer,
            self.ranked_map,
            key.as_str(),
            value,
        )
    }

    /// Ends the document. The destinations stay as the entries left them.
    pub fn end(self) -> (result: Result<(), SerializerError>)
        ensures
            result == Ok::<(), SerializerError>(()),
            holding(
                final(self.document_store),
                final(self.document_fields_counts),
                final(self.indexer),
                final(self.ranked_map),
            ) == self.destinations(),
    {
        Ok(())
    }
}

impl<'a> StructSerializer<'a> {
    /// What the destinations hold now.
    pub open spec fn destinations(&self) -> Destinations {
        holding(
            &*self.document_store,
            &*self.document_fields_counts,
            &*self.indexer,
            &*self.ranked_map,
        )
    }

    /// Takes one field of the struct, and routes it.
    pub fn serialize_field(&mut self, key: &'static str, value: &FieldValue) -> (result: Result<
        (),
        SerializerError,
    >)
        ensures
            result == field_outcome(old(self).schema, key@, value),
            final(self).destinations() == field_effect(
                old(self).schema,
                old(self).destinations(),
                old(self).document_id,
                key@,
                value,
            ),
            final(self).schema == old(self).schema,
            final(self).document_id == old(self).document_id,
            holding(
                final(final(self).document_store),
                final(final(self).document_fields_counts),
                final(final(self).indexer),
                final(final(self).ranked_map),
            ) == holding(
                final(old(self).document_store),
                final(old(self).document_fields_counts),
                final(old(self).indexer),
                final(old(self).ranked_map),
            ),
    {
        serialize_value(
            self.schema,
            self.document_id,
            self.document_store,
            self.document_fields_counts,
            self.indexer,
            self.ranked_map,
            key,
            value,
        )
    }

    /// Ends the document. The destinations stay as the fields left them.
    pub fn end(self) -> (result: Result<(), SerializerError>)
        ensures
            result == Ok::<(), SerializerError>(()),
            holding(
                final(self.document_store),
                final(self.document_fields_counts),
                final(self.indexer),
                final(self.ranked_map),
            ) == self.destinations(),
    {
        Ok(())
    }
}

impl Document {
    /// Takes the document in: hands it to `serializer` by its shape.
    ///
    /// The entries of a map and the fields of a struct are routed one
    /// after the other, until one fails. A newtype struct is taken in as
    /// what it wraps. A document of another shape is refused by the name
    /// of its shape, and the destinations stay as they are.
    #[verifier::loop_isolation(false)]
    pub fn serialize<'a>(&self, serializer: Serializer<'a>) -> (result: Result<(), SerializerError>)
        ensures
            result == document_outcome(serializer.schema, self),
            holding(
                final(serializer.document_store),
                final(serializer.document_fields_counts),
                final(serializer.indexer),
                final(serializer.ranked_map),
            ) == document_effect(
                serializer.schema,
                serializer.destinations(),
                serializer.document_id,
                self,
            ),
            !is_record(self) ==> result == refused(refused_shape(self)) && holding(
                final(serializer.document_store),
                final(serializer.document_fields_counts),
                final(serializer.indexer),
                final(serializer.ranked_map),
            ) == serializer.destinations(),
        decreases self, 1nat,
    {
        proof {
            if !is_record(self) {
                lemma_only_records_have_entries(self);
            }
        }
        match self {
            Document::Bool(v) => serializer.serialize_bool(*v),
            Document::Char(v) => serializer.serialize_char(*v),
            Document::I8(v) => serializer.serialize_i8(*v),
            Document::I16(v) => serializer.serialize_i16(*v),
            Document::I32(v) => serializer.serialize_i32(*v),
            Document::I64(v) => serializer.serialize_i64(*v),
            Document::U8(v) => serializer.serialize_u8(*v),
            Document::U16(v) => serializer.serialize_u16(*v),
            Document::U32(v) => serializer.serialize_u32(*v),
            Document::U64(v) => serializer.serialize_u64(*v),
            Document::F32(bits) => serializer.serialize_f32(*bits),
            Document::F64(bits) => serializer.serialize_f64(*bits),
            Document::Str(v) => serializer.serialize_str(v.as_str()),
            Document::Bytes(v) => serializer.serialize_bytes(v.as_slice()),
            Document::Option(None) => serializer.serialize_none(),
            Document::Option(Some(_)) => serializer.serialize_some(),
            Document::Unit => serializer.serialize_unit(),
            Document::UnitStruct { name } => serializer.serialize_unit_struct(name),
            Document::UnitVariant { name, variant_index, variant } => {
                serializer.serialize_unit_variant(name, *variant_index, variant)
            },
            Document::NewtypeStruct { name, value } => serializer.serialize_newtype_struct(
                name,
                value,
            ),
            Document::NewtypeVariant { name, variant_index, variant, .. } => {
                serializer.serialize_newtype_variant(name, *variant_index, variant)
            },
            Document::Sequence(items) => serializer.serialize_seq(Some(items.len())),
            Document::Tuple(items) => serializer.serialize_tuple(items.len()),
            Document::TupleStruct { name, fields } => serializer.serialize_tuple_struct(
                name,
                fields.len(),
            ),
            Document::TupleVariant { name, variant_index, variant, fields } => {
                serializer.serialize_tuple_variant(name, *variant_index, variant, fields.len())
            },
            Document::Mapping(entries) => {
                let ghost schema = serializer.schema;
                let ghost before = serializer.destinations();
                let ghost document_id = serializer.document_id;
                let ghost all = entries_of(entries@);
                let mut map = match serializer.serialize_map(Some(entries.len())) {
                    Ok(map) => map,
                    Err(failure) => {
                        return Err(failure);
                    },
                };
                let mut place: usize = 0;
                while place < entries.len()
                    invariant
                        place <= entries.len(),
                        all == entries_of(entries@),
                        map.schema == schema,
                        map.document_id == document_id,
                        entries_outcome(schema, all, place as nat) is Ok,
                        map.destinations() == entries_effect(
                            schema,
                            before,
                            document_id,
                            all,
                            place as nat,
                        ),
                        holding(
                            final(map.document_store),
                            final(map.document_fields_counts),
                            final(map.indexer),
                            final(map.ranked_map),
                        ) == holding(
                            final(serializer.document_store),
                            final(serializer.document_fields_counts),
                            final(serializer.indexer),
                            final(serializer.ranked_map),
                        ),
                    decreases entries.len() - place,
                {
                    let entry = &entries[place];
                    assert(all[place as int] == (entry.0.name(), entry.1));
                    if let Err(failure) = map.serialize_entry(&entry.0, &entry.1) {
                        proof {
                            assert(entries_outcome(schema, all, (place + 1) as nat) == Err::<
                                (),
                                SerializerError,
                            >(failure));
                            lemma_failure_ends_routing(
                                schema,
                                before,
                                document_id,
                                all,
                                (place + 1) as nat,
                                all.len(),
                            );
                        }
                        return Err(failure);
                    }
                    place += 1;
                }
                map.end()
            },
            Document::Struct { name, fields } => {
                let ghost schema = serializer.schema;
                let ghost before = serializer.destinations();
                let ghost document_id = serializer.document_id;
                let ghost all = fields_of(fields@);
                let mut record = match serializer.serialize_struct(name, fields.len()) {
                    Ok(record) => record,
                    Err(failure) => {
                        return Err(failure);
                    },
                };
                let mut place: usize = 0;
                while place < fields.len()
                    invariant
                        place <= fields.len(),
                        all == fields_of(fields@),
                        record.schema == schema,
                        record.document_id == document_id,
                        entries_outcome(schema, all, place as nat) is Ok,
                        record.destinations() == entries_effect(
                            schema,
                            before,
                            document_id,
                            all,
                            place as nat,
                        ),
                        holding(
                            final(record.document_store),
                            final(record.document_fields_counts),
                            final(record.indexer),
                            final(record.ranked_map),
                        ) == holding(
                            final(serializer.document_store),
                            final(serializer.document_fields_counts),
                            final(serializer.indexer),
                            final(serializer.ranked_map),
                        ),
                    decreases fields.len() - place,
                {
                    let field = &fields[place];
                    assert(all[place as int] == (
                        Ok::<Seq<char>, &'static str>(field.0@),
                        field.1,
                    ));
                    if let Err(failure) = record.serialize_field(field.0, &field.1) {
                        proof {
                            assert(entries_outcome(schema, all, (place + 1) as nat) == Err::<
                                (),
                                SerializerError,
                            >(failure));
                            lemma_failure_ends_routing(
                                schema,
                                before,
                                document_id,
                                all,
                                (place + 1) as nat,
                                all.len(),
                            );
                        }
                        return Err(failure);
                    }
                    place += 1;
                }
                record.end()
            },
            Document::StructVariant { name, variant_index, variant, fields } => {
                serializer.serialize_struct_variant(name, *variant_index, variant, fields.len())
            },
        }
    }
}

} // verus!
