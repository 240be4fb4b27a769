use crate::document::{Document, FieldValue, Key};
use crate::document_store::RamDocumentStore;
use crate::error::SerializerError;
use crate::field_map::{FieldsCounts, RankedMap};
use crate::raw_indexer::{words_counted, words_recorded, IndexedWords, RawIndexer};
use crate::schema::Schema;
use crate::types::{DocumentId, Number, SchemaAttr, SchemaProps};
use vstd::prelude::*;

verus! {

/// What the four destination structures hold.
pub struct Destinations {
    /// The document store: the encoded bytes of each stored field.
    pub store: Map<(DocumentId, SchemaAttr), Seq<u8>>,
    /// The field counts: the number of words of each indexed field.
    pub counts: Map<(DocumentId, SchemaAttr), u64>,
    /// The word index: the indexed fields with their words.
    pub index: Seq<IndexedWords>,
    /// The ranked map: the number of each ranked field.
    pub ranked: Map<(DocumentId, SchemaAttr), Number>,
}

/// What the four structures hold together.
pub open spec fn holding(
    document_store: &RamDocumentStore,
    document_fields_counts: &FieldsCounts,
    indexer: &RawIndexer,
    ranked_map: &RankedMap,
) -> Destinations {
    Destinations {
        store: document_store@,
        counts: document_fields_counts@,
        index: indexer@,
        ranked: ranked_map@,
    }
}

/// The destinations once `bytes` are stored at the field `at`.
pub open spec fn stored(before: Destinations, at: (DocumentId, SchemaAttr), bytes: Seq<u8>)
    -> Destinations {
    Destinations { store: before.store.insert(at, bytes), ..before }
}

/// The destinations once `words` are indexed as the field `at`: the index
/// records them and the field counts get their number, unless there is no
/// word.
pub open spec fn indexed(before: Destinations, at: (DocumentId, SchemaAttr), words: Seq<String>)
    -> Destinations {
    Destinations {
        index: words_recorded(before.index, at.0, at.1, words),
        counts: match words_counted(words) {
            Some(number_of_words) => before.counts.insert(at, number_of_words),
            None => before.counts,
        },
        ..before
    }
}

/// The destinations once `number` ranks the field `at`.
pub open spec fn ranked(before: Destinations, at: (DocumentId, SchemaAttr), number: Number)
    -> Destinations {
    Destinations { ranked: before.ranked.insert(at, number), ..before }
}

/// How the routing of `value` ends, for a field that the schema declares
/// with `props`: with the first refusal among those of the byte encoder,
/// of the word indexer if the field is indexed, and of the number
/// conversion if it is ranked.
pub open spec fn declared_outcome(props: SchemaProps, value: &FieldValue) -> Result<
    (),
    SerializerError,
> {
    if value.encoded is Err {
        Err(SerializerError::EncodeFailure { reason: value.encoded->Err_0 })
    } else if props.indexed && value.words is Err {
        Err(SerializerError::IndexFailure { reason: value.words->Err_0 })
    } else if props.ranked && value.number is Err {
        Err(SerializerError::NumberConversionFailure { reason: value.number->Err_0 })
    } else {
        Ok(())
    }
}

/// What the destinations hold after the routing of `value` to the field
/// `at`, which the schema declares with `props`. The bytes are stored
/// first; then the words are indexed, if the field is indexed; then the
/// number is ranked, if the field is ranked. What a step has written stays
/// when a later step is refused, and no step follows a refusal.
pub open spec fn declared_effect(
    before: Destinations,
    at: (DocumentId, SchemaAttr),
    props: SchemaProps,
    value: &FieldValue,
) -> Destinations {
    match value.encoded {
        Err(_) => before,
        Ok(bytes) => {
            let kept = stored(before, at, bytes@);
            if !props.indexed {
                rank_effect(kept, at, props, value)
            } else {
                match value.words {
                    Err(_) => kept,
                    Ok(words) => rank_effect(indexed(kept, at, words@), at, props, value),
                }
            }
        },
    }
}

/// The last step of the routing: the number of a ranked field goes to the
/// ranked map.
pub open spec fn rank_effect(
    before: Destinations,
    at: (DocumentId, SchemaAttr),
    props: SchemaProps,
    value: &FieldValue,
) -> Destinations {
    if !props.ranked {
        before
    } else {
        match value.number {
            Err(_) => before,
            Ok(number) => ranked(before, at, number),
        }
    }
}

/// How the routing of the field `name` ends. A field that the schema does
/// not declare is passed over, which is no failure.
pub open spec fn field_outcome(schema: &Schema, name: Seq<char>, value: &FieldValue) -> Result<
    (),
    SerializerError,
> {
    match schema.spec_attribute(name) {
        None => Ok(()),
        Some(attribute) => declared_outcome(schema.spec_props(attribute), value),
    }
}

/// What the destinations hold after the routing of the field `name` of the
/// document `document_id`.
pub open spec fn field_effect(
    schema: &Schema,
    before: Destinations,
    document_id: DocumentId,
    name: Seq<char>,
    value: &FieldValue,
) -> Destinations {
    match schema.spec_attribute(name) {
        None => before,
        Some(attribute) => declared_effect(
            before,
            (document_id, attribute),
            schema.spec_props(attribute),
            value,
        ),
    }
}

/// A field as a document presents it: its name, or for a key that is no
/// string the name of the key's shape, and its value.
pub type Entry = (Result<Seq<char>, &'static str>, FieldValue);

/// How the routing of one entry ends: a key that is no string is refused,
/// before anything is done with the value.
pub open spec fn entry_outcome(schema: &Schema, entry: Entry) -> Result<(), SerializerError> {
    match entry.0 {
        Err(shape) => Err(SerializerError::UnserializableType { shape }),
        Ok(name) => field_outcome(schema, name, &entry.1),
    }
}

/// What the destinations hold after the routing of one entry.
pub open spec fn entry_effect(
    schema: &Schema,
    before: Destinations,
    document_id: DocumentId,
    entry: Entry,
) -> Destinations {
    match entry.0 {
        Err(_) => before,
        Ok(name) => field_effect(schema, before, document_id, name, &entry.1),
    }
}

/// How the routing of the first `n` of `entries` ends, one after the other:
/// with the first failure among them.
pub open spec fn entries_outcome(schema: &Schema, entries: Seq<Entry>, n: nat) -> Result<
    (),
    SerializerError,
>
    decreases n,
{
    if n == 0 {
        Ok(())
    } else {
        match entries_outcome(schema, entries, (n - 1) as nat) {
            Err(failure) => Err(failure),
            Ok(_) => entry_outcome(schema, entries[n - 1]),
        }
    }
}

/// What the destinations hold after the routing of the first `n` of
/// `entries`, one after the other: no entry is routed after one that
/// failed.
pub open spec fn entries_effect(
    schema: &Schema,
    before: Destinations,
    document_id: DocumentId,
    entries: Seq<Entry>,
    n: nat,
) -> Destinations
    decreases n,
{
    if n == 0 {
        before
    } else {
        let so_far = entries_effect(schema, before, document_id, entries, (n - 1) as nat);
        if entries_outcome(schema, entries, (n - 1) as nat) is Err {
            so_far
        } else {
            entry_effect(schema, so_far, document_id, entries[n - 1])
        }
    }
}

/// The entries of a map-shaped document.
pub open spec fn entries_of(entries: Seq<(Key, FieldValue)>) -> Seq<Entry> {
    entries.map_values(|entry: (Key, FieldValue)| (entry.0.name(), entry.1))
}

/// The fields of a struct-shaped document, as entries.
pub open spec fn fields_of(fields: Seq<(&'static str, FieldValue)>) -> Seq<Entry> {
    fields.map_values(
        |field: (&'static str, FieldValue)| (Ok::<Seq<char>, &'static str>(field.0@), field.1),
    )
}

/// The entries that a document presents. A newtype struct presents those
/// of what it wraps; a document of another shape than a map or a struct
/// has none.
pub open spec fn document_entries(document: &Document) -> Seq<Entry>
    decreases document,
{
    match *document {
        Document::Mapping(entries) => entries_of(entries@),
        Document::Struct { fields, .. } => fields_of(fields@),
        Document::NewtypeStruct { value, .. } => document_entries(&*value),
        _ => Seq::empty(),
    }
}

/// Whether the document can be taken in: it is a map or a struct, wrapped
/// or not in newtype structs.
pub open spec fn is_record(document: &Document) -> bool
    decreases document,
{
    match *document {
        Document::Mapping(_) => true,
        Document::Struct { .. } => true,
        Document::NewtypeStruct { value, .. } => is_record(&*value),
        _ => false,
    }
}

/// The name of the shape that a document is refused for: that of the
/// document, or of what it wraps.
pub open spec fn refused_shape(document: &Document) -> &'static str
    decreases document,
{
    match *document {
        Document::NewtypeStruct { value, .. } => refused_shape(&*value),
        _ => document.shape(),
    }
}

/// How the routing of a document ends. A document that is no record is
/// refused by the name of its shape; a record ends as its entries do.
pub open spec fn document_outcome(schema: &Schema, document: &Document) -> Result<
    (),
    SerializerError,
> {
    if is_record(document) {
        let entries = document_entries(document);
        entries_outcome(schema, entries, entries.len())
    } else {
        Err(SerializerError::UnserializableType { shape: refused_shape(document) })
    }
}

/// What the destinations hold after the routing of a document. A document
/// that is no record leaves them as they are.
pub open spec fn document_effect(
    schema: &Schema,
    before: Destinations,
    document_id: DocumentId,
    document: &Document,
) -> Destinations {
    let entries = document_entries(document);
    entries_effect(schema, before, document_id, entries, entries.len())
}

/// A document that is no record presents no entry.
pub proof fn lemma_only_records_have_entries(document: &Document)
    requires
        !is_record(document),
    ensures
        document_entries(document) == Seq::<Entry>::empty(),
    decreases document,
{
    match *document {
        Document::NewtypeStruct { value, .. } => {
            lemma_only_records_have_entries(&*value);
        },
        _ => {},
    }
}

/// Once an entry has failed, no later entry changes how the routing ends
/// or what the destinations hold.
pub proof fn lemma_failure_ends_routing(
    schema: &Schema,
    before: Destinations,
    document_id: DocumentId,
    entries: Seq<Entry>,
    n: nat,
    m: nat,
)
    requires
        n <= m,
        entries_outcome(schema, entries, n) is Err,
    ensures
        entries_outcome(schema, entries, m) == entries_outcome(schema, entries, n),
        entries_effect(schema, before, document_id, entries, m) == entries_effect(
            schema,
            before,
            document_id,
            entries,
            n,
        ),
    decreases m,
{
    if n < m {
        lemma_failure_ends_routing(schema, before, document_id, entries, n, (m - 1) as nat);
    }
}

/// Whether `after` holds all that `before` holds: every field that had an
/// entry has one, and the word index has grown at its end only.
pub open spec fn grown_from(after: Destinations, before: Destinations) -> bool {
    &&& before.store.dom().subset_of(after.store.dom())
    &&& before.counts.dom().subset_of(after.counts.dom())
    &&& before.ranked.dom().subset_of(after.ranked.dom())
    &&& before.index.is_prefix_of(after.index)
}

/// The routing of a field takes nothing away from the destinations.
pub proof fn lemma_field_only_adds(
    schema: &Schema,
    before: Destinations,
    document_id: DocumentId,
    name: Seq<char>,
    value: &FieldValue,
)
    ensures
        grown_from(field_effect(schema, before, document_id, name, value), before),
{
}

/// The routing of entries, one after the other, takes nothing away from
/// the destinations, whether it fails or not.
pub proof fn lemma_entries_only_add(
    schema: &Schema,
    before: Destinations,
    document_id: DocumentId,
    entries: Seq<Entry>,
    n: nat,
)
    ensures
        grown_from(entries_effect(schema, before, document_id, entries, n), before),
    decreases n,
{
    if n > 0 {
        let so_far = entries_effect(schema, before, document_id, entries, (n - 1) as nat);
        lemma_entries_only_add(schema, before, document_id, entries, (n - 1) as nat);
        if let Ok(name) = entries[n - 1].0 {
            lemma_field_only_adds(schema, so_far, document_id, name, &entries[n - 1].1);
        }
    }
}

/// Last write wins: when a field is routed a second time for one
/// document, the document store holds for it what the second routing
/// stored, whatever the first did, and the entry that the first made is
/// the one that the second fills. The same holds of the ranked map, for a
/// ranked field whose second routing comes to its end.
pub proof fn lemma_last_write_wins(
    schema: &Schema,
    before: Destinations,
    document_id: DocumentId,
    name: Seq<char>,
    first: &FieldValue,
    second: &FieldValue,
)
    requires
        schema.spec_attribute(name) is Some,
        second.encoded is Ok,
    ensures
        ({
            let at = (document_id, schema.spec_attribute(name)->Some_0);
            let once = field_effect(schema, before, document_id, name, first);
            let twice = field_effect(schema, once, document_id, name, second);
            &&& twice.store == before.store.insert(at, second.encoded->Ok_0@)
            &&& first.encoded is Ok ==> twice.store.dom() == once.store.dom()
            &&& schema.spec_props(at.1).ranked && field_outcome(schema, name, second) is Ok ==> {
                &&& twice.ranked == before.ranked.insert(at, second.number->Ok_0)
                &&& field_outcome(schema, name, first) is Ok ==> twice.ranked.dom()
                    == once.ranked.dom()
            }
        }),
{
    let at = (document_id, schema.spec_attribute(name)->Some_0);
    let once = field_effect(schema, before, document_id, name, first);
    let twice = field_effect(schema, once, document_id, name, second);
    assert(twice.store =~= before.store.insert(at, second.encoded->Ok_0@));
    if first.encoded is Ok {
        assert(twice.store.dom() =~= once.store.dom());
    }
    if schema.spec_props(at.1).ranked && field_outcome(schema, name, second) is Ok {
        assert(twice.ranked =~= before.ranked.insert(at, second.number->Ok_0));
        if field_outcome(schema, name, first) is Ok {
            assert(twice.ranked.dom() =~= once.ranked.dom());
        }
    }
}

} // verus!
