use crate::field_map::FieldMap;
use crate::types::{DocumentId, SchemaAttr};
use vstd::prelude::*;

verus! {

/// The stored fields of the documents: for each field of each document,
/// the bytes that its value was encoded to.
pub struct RamDocumentStore {
    fields: FieldMap<Vec<u8>>,
}

impl View for RamDocumentStore {
    type V = Map<(DocumentId, SchemaAttr), Seq<u8>>;

    closed spec fn view(&self) -> Map<(DocumentId, SchemaAttr), Seq<u8>> {
        self.fields@.map_values(|bytes: Vec<u8>| bytes@)
    }
}

impl RamDocumentStore {
    /// A store that holds no field.
    pub fn new() -> (store: Self)
        ensures
            store@ == Map::<(DocumentId, SchemaAttr), Seq<u8>>::empty(),
    {
        let store = RamDocumentStore { fields: FieldMap::new() };
        assert(store@ =~= Map::<(DocumentId, SchemaAttr), Seq<u8>>::empty());
        store
    }

    /// Stores `value` as the field `attribute` of the document
    /// `document_id`, in place of what was stored there.
    pub fn set_document_field(
        &mut self,
        document_id: DocumentId,
        attribute: SchemaAttr,
        value: Vec<u8>,
    )
        ensures
            final(self)@ == old(self)@.insert((document_id, attribute), value@),
    {
        self.fields.insert(document_id, attribute, value);
        assert(self@ =~= old(self)@.insert((document_id, attribute), value@));
    }

    /// The bytes stored as the field `attribute` of the document
    /// `document_id`, if any are.
    pub fn document_field(&self, document_id: DocumentId, attribute: SchemaAttr) -> (found: Option<
        &Vec<u8>,
    >)
        ensures
            match found {
                Some(bytes) => self@.contains_key((document_id, attribute)) && bytes@
                    == self@[(document_id, attribute)],
                None => !self@.contains_key((document_id, attribute)),
            },
    {
        self.fields.get(document_id, attribute)
    }

    /// The number of stored fields.
    pub fn len(&self) -> (n: usize)
        ensures
            self@.dom().finite(),
            n == self@.len(),
    {
        assert(self@.dom() =~= self.fields@.dom());
        self.fields.len()
    }
}

} // verus!
