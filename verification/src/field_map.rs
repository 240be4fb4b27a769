use crate::types::{DocumentId, Number, SchemaAttr};
use std::collections::HashMap;
use vstd::prelude::*;
use vstd::relations::injective_on;
use vstd::set_lib::lemma_map_size;

verus! {

/// The number under which the field `attribute` of the document
/// `document_id` is kept: the document in the high bits, the attribute in
/// the low sixteen.
pub open spec fn slot_of(document_id: DocumentId, attribute: SchemaAttr) -> u128 {
    (document_id.0 * 0x1_0000 + attribute.0) as u128
}

/// Two fields share a slot only if they are the same field.
pub proof fn lemma_slot_injective(a: (DocumentId, SchemaAttr), b: (DocumentId, SchemaAttr))
    ensures
        slot_of(a.0, a.1) == slot_of(b.0, b.1) <==> a == b,
{
}

fn slot(document_id: DocumentId, attribute: SchemaAttr) -> (s: u128)
    ensures
        s == slot_of(document_id, attribute),
{
    (document_id.0 as u128) * 0x1_0000 + (attribute.0 as u128)
}

/// The field that is kept under the number `s`.
pub open spec fn field_of(s: u128) -> (DocumentId, SchemaAttr) {
    (DocumentId((s / 0x1_0000) as u64), SchemaAttr((s % 0x1_0000) as u16))
}

/// A table with one value at most for each field of each document.
pub struct FieldMap<V> {
    slots: HashMap<u128, V>,
}

/// The number of each ranked field, by which results can be sorted.
pub type RankedMap = FieldMap<Number>;

/// The number of words of each indexed field.
pub type FieldsCounts = FieldMap<u64>;

impl<V> View for FieldMap<V> {
    type V = Map<(DocumentId, SchemaAttr), V>;

    closed spec fn view(&self) -> Map<(DocumentId, SchemaAttr), V> {
        Map::new(
            |k: (DocumentId, SchemaAttr)| self.slots@.contains_key(slot_of(k.0, k.1)),
            |k: (DocumentId, SchemaAttr)| self.slots@[slot_of(k.0, k.1)],
        )
    }
}

impl<V> FieldMap<V> {
    /// Every number in use is the slot of a field.
    #[verifier::type_invariant]
    closed spec fn slots_are_fields(&self) -> bool {
        forall|s: u128| #[trigger]
            self.slots@.contains_key(s) ==> s == slot_of(field_of(s).0, field_of(s).1)
    }

    /// A table that holds nothing.
    pub fn new() -> (table: Self)
        ensures
            table@ == Map::<(DocumentId, SchemaAttr), V>::empty(),
    {
        let table = FieldMap { slots: HashMap::new() };
        assert(table@ =~= Map::<(DocumentId, SchemaAttr), V>::empty());
        table
    }

    /// Puts `value` at the field, in place of what was there.
    pub fn insert(&mut self, document_id: DocumentId, attribute: SchemaAttr, value: V)
        ensures
            final(self)@ == old(self)@.insert((document_id, attribute), value),
    {
        let s = slot(document_id, attribute);
        proof {
            use_type_invariant(&*self);
        }
        // The map is taken out while it changes, and an empty one stands
        // in for it: the invariant holds of the table all along.
        let mut slots = HashMap::new();
        std::mem::swap(&mut self.slots, &mut slots);
        slots.insert(s, value);
        assert(field_of(s) == (document_id, attribute));
        self.slots = slots;
        proof {
            assert forall|k: (DocumentId, SchemaAttr)|
                slot_of(k.0, k.1) == s <==> k == (document_id, attribute) by {
                lemma_slot_injective(k, (document_id, attribute));
            }
            assert(self@ =~= old(self)@.insert((document_id, attribute), value));
        }
    }

    /// The value at the field, if there is one.
    pub fn get(&self, document_id: DocumentId, attribute: SchemaAttr) -> (found: Option<&V>)
        ensures
            match found {
                Some(value) => self@.contains_key((document_id, attribute)) && *value
                    == self@[(document_id, attribute)],
                None => !self@.contains_key((document_id, attribute)),
            },
    {
        let s = slot(document_id, attribute);
        self.slots.get(&s)
    }

    /// The number of fields that have a value.
    pub fn len(&self) -> (n: usize)
        ensures
            self@.dom().finite(),
            n == self@.len(),
    {
        proof {
            use_type_invariant(self);
            let taken = self.slots@.dom();
            assert(taken.map(|s: u128| field_of(s)) =~= self@.dom()) by {
                assert forall|k: (DocumentId, SchemaAttr)| self@.dom().contains(k) implies taken.map(
                    |s: u128| field_of(s),
                ).contains(k) by {
                    assert(taken.contains(slot_of(k.0, k.1)));
                    assert(field_of(slot_of(k.0, k.1)) == k);
                }
            }
            assert(injective_on(|s: u128| field_of(s), taken));
            lemma_map_size(taken, self@.dom(), |s: u128| field_of(s));
        }
        self.slots.len()
    }
}

} // verus!
