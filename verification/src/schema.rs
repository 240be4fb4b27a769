use crate::types::{SchemaAttr, SchemaProps};
use vstd::prelude::*;

verus! {

/// The most attributes that a schema can declare: one for each handle.
pub const MAX_ATTRIBUTES: usize = 0x1_0000;

/// The names of the declared fields, in the order of their handles.
pub open spec fn names_of(fields: Seq<(Seq<char>, SchemaProps)>) -> Seq<Seq<char>> {
    fields.map_values(|field: (Seq<char>, SchemaProps)| field.0)
}

/// The handle of the field `name` among `fields`, if it is declared: the
/// place of its declaration.
pub open spec fn attribute_in(fields: Seq<(Seq<char>, SchemaProps)>, name: Seq<char>) -> Option<
    SchemaAttr,
> {
    match names_of(fields).index_of_first(name) {
        Some(place) => Some(SchemaAttr(place as u16)),
        None => None,
    }
}

/// What a lookup finds once a field with a new name is declared after
/// `fields`: the new field at the end, and every other as before.
proof fn lemma_declared_last(
    fields: Seq<(Seq<char>, SchemaProps)>,
    name: Seq<char>,
    props: SchemaProps,
)
    requires
        attribute_in(fields, name) is None,
        fields.len() < MAX_ATTRIBUTES,
    ensures
        attribute_in(fields.push((name, props)), name) == Some(SchemaAttr(fields.len() as u16)),
        forall|other: Seq<char>|
            other != name ==> #[trigger] attribute_in(fields.push((name, props)), other)
                == attribute_in(fields, other),
{
    let longer = fields.push((name, props));
    assert(names_of(longer) =~= names_of(fields).push(name));
    names_of(fields).index_of_first_ensures(name);
    names_of(longer).index_of_first_ensures(name);
    assert(names_of(longer)[fields.len() as int] == name);
    assert forall|other: Seq<char>| other != name implies #[trigger] attribute_in(longer, other)
        == attribute_in(fields, other) by {
        names_of(fields).index_of_first_ensures(other);
        names_of(longer).index_of_first_ensures(other);
        match names_of(fields).index_of_first(other) {
            Some(place) => {
                assert(names_of(longer)[place] == other);
            },
            None => {
                if names_of(longer).index_of_first(other) is Some {
                    let place = names_of(longer).index_of_first(other)->Some_0;
                    assert(names_of(fields)[place] == other);
                }
            },
        }
    }
}

/// The fields that documents may have, each with what is asked for it.
pub struct Schema {
    fields: Vec<(String, SchemaProps)>,
}

impl View for Schema {
    type V = Seq<(Seq<char>, SchemaProps)>;

    closed spec fn view(&self) -> Seq<(Seq<char>, SchemaProps)> {
        self.fields@.map_values(|field: (String, SchemaProps)| (field.0@, field.1))
    }
}

impl Schema {
    /// Every field has a handle, and no name is declared twice.
    #[verifier::type_invariant]
    closed spec fn well_formed(&self) -> bool {
        &&& self.fields.len() <= MAX_ATTRIBUTES
        &&& names_of(self@).no_duplicates()
    }

    /// The handle of the field `name`, if the schema declares it.
    pub open spec fn spec_attribute(&self, name: Seq<char>) -> Option<SchemaAttr> {
        attribute_in(self@, name)
    }

    /// Whether `attribute` is the handle of a declared field.
    pub open spec fn declares(&self, attribute: SchemaAttr) -> bool {
        (attribute.0 as int) < self@.len()
    }

    /// What the schema asks for the field with the handle `attribute`.
    pub open spec fn spec_props(&self, attribute: SchemaAttr) -> SchemaProps {
        self@[attribute.0 as int].1
    }

    /// A schema that declares no field.
    pub fn new() -> (schema: Self)
        ensures
            schema@ == Seq::<(Seq<char>, SchemaProps)>::empty(),
            forall|name: Seq<char>| #[trigger] schema.spec_attribute(name) is None,
    {
        let schema = Schema { fields: Vec::new() };
        assert(schema@ =~= Seq::<(Seq<char>, SchemaProps)>::empty());
        assert forall|name: Seq<char>| #[trigger] schema.spec_attribute(name) is None by {
            names_of(schema@).index_of_first_ensures(name);
        }
        schema
    }

    /// The number of declared fields.
    pub fn len(&self) -> (n: usize)
        ensures
            n == self@.len(),
            n <= MAX_ATTRIBUTES,
    {
        proof {
            use_type_invariant(self);
        }
        self.fields.len()
    }

    /// Looks the field `name` up.
    pub fn attribute(&self, name: &str) -> (found: Option<SchemaAttr>)
        ensures
            found == self.spec_attribute(name@),
            found matches Some(attribute) ==> self.declares(attribute),
    {
        proof {
            use_type_invariant(self);
        }
        let wanted = name.to_owned();
        let ghost names = names_of(self@);
        let mut place: usize = 0;
        while place < self.fields.len()
            invariant
                place <= self.fields.len() <= MAX_ATTRIBUTES,
                wanted@ == name@,
                names == names_of(self@),
                forall|i: int| 0 <= i < place ==> names[i] != name@,
            decreases self.fields.len() - place,
        {
            if self.fields[place].0 == wanted {
                proof {
                    assert(names[place as int] == name@);
                    names.index_of_first_ensures(name@);
                }
                return Some(SchemaAttr(place as u16));
            }
            place += 1;
        }
        proof {
            names.index_of_first_ensures(name@);
        }
        None
    }

    /// What the schema asks for the field with the handle `attribute`.
    pub fn props(&self, attribute: SchemaAttr) -> (props: SchemaProps)
        requires
            self.declares(attribute),
        ensures
            props == self.spec_props(attribute),
    {
        self.fields[attribute.0 as usize].1
    }

    /// Declares the field `name`, unless the name is declared already or
    /// no handle is left. The new field's handle is the number of fields
    /// declared before it.
    pub fn new_attribute(&mut self, name: &str, props: SchemaProps) -> (declared: Option<
        SchemaAttr,
    >)
        ensures
            old(self).spec_attribute(name@) is None && old(self)@.len() < MAX_ATTRIBUTES ==> {
                &&& declared == Some(SchemaAttr(old(self)@.len() as u16))
                &&& final(self)@ == old(self)@.push((name@, props))
                &&& final(self).spec_attribute(name@) == declared
                &&& final(self).spec_props(declared->Some_0) == props
                &&& forall|other: Seq<char>|
                    other != name@ ==> #[trigger] final(self).spec_attribute(other) == old(
                        self,
                    ).spec_attribute(other)
                &&& forall|attribute: SchemaAttr| #[trigger]
                    old(self).declares(attribute) ==> final(self).spec_props(attribute) == old(
                        self,
                    ).spec_props(attribute)
            },
            old(self).spec_attribute(name@) is Some || old(self)@.len() >= MAX_ATTRIBUTES ==> {
                &&& declared is None
                &&& final(self)@ == old(self)@
            },
    {
        proof {
            use_type_invariant(&*self);
        }
        let full = self.fields.len() >= MAX_ATTRIBUTES;
        let taken = self.attribute(name);
        if full || taken.is_some() {
            return None;
        }
        let handle = SchemaAttr(self.fields.len() as u16);
        // The list is taken out while it grows, and an empty one stands in
        // for it: the invariant holds of the schema all along.
        let mut fields = Vec::new();
        std::mem::swap(&mut self.fields, &mut fields);
        fields.push((name.to_owned(), props));
        proof {
            let before = old(self)@;
            let after = fields@.map_values(|field: (String, SchemaProps)| (field.0@, field.1));
            assert(after =~= before.push((name@, props)));
            assert(names_of(after) =~= names_of(before).push(name@));
            names_of(before).index_of_first_ensures(name@);
            assert(names_of(after).no_duplicates());
            lemma_declared_last(before, name@, props);
        }
        self.fields = fields;
        Some(handle)
    }
}

} // verus!
