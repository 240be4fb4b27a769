use crate::types::{DocumentId, SchemaAttr};
use vstd::prelude::*;

verus! {

/// The words of one field of one document, in the order they were found.
pub struct IndexedField {
    pub document_id: DocumentId,
    pub attribute: SchemaAttr,
    pub words: Vec<String>,
}

/// What the index holds of one field: the field, and its words as text.
pub struct IndexedWords {
    pub document_id: DocumentId,
    pub attribute: SchemaAttr,
    pub words: Seq<Seq<char>>,
}

/// The text of each word.
pub open spec fn words_of(words: Seq<String>) -> Seq<Seq<char>> {
    words.map_values(|word: String| word@)
}

impl View for IndexedField {
    type V = IndexedWords;

    open spec fn view(&self) -> IndexedWords {
        IndexedWords {
            document_id: self.document_id,
            attribute: self.attribute,
            words: words_of(self.words@),
        }
    }
}

/// The word index: the fields that were indexed, each with its words, in
/// the order they came.
pub struct RawIndexer {
    fields: Vec<IndexedField>,
}

impl View for RawIndexer {
    type V = Seq<IndexedWords>;

    closed spec fn view(&self) -> Seq<IndexedWords> {
        self.fields@.map_values(|field: IndexedField| field@)
    }
}

/// The number of words that the index reports for a field: none where the
/// field has no word.
pub open spec fn words_counted(words: Seq<String>) -> Option<u64> {
    if words.len() == 0 {
        None
    } else {
        Some(words.len() as u64)
    }
}

/// What the index holds once the words of a field are recorded in
/// `before`: the same and, where the field has a word, the field after it.
pub open spec fn words_recorded(
    before: Seq<IndexedWords>,
    document_id: DocumentId,
    attribute: SchemaAttr,
    words: Seq<String>,
) -> Seq<IndexedWords> {
    if words.len() == 0 {
        before
    } else {
        before.push(IndexedWords { document_id, attribute, words: words_of(words) })
    }
}

impl RawIndexer {
    /// An index that holds no word.
    pub fn new() -> (indexer: Self)
        ensures
            indexer@ == Seq::<IndexedWords>::empty(),
    {
        let indexer = RawIndexer { fields: Vec::new() };
        assert(indexer@ =~= Seq::<IndexedWords>::empty());
        indexer
    }

    /// Records `words` as the words of the field `attribute` of the
    /// document `document_id`, and gives their number. A field without
    /// words is not recorded, and has no number.
    pub fn index_words(
        &mut self,
        document_id: DocumentId,
        attribute: SchemaAttr,
        words: &Vec<String>,
    ) -> (number_of_words: Option<u64>)
        ensures
            number_of_words == words_counted(words@),
            final(self)@ == words_recorded(old(self)@, document_id, attribute, words@),
    {
        if words.len() == 0 {
            return None;
        }
        let kept = words.clone();
        assert(kept@ =~= words@);
        self.fields.push(IndexedField { document_id, attribute, words: kept });
        assert(self@ =~= words_recorded(old(self)@, document_id, attribute, words@));
        Some(words.len() as u64)
    }

    /// The number of fields that were recorded.
    pub fn len(&self) -> (n: usize)
        ensures
            n == self@.len(),
    {
        self.fields.len()
    }

    /// The field that was recorded at `place`, counting from zero.
    pub fn field(&self, place: usize) -> (found: Option<&IndexedField>)
        ensures
            place < self@.len() ==> (found matches Some(field) && field@ == self@[place as int]),
            place >= self@.len() ==> found is None,
    {
        if place < self.fields.len() {
            Some(&self.fields[place])
        } else {
            None
        }
    }
}

} // verus!
