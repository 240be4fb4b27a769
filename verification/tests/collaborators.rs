use meilidb_core::{
    DocumentId, FieldMap, Number, RamDocumentStore, RankedMap, RawIndexer, Schema, SchemaAttr,
    SchemaProps,
};

const PLAIN: SchemaProps = SchemaProps { indexed: false, ranked: false };

#[test]
fn schema_hands_out_handles_in_order() {
    let mut schema = Schema::new();
    assert_eq!(schema.len(), 0);
    assert_eq!(schema.attribute("title"), None);
    let indexed = SchemaProps { indexed: true, ranked: false };
    let ranked = SchemaProps { indexed: false, ranked: true };
    assert_eq!(schema.new_attribute("title", indexed), Some(SchemaAttr(0)));
    assert_eq!(schema.new_attribute("price", ranked), Some(SchemaAttr(1)));
    assert_eq!(schema.new_attribute("tags", PLAIN), Some(SchemaAttr(2)));
    assert_eq!(schema.len(), 3);
    assert_eq!(schema.attribute("title"), Some(SchemaAttr(0)));
    assert_eq!(schema.attribute("price"), Some(SchemaAttr(1)));
    assert_eq!(schema.attribute("tags"), Some(SchemaAttr(2)));
    assert_eq!(schema.attribute("Title"), None);
    assert_eq!(schema.attribute(""), None);
    assert_eq!(schema.props(SchemaAttr(0)), indexed);
    assert_eq!(schema.props(SchemaAttr(1)), ranked);
    assert_eq!(schema.props(SchemaAttr(2)), PLAIN);
}

#[test]
fn schema_declares_a_name_once() {
    let mut schema = Schema::new();
    let both = SchemaProps { indexed: true, ranked: true };
    assert_eq!(schema.new_attribute("title", PLAIN), Some(SchemaAttr(0)));
    assert_eq!(schema.new_attribute("title", both), None);
    assert_eq!(schema.len(), 1);
    assert_eq!(schema.props(SchemaAttr(0)), PLAIN);
    assert_eq!(schema.new_attribute("", both), Some(SchemaAttr(1)));
    assert_eq!(schema.attribute(""), Some(SchemaAttr(1)));
}

#[test]
fn schema_has_no_more_fields_than_handles() {
    let mut schema = Schema::new();
    for number in 0..0x1_0000u32 {
        let name = format!("field{}", number);
        assert_eq!(schema.new_attribute(&name, PLAIN), Some(SchemaAttr(number as u16)));
    }
    assert_eq!(schema.len(), 0x1_0000);
    assert_eq!(schema.new_attribute("one too many", PLAIN), None);
    assert_eq!(schema.len(), 0x1_0000);
    assert_eq!(schema.attribute("field65535"), Some(SchemaAttr(0xffff)));
    assert_eq!(schema.attribute("one too many"), None);
}

#[test]
fn field_map_keeps_one_value_for_each_field() {
    let mut map: FieldMap<u64> = FieldMap::new();
    assert_eq!(map.len(), 0);
    assert_eq!(map.get(DocumentId(1), SchemaAttr(2)), None);
    map.insert(DocumentId(1), SchemaAttr(2), 10);
    map.insert(DocumentId(2), SchemaAttr(1), 20);
    map.insert(DocumentId(1), SchemaAttr(2), 30);
    assert_eq!(map.len(), 2);
    assert_eq!(map.get(DocumentId(1), SchemaAttr(2)), Some(&30));
    assert_eq!(map.get(DocumentId(2), SchemaAttr(1)), Some(&20));
    assert_eq!(map.get(DocumentId(2), SchemaAttr(2)), None);
}

#[test]
fn field_map_tells_the_largest_fields_apart() {
    let mut map: RankedMap = FieldMap::new();
    map.insert(DocumentId(u64::MAX), SchemaAttr(u16::MAX), Number::Signed(-1));
    map.insert(DocumentId(u64::MAX), SchemaAttr(0), Number::Unsigned(2));
    map.insert(DocumentId(0), SchemaAttr(u16::MAX), Number::Float(0.5f64.to_bits()));
    map.insert(DocumentId(1), SchemaAttr(0), Number::Unsigned(4));
    map.insert(DocumentId(0), SchemaAttr(0), Number::Unsigned(5));
    assert_eq!(map.len(), 5);
    assert_eq!(map.get(DocumentId(u64::MAX), SchemaAttr(u16::MAX)), Some(&Number::Signed(-1)));
    assert_eq!(map.get(DocumentId(u64::MAX), SchemaAttr(0)), Some(&Number::Unsigned(2)));
    assert_eq!(
        map.get(DocumentId(0), SchemaAttr(u16::MAX)),
        Some(&Number::Float(0.5f64.to_bits()))
    );
    assert_eq!(map.get(DocumentId(1), SchemaAttr(0)), Some(&Number::Unsigned(4)));
    assert_eq!(map.get(DocumentId(0), SchemaAttr(0)), Some(&Number::Unsigned(5)));
    assert_eq!(map.get(DocumentId(0), SchemaAttr(1)), None);
}

#[test]
fn document_store_overwrites_a_field() {
    let mut store = RamDocumentStore::new();
    assert_eq!(store.len(), 0);
    store.set_document_field(DocumentId(7), SchemaAttr(0), b"\"red shoes\"".to_vec());
    store.set_document_field(DocumentId(7), SchemaAttr(1), b"19.99".to_vec());
    store.set_document_field(DocumentId(7), SchemaAttr(0), b"\"blue shoes\"".to_vec());
    assert_eq!(store.len(), 2);
    assert_eq!(
        store.document_field(DocumentId(7), SchemaAttr(0)),
        Some(&b"\"blue shoes\"".to_vec())
    );
    assert_eq!(store.document_field(DocumentId(7), SchemaAttr(1)), Some(&b"19.99".to_vec()));
    assert_eq!(store.document_field(DocumentId(8), SchemaAttr(0)), None);
}

#[test]
fn indexer_records_words_and_counts_them() {
    let mut indexer = RawIndexer::new();
    let shoes = vec!["red".to_string(), "shoes".to_string()];
    assert_eq!(indexer.index_words(DocumentId(7), SchemaAttr(0), &shoes), Some(2));
    assert_eq!(indexer.index_words(DocumentId(7), SchemaAttr(1), &vec![]), None);
    assert_eq!(indexer.index_words(DocumentId(8), SchemaAttr(0), &vec!["hat".to_string()]), Some(1));
    assert_eq!(indexer.len(), 2);
    let first = indexer.field(0).unwrap();
    assert_eq!(first.document_id, DocumentId(7));
    assert_eq!(first.attribute, SchemaAttr(0));
    assert_eq!(first.words, shoes);
    let second = indexer.field(1).unwrap();
    assert_eq!(second.document_id, DocumentId(8));
    assert_eq!(second.attribute, SchemaAttr(0));
    assert_eq!(second.words, vec!["hat".to_string()]);
    assert!(indexer.field(2).is_none());
}
