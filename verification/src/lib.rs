//! Document ingestion for a full-text search index.
//!
//! A [`Schema`] declares the fields that documents may have and says, for
//! each, whether it is indexed for full-text search and whether it is
//! ranked. A [`Serializer`] takes one [`Document`] apart into its top-level
//! fields and fans each field that the schema declares out to its
//! destinations: the encoded bytes always to the [`RamDocumentStore`], the
//! words of an indexed field to the [`RawIndexer`] and their number to the
//! [`FieldsCounts`], the number of a ranked field to the [`RankedMap`].
//!
//! Only a map and a struct are documents with fields; every other shape is
//! refused before anything is written. A document is taken in field by
//! field and the first failure ends it: what was written before stays.
//!
//! The contracts are stated over [`Destinations`], what the four
//! structures hold, by the functions of [`routing`].

pub mod document;
pub mod document_store;
pub mod error;
pub mod field_map;
pub mod raw_indexer;
pub mod routing;
pub mod schema;
pub mod serializer;
pub mod types;

pub use crate::document::{Document, FieldValue, Key};
pub use crate::document_store::RamDocumentStore;
pub use crate::error::SerializerError;
pub use crate::field_map::{FieldMap, FieldsCounts, RankedMap};
pub use crate::raw_indexer::{IndexedField, RawIndexer};
pub use crate::routing::Destinations;
pub use crate::schema::Schema;
pub use crate::serializer::{serialize_value, MapSerializer, Serializer, StructSerializer};
pub use crate::types::{DocumentId, Number, SchemaAttr, SchemaProps};
