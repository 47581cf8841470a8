use crate::document::{build_spec, pairs_view};
use crate::error::{DriverError, ErrorView};
use crate::object::{DynamicObject, ObjectView};
use crate::value::{Document, DocumentView};
use vstd::prelude::*;

verus! {

/// The mathematical content of [`IndexOptions`].
pub struct IndexOptionsView {
    pub name: Option<Seq<char>>,
    pub sparse: Option<bool>,
    pub unique: Option<bool>,
    pub default_language: Option<Seq<char>>,
    pub language_override: Option<Seq<char>>,
    pub weigths: Option<DocumentView>,
    pub bits: Option<u32>,
    pub max: Option<u64>,
    pub min: Option<u64>,
    pub bucket_size: Option<u32>,
    pub partial_filter_expression: Option<DocumentView>,
    pub wildcard_projection: Option<DocumentView>,
    pub hidden: Option<bool>,
}

/// The mathematical content of an [`IndexModel`].
pub struct IndexModelView {
    pub keys: DocumentView,
    pub options: Option<IndexOptionsView>,
}

/// The options of an index. Each one may be unset.
#[derive(Clone, Debug, PartialEq)]
pub struct IndexOptions {
    /// A name in place of the generated one.
    pub name: Option<String>,
    /// Whether the index only references documents that have the field.
    pub sparse: Option<bool>,
    /// Whether the collection refuses documents whose key value is in the
    /// index already.
    pub unique: Option<bool>,
    /// For text indexes, the language of the stop words and of the rules for
    /// stemming and tokenizing.
    pub default_language: Option<String>,
    /// For text indexes, the name of the field that holds a document's own
    /// language.
    pub language_override: Option<String>,
    /// For text indexes, a document of field and weight pairs.
    pub weigths: Option<Document>,
    /// For geospatial indexes, the precision of the stored geohash.
    pub bits: Option<u32>,
    /// For geospatial indexes, the upper inclusive bound of longitude and
    /// latitude, as the 64 bits of a double.
    pub max: Option<u64>,
    /// For geospatial indexes, the lower inclusive bound of longitude and
    /// latitude, as the 64 bits of a double.
    pub min: Option<u64>,
    /// For haystack indexes, the number of units within which location
    /// values are grouped.
    pub bucket_size: Option<u32>,
    /// A filter: the index only references the documents that match it.
    pub partial_filter_expression: Option<Document>,
    /// The field paths that a wildcard index includes or excludes.
    pub wildcard_projection: Option<Document>,
    /// Whether the index is hidden from the query planner.
    pub hidden: Option<bool>,
}

/// The description of an index: the key specification, which maps each
/// indexed field to its index type, in order, and the options.
#[derive(Clone, Debug, PartialEq)]
pub struct IndexModel {
    pub keys: Document,
    pub options: Option<IndexOptions>,
}

/// The content of an optional text.
pub open spec fn text_view(text: Option<String>) -> Option<Seq<char>> {
    match text {
        Some(text) => Some(text@),
        None => None,
    }
}

/// The content of an optional document.
pub open spec fn document_view(document: Option<Document>) -> Option<DocumentView> {
    match document {
        Some(document) => Some(document@),
        None => None,
    }
}

impl View for IndexOptions {
    type V = IndexOptionsView;

    open spec fn view(&self) -> IndexOptionsView {
        IndexOptionsView {
            name: text_view(self.name),
            sparse: self.sparse,
            unique: self.unique,
            default_language: text_view(self.default_language),
            language_override: text_view(self.language_override),
            weigths: document_view(self.weigths),
            bits: self.bits,
            max: self.max,
            min: self.min,
            bucket_size: self.bucket_size,
            partial_filter_expression: document_view(self.partial_filter_expression),
            wildcard_projection: document_view(self.wildcard_projection),
            hidden: self.hidden,
        }
    }
}

impl View for IndexModel {
    type V = IndexModelView;

    open spec fn view(&self) -> IndexModelView {
        IndexModelView {
            keys: self.keys@,
            options: match self.options {
                Some(options) => Some(options@),
                None => None,
            },
        }
    }
}

/// Copies an optional text: an unset one stays unset.
fn copy_text(text: &Option<String>) -> (copy: Option<String>)
    ensures
        text_view(copy) == text_view(*text),
{
    match text {
        Some(text) => Some(text.clone()),
        None => None,
    }
}

/// Copies an optional document: an unset one stays unset.
fn copy_document(document: &Option<Document>) -> (copy: Option<Document>)
    ensures
        document_view(copy) == document_view(*document),
{
    match document {
        Some(document) => Some(document.copy()),
        None => None,
    }
}

impl IndexOptions {
    /// The options with the given settings, each as it is given.
    pub fn new(
        name: Option<String>,
        sparse: Option<bool>,
        unique: Option<bool>,
        default_language: Option<String>,
        language_override: Option<String>,
        weigths: Option<Document>,
        bits: Option<u32>,
        max: Option<u64>,
        min: Option<u64>,
        bucket_size: Option<u32>,
        partial_filter_expression: Option<Document>,
        wildcard_projection: Option<Document>,
        hidden: Option<bool>,
    ) -> (options: IndexOptions)
        ensures
            options == (IndexOptions {
                name,
                sparse,
                unique,
                default_language,
                language_override,
                weigths,
                bits,
                max,
                min,
                bucket_size,
                partial_filter_expression,
                wildcard_projection,
                hidden,
            }),
    {
        IndexOptions {
            name,
            sparse,
            unique,
            default_language,
            language_override,
            weigths,
            bits,
            max,
            min,
            bucket_size,
            partial_filter_expression,
            wildcard_projection,
            hidden,
        }
    }

    /// A deep copy of the options.
    pub fn copy(&self) -> (copy: IndexOptions)
        ensures
            copy@ == self@,
    {
        IndexOptions {
            name: copy_text(&self.name),
            sparse: self.sparse,
            unique: self.unique,
            default_language: copy_text(&self.default_language),
            language_override: copy_text(&self.language_override),
            weigths: copy_document(&self.weigths),
            bits: self.bits,
            max: self.max,
            min: self.min,
            bucket_size: self.bucket_size,
            partial_filter_expression: copy_document(&self.partial_filter_expression),
            wildcard_projection: copy_document(&self.wildcard_projection),
            hidden: self.hidden,
        }
    }
}

impl IndexModel {
    /// The description of an index from a mapping of field names to index
    /// types and from options. The key specification is built as a document
    /// is: one entry that cannot be written fails the whole construction.
    pub fn new(keys: Vec<(DynamicObject, DynamicObject)>, options: Option<IndexOptions>) -> (result:
        Result<IndexModel, DriverError>)
        ensures
            match result {
                Ok(model) => build_spec(Seq::empty(), pairs_view(keys@)) == Ok::<
                    DocumentView,
                    ErrorView,
                >(model.keys@) && model.options == options,
                Err(error) => build_spec(Seq::empty(), pairs_view(keys@)) == Err::<
                    DocumentView,
                    ErrorView,
                >(error@),
            },
    {
        let ghost pairs = pairs_view(keys@);
        assert(pairs + Seq::<(ObjectView, ObjectView)>::empty() =~= pairs);
        match Document::new(Some(keys), None) {
            Ok(keys) => Ok(IndexModel { keys, options }),
            Err(error) => Err(error),
        }
    }

    /// A deep copy of the description.
    pub fn copy(&self) -> (copy: IndexModel)
        ensures
            copy@ == self@,
    {
        IndexModel {
            keys: self.keys.copy(),
            options: match &self.options {
                Some(options) => Some(options.copy()),
                None => None,
            },
        }
    }
}

} // verus!
