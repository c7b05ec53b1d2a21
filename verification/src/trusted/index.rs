use tantivy::schema::Value;
use vstd::prelude::*;

verus! {

/// `tantivy::schema::SchemaBuilder`: a schema in the making.
#[verifier::external_type_specification]
#[verifier::external_body]
pub struct ExSchemaBuilder(tantivy::schema::SchemaBuilder);

/// `tantivy::schema::Schema`: the fields of an index.
#[verifier::external_type_specification]
#[verifier::external_body]
pub struct ExSchema(tantivy::schema::Schema);

/// A `tantivy::IndexWriter` for documents of the type
/// `tantivy::TantivyDocument`, on an index of its own. The writer is generic
/// over a trait of its crate, so it is kept behind this struct.
#[verifier::external_body]
pub struct DocumentWriter {
    inner: tantivy::IndexWriter<tantivy::TantivyDocument>,
}

/// `tantivy::TantivyDocument`: the field values of one document.
#[verifier::external_type_specification]
#[verifier::external_body]
pub struct ExDocument(tantivy::TantivyDocument);

/// `tantivy::Searcher`: one immutable snapshot of an index.
#[verifier::external_type_specification]
#[verifier::external_body]
pub struct ExSearcher(tantivy::Searcher);

/// `tantivy::TantivyError`.
#[verifier::external_type_specification]
#[verifier::external_body]
pub struct ExTantivyError(tantivy::TantivyError);

/// `tantivy::query::QueryParserError`.
#[verifier::external_type_specification]
#[verifier::external_body]
pub struct ExQueryParserError(tantivy::query::QueryParserError);

/// How a text field of the index is kept.
pub enum FieldKind {
    /// Kept as it is, to be read back; not searched.
    Stored,
    /// Cut into words and searched; not read back.
    Text,
}

/// Why a query gave no hits.
pub enum QueryFault {
    /// The term is no query: the parser refused it.
    Parse(tantivy::query::QueryParserError),
    /// The query was understood and the search failed.
    Search(tantivy::TantivyError),
}

/// The fields that were added to the builder, in the order in which they
/// were added, each with its name and how it is kept. The handle of a field
/// is its position here.
pub uninterp spec fn builder_fields(builder: tantivy::schema::SchemaBuilder) -> Seq<
    (Seq<char>, FieldKind),
>;

/// The fields of the schema, each at the position that is its handle.
pub uninterp spec fn schema_fields(schema: tantivy::schema::Schema) -> Seq<(Seq<char>, FieldKind)>;

/// The fields of the schema of the index that the writer writes to.
pub uninterp spec fn writer_fields(writer: DocumentWriter) -> Seq<(Seq<char>, FieldKind)>;

/// The documents that the writer has taken since it was opened, in the
/// order in which they were handed to it, each as its values.
pub uninterp spec fn writer_documents(writer: DocumentWriter) -> Seq<
    Seq<(u32, Option<Seq<char>>)>,
>;

/// How many of the documents that the writer has taken are committed: the
/// first so many of them.
pub uninterp spec fn writer_committed(writer: DocumentWriter) -> nat;

/// The fields of the schema of the index that the snapshot was taken of.
pub uninterp spec fn searcher_fields(searcher: tantivy::Searcher) -> Seq<(Seq<char>, FieldKind)>;

/// The documents of the snapshot, each as the values it was indexed with,
/// under its address: segment ordinal and position within the segment.
pub uninterp spec fn searcher_documents(searcher: tantivy::Searcher) -> Map<
    (u32, u32),
    Seq<(u32, Option<Seq<char>>)>,
>;

/// The values of the document in their order, each with the handle of its
/// field: the text of a text value, `None` for a value of another type.
pub uninterp spec fn document_values(document: tantivy::TantivyDocument) -> Seq<
    (u32, Option<Seq<char>>),
>;

/// Whether the query parser of an index with the given fields and default
/// fields accepts the term as a query.
pub uninterp spec fn accepted_query(
    fields: Seq<(Seq<char>, FieldKind)>,
    default_fields: Seq<u32>,
    term: Seq<char>,
) -> bool;

/// The addresses of the documents that score best for the query that the
/// term is parsed to, best first and at most `limit` of them, in a snapshot
/// of the given fields and documents.
pub uninterp spec fn ranked_hits(
    fields: Seq<(Seq<char>, FieldKind)>,
    documents: Map<(u32, u32), Seq<(u32, Option<Seq<char>>)>>,
    default_fields: Seq<u32>,
    term: Seq<char>,
    limit: nat,
) -> Seq<(u32, u32)>;

/// The names of the fields, in the order of their handles.
pub open spec fn field_names(fields: Seq<(Seq<char>, FieldKind)>) -> Seq<Seq<char>> {
    fields.map_values(|field: (Seq<char>, FieldKind)| field.0)
}

/// The handle is that of a field that is kept to be read back.
pub open spec fn is_stored(fields: Seq<(Seq<char>, FieldKind)>, field: u32) -> bool {
    field < fields.len() && fields[field as int].1 is Stored
}

/// The values of a document that can be read back from an index: those of
/// the fields that are kept, in their order.
pub open spec fn stored_values(
    fields: Seq<(Seq<char>, FieldKind)>,
    values: Seq<(u32, Option<Seq<char>>)>,
) -> Seq<(u32, Option<Seq<char>>)> {
    values.filter(|value: (u32, Option<Seq<char>>)| is_stored(fields, value.0))
}

/// The values that were handed out for a document, as mathematical values.
pub open spec fn value_views(values: Seq<(u32, Option<String>)>) -> Seq<(u32, Option<Seq<char>>)> {
    values.map_values(
        |value: (u32, Option<String>)|
            (
                value.0,
                match value.1 {
                    Some(text) => Some(text@),
                    None => None,
                },
            ),
    )
}

/// Every value of the document is a text.
pub open spec fn all_text(values: Seq<(u32, Option<Seq<char>>)>) -> bool {
    forall|i: int| 0 <= i < values.len() ==> (#[trigger] values[i]).1 is Some
}

/// The bytes that a text takes in a document, at most: its UTF-8 form
/// behind its length, which takes up to five bytes.
pub open spec fn stored_len(text: Seq<char>) -> nat {
    vstd::utf8::encode_utf8(text).len() + 5
}

/// The bytes that the texts among the values take in a document, at most.
pub open spec fn stored_size(values: Seq<(u32, Option<Seq<char>>)>) -> nat
    decreases values.len(),
{
    if values.len() == 0 {
        0
    } else {
        stored_size(values.drop_last()) + match values.last().1 {
            Some(text) => stored_len(text),
            None => 0,
        }
    }
}

/// A name that a field may have: not empty and not starting with a hyphen.
pub open spec fn is_field_name(name: Seq<char>) -> bool {
    name.len() > 0 && name[0] != '-'
}

/// `Schema::builder`: a builder without fields.
#[verifier::external_body]
pub(crate) fn schema_builder() -> (builder: tantivy::schema::SchemaBuilder)
    ensures
        builder_fields(builder).len() == 0,
{
    tantivy::schema::Schema::builder()
}

/// `SchemaBuilder::add_text_field`, with the options `STORED` or `TEXT`:
/// the field is added behind those that are there, and its handle is the
/// number of fields before it. The builder panics on a name that is no
/// field name and on one that it holds already.
#[verifier::external_body]
pub(crate) fn add_text_field(
    builder: &mut tantivy::schema::SchemaBuilder,
    name: &str,
    kind: FieldKind,
) -> (field: u32)
    requires
        is_field_name(name@),
        !field_names(builder_fields(*old(builder))).contains(name@),
    ensures
        builder_fields(*final(builder)) == builder_fields(*old(builder)).push((name@, kind)),
        field == builder_fields(*old(builder)).len(),
{
    match kind {
        FieldKind::Stored => builder.add_text_field(name, tantivy::schema::STORED).field_id(),
        FieldKind::Text => builder.add_text_field(name, tantivy::schema::TEXT).field_id(),
    }
}

/// `SchemaBuilder::build`: the schema of the fields of the builder.
#[verifier::external_body]
pub(crate) fn build_schema(
    builder: tantivy::schema::SchemaBuilder,
) -> (schema: tantivy::schema::Schema)
    ensures
        schema_fields(schema) == builder_fields(builder),
{
    builder.build()
}

/// `Schema::get_field`: the handle of the field of that name, or an error
/// where the schema has no such field.
#[verifier::external_body]
pub(crate) fn get_field(
    schema: &tantivy::schema::Schema,
    name: &str,
) -> (found: Result<u32, tantivy::TantivyError>)
    ensures
        match found {
            Ok(field) => field < schema_fields(*schema).len() && schema_fields(
                *schema,
            )[field as int].0 == name@,
            Err(_) => !field_names(schema_fields(*schema)).contains(name@),
        },
{
    match schema.get_field(name) {
        Ok(field) => Ok(field.field_id()),
        Err(fault) => Err(fault),
    }
}

/// `Index::create_in_ram` under a copy of the schema, and
/// `Index::writer_with_num_threads` on that index: a writer on a new, empty
/// index in memory, with the given number of indexing threads and memory
/// budget in bytes, or the reason why none could be opened. The budget is
/// divided by the number of threads.
#[verifier::external_body]
pub(crate) fn create_writer(
    schema: &tantivy::schema::Schema,
    threads: usize,
    memory_budget: usize,
) -> (opened: Result<DocumentWriter, tantivy::TantivyError>)
    requires
        threads > 0,
    ensures
        opened matches Ok(writer) ==> writer_fields(writer) == schema_fields(*schema)
            && writer_documents(writer).len() == 0 && writer_committed(writer) == 0,
{
    let index = tantivy::Index::create_in_ram(schema.clone());
    match index.writer_with_num_threads(threads, memory_budget) {
        Ok(inner) => Ok(DocumentWriter { inner }),
        Err(fault) => Err(fault),
    }
}

/// `TantivyDocument::default`: a document without values.
#[verifier::external_body]
pub(crate) fn new_document() -> (document: tantivy::TantivyDocument)
    ensures
        document_values(document).len() == 0,
{
    tantivy::TantivyDocument::default()
}

/// `TantivyDocument::add_text`: adds the text as a value of the field,
/// behind the values that are there. The document panics on a handle above
/// 65535. It keeps its texts in one buffer and the place of each value as a
/// 32-bit offset into it, so the value is what was added only while the
/// buffer stays below that range.
#[verifier::external_body]
pub(crate) fn add_text(document: &mut tantivy::TantivyDocument, field: u32, text: &str)
    requires
        field <= 0xFFFF,
        all_text(document_values(*old(document))),
        stored_size(document_values(*old(document))) + stored_len(text@) <= 0xFFFF_FFFF,
    ensures
        document_values(*final(document)) == document_values(*old(document)).push(
            (field, Some(text@)),
        ),
{
    document.add_text(tantivy::schema::Field::from_field_id(field), text)
}

/// `IndexWriter::add_document`: hands the document to the writer, which
/// takes it or reports a fault. Nothing is committed by this.
#[verifier::external_body]
pub(crate) fn add_document(
    writer: &mut DocumentWriter,
    document: tantivy::TantivyDocument,
) -> (added: Result<(), tantivy::TantivyError>)
    ensures
        writer_fields(*final(writer)) == writer_fields(*old(writer)),
        writer_committed(*final(writer)) == writer_committed(*old(writer)),
        match added {
            Ok(_) => writer_documents(*final(writer)) == writer_documents(*old(writer)).push(
                document_values(document),
            ),
            Err(_) => writer_documents(*final(writer)) == writer_documents(*old(writer)),
        },
{
    match writer.inner.add_document(document) {
        Ok(_) => Ok(()),
        Err(fault) => Err(fault),
    }
}

/// `IndexWriter::commit`: publishes the documents that the writer has
/// taken. Where it succeeds, all of them are committed.
#[verifier::external_body]
pub(crate) fn commit(writer: &mut DocumentWriter) -> (committed: Result<(), tantivy::TantivyError>)
    ensures
        writer_fields(*final(writer)) == writer_fields(*old(writer)),
        writer_documents(*final(writer)) == writer_documents(*old(writer)),
        committed is Ok ==> writer_committed(*final(writer)) == writer_documents(
            *old(writer),
        ).len(),
{
    match writer.inner.commit() {
        Ok(_) => Ok(()),
        Err(fault) => Err(fault),
    }
}

/// `Index::reader_builder` on the index of the writer,
/// `IndexReaderBuilder::reload_policy` with `ReloadPolicy::Manual`,
/// `IndexReaderBuilder::try_into` and `IndexReader::searcher`: a snapshot
/// of the index as it is committed. Its documents are the committed ones,
/// each under some address.
#[verifier::external_body]
pub(crate) fn open_searcher(
    writer: &DocumentWriter,
) -> (opened: Result<tantivy::Searcher, tantivy::TantivyError>)
    ensures
        opened matches Ok(snapshot) ==> searcher_fields(snapshot) == writer_fields(*writer)
            && searcher_documents(snapshot).values() == writer_documents(*writer).take(
            writer_committed(*writer) as int,
        ).to_set(),
{
    let builder = writer.inner.index().reader_builder();
    match builder.reload_policy(tantivy::ReloadPolicy::Manual).try_into() {
        Ok(reader) => Ok(tantivy::IndexReader::searcher(&reader)),
        Err(fault) => Err(fault),
    }
}

/// `QueryParser::for_index` on the index of the snapshot with the given
/// default fields, `QueryParser::parse_query` on the term, and
/// `Searcher::search` with `TopDocs::with_limit(limit).order_by_score()`:
/// the addresses of the best hits, best first, at most `limit` of them and
/// each the address of a document of the snapshot. Whether the parser
/// accepts the term, and which hits rank best, depends on the snapshot, the
/// fields and the term alone. The collector panics on a limit of 0, the
/// parser on a default field that the schema lacks.
#[verifier::external_body]
pub(crate) fn top_hits(
    snapshot: &tantivy::Searcher,
    default_fields: &Vec<u32>,
    term: &str,
    limit: usize,
) -> (found: Result<Vec<(u32, u32)>, QueryFault>)
    requires
        limit > 0,
        forall|i: int|
            0 <= i < default_fields@.len() ==> (#[trigger] default_fields@[i]) < searcher_fields(
                *snapshot,
            ).len(),
    ensures
        found is Err && found->Err_0 is Parse <==> !accepted_query(
            searcher_fields(*snapshot),
            default_fields@,
            term@,
        ),
        found matches Ok(hits) ==> hits@ == ranked_hits(
            searcher_fields(*snapshot),
            searcher_documents(*snapshot),
            default_fields@,
            term@,
            limit as nat,
        ) && hits@.len() <= limit && forall|i: int|
            0 <= i < hits@.len() ==> searcher_documents(*snapshot).dom().contains(
                #[trigger] hits@[i],
            ),
{
    let fields = default_fields.iter().map(|f| tantivy::schema::Field::from_field_id(*f)).collect();
    let parser = tantivy::query::QueryParser::for_index(snapshot.index(), fields);
    let query = match parser.parse_query(term) {
        Ok(query) => query,
        Err(fault) => return Err(QueryFault::Parse(fault)),
    };
    let collector = tantivy::collector::TopDocs::with_limit(limit).order_by_score();
    match snapshot.search(&query, &collector) {
        Ok(hits) => Ok(hits.into_iter().map(|(_, at)| (at.segment_ord, at.doc_id)).collect()),
        Err(fault) => Err(QueryFault::Search(fault)),
    }
}

/// `Searcher::doc`: the values of the document at an address of the
/// snapshot that can be read back, which are those of its stored fields in
/// their order. The searcher panics on a segment that it does not hold.
#[verifier::external_body]
pub(crate) fn fetch(
    snapshot: &tantivy::Searcher,
    address: (u32, u32),
) -> (fetched: Result<tantivy::TantivyDocument, tantivy::TantivyError>)
    requires
        searcher_documents(*snapshot).dom().contains(address),
    ensures
        fetched matches Ok(document) ==> document_values(document) == stored_values(
            searcher_fields(*snapshot),
            searcher_documents(*snapshot)[address],
        ),
{
    snapshot.doc(tantivy::DocAddress::new(address.0, address.1))
}

/// `TantivyDocument::field_values`, with `Value::as_str` on each value:
/// the values of the document in their order.
#[verifier::external_body]
pub(crate) fn document_texts(
    document: &tantivy::TantivyDocument,
) -> (values: Vec<(u32, Option<String>)>)
    ensures
        value_views(values@) == document_values(*document),
{
    document.field_values().map(
        |(field, value)| (field.field_id(), value.as_str().map(String::from)),
    ).collect()
}

/// `Display` of `tantivy::TantivyError`: the description of the fault.
#[verifier::external_body]
pub(crate) fn describe_fault(fault: &tantivy::TantivyError) -> (description: String) {
    fault.to_string()
}

/// `Display` of `tantivy::query::QueryParserError`: the description of the
/// fault.
#[verifier::external_body]
pub(crate) fn describe_query_fault(
    fault: &tantivy::query::QueryParserError,
) -> (description: String) {
    fault.to_string()
}

} // verus!
