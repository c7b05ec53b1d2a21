use vstd::prelude::*;

use crate::domain::bookmark::{
    entry_carries_id, entry_of_own_id, holds, views, Bookmark, BookmarkView,
};
use crate::domain::bookmark_repository::{BookmarkRepository, RepositoryFailure};
use crate::domain::bookmark_search_engine::{
    BookmarkSearchEngine, BookmarkSearchEngineError, SearchFailure,
};
use crate::ports::search::indexed::document::{
    bookmark_document, bookmark_field_names, bookmark_fields, document_of, documents_of,
    field_names_are_distinct, fits, handles, handles_are_positions, hit_identifier,
    identifier_among, default_search_fields, stored_values_carry_the_identifier,
    BookmarkDocumentFields,
};
use crate::ports::search::indexed::error::TantivyBookmarkSearchEngineAdapterError;
use crate::ports::search::indexed::resolution::{
    all_found_resolve, resolution_failure, resolution_is_no_query_fault, resolve, resolved,
    resolved_are_found, unresolved_has_a_cause,
};
use crate::trusted::ids::{id_text, parsed_id};
use crate::trusted::index::{
    accepted_query, add_document, add_text_field, build_schema, builder_fields, commit,
    create_writer,
    describe_fault, describe_query_fault, document_texts, fetch, field_names, open_searcher,
    ranked_hits, schema_builder, schema_fields, searcher_documents, searcher_fields,
    stored_values, top_hits, writer_committed, writer_documents, writer_fields, DocumentWriter,
    FieldKind, QueryFault,
};

verus! {

/// How many hits a query returns at most.
pub const TOP_HITS: usize = 10;

/// The memory that the writer may use while the index is built, in bytes.
pub const WRITER_MEMORY_BUDGET: usize = 50_000_000;

/// The number of threads that build the index. With one thread the
/// documents enter the index in catalog order, which is the order in which
/// the index lists hits of equal score.
pub const WRITER_THREADS: usize = 1;

/// The identifier that the index gives back for a document.
pub open spec fn surfaced_id(document: Seq<(u32, Option<Seq<char>>)>) -> Option<u128> {
    identifier_among(stored_values(bookmark_fields(), document))
}

/// What is kept of an index once it is built: a snapshot of it and the
/// handles of its fields.
struct InitialisedEngine {
    snapshot: tantivy::Searcher,
    document_fields: BookmarkDocumentFields,
    /// The bookmarks that the index was built over.
    indexed: Ghost<Seq<BookmarkView>>,
}

impl InitialisedEngine {
    /// The snapshot is one of an index of the four fields. Its documents
    /// are those of the bookmarks that the index was built over, and the
    /// text of the identifier of each of them denotes that identifier.
    #[verifier::type_invariant]
    closed spec fn sound(self) -> bool {
        &&& searcher_fields(self.snapshot) == bookmark_fields()
        &&& self.document_fields == handles()
        &&& searcher_documents(self.snapshot).values() == documents_of(
            handles(),
            self.indexed@,
        ).to_set()
        &&& forall|i: int|
            0 <= i < self.indexed@.len() ==> parsed_id(id_text((#[trigger] self.indexed@[i]).id))
                == Some(self.indexed@[i].id)
    }
}

/// The engine over a ranked full-text index, with the repository that its
/// hits are resolved through.
pub struct TantivyBookmarkSearchEngineAdapter<BR: BookmarkRepository> {
    bookmark_repository: BR,
    initialised_engine: Option<InitialisedEngine>,
}

impl<BR: BookmarkRepository> TantivyBookmarkSearchEngineAdapter<BR> {
    /// The repository that hits are resolved through.
    pub closed spec fn repository(&self) -> BR {
        self.bookmark_repository
    }

    /// The index has been built.
    pub closed spec fn is_initialised(&self) -> bool {
        self.initialised_engine matches Some(engine) && engine.sound()
    }

    /// The bookmarks that the index was built over, in the order in which
    /// they were handed to it.
    pub closed spec fn indexed(&self) -> Seq<BookmarkView> {
        match self.initialised_engine {
            Some(engine) => engine.indexed@,
            None => Seq::empty(),
        }
    }

    /// The documents of the index, each under its address.
    pub closed spec fn documents(&self) -> Map<(u32, u32), Seq<(u32, Option<Seq<char>>)>> {
        match self.initialised_engine {
            Some(engine) => searcher_documents(engine.snapshot),
            None => Map::empty(),
        }
    }

    /// The hits that the index ranks best for a term, best first.
    pub open spec fn hits(&self, term: Seq<char>) -> Seq<(u32, u32)> {
        ranked_hits(
            bookmark_fields(),
            self.documents(),
            default_search_fields(),
            term,
            TOP_HITS as nat,
        )
    }

    /// The index ranks at most ten hits for the term, each the address of
    /// one of its documents.
    pub open spec fn well_ranked(&self, term: Seq<char>) -> bool {
        &&& self.hits(term).len() <= TOP_HITS
        &&& forall|i: int|
            0 <= i < self.hits(term).len() ==> self.documents().dom().contains(
                #[trigger] self.hits(term)[i],
            )
    }

    /// The identifiers that the index gives back for the hits of a term,
    /// best first.
    pub open spec fn hit_ids(&self, term: Seq<char>) -> Seq<u128> {
        self.hits(term).map_values(|hit: (u32, u32)| surfaced_id(self.documents()[hit])->Some_0)
    }

    /// The index and the repository are two views of one snapshot: the
    /// index was built over exactly the catalog that the repository lists.
    pub open spec fn in_step(&self) -> bool {
        self.is_initialised() && self.repository().listing() == Ok::<
            Seq<BookmarkView>,
            RepositoryFailure,
        >(self.indexed())
    }

    /// The documents of a built index are those of the bookmarks that it
    /// was built over, one for each, and each gives back the identifier of
    /// its bookmark.
    pub proof fn documents_are_of_indexed(&self)
        requires
            self.is_initialised(),
        ensures
            self.documents().values() == documents_of(handles(), self.indexed()).to_set(),
            forall|i: int|
                0 <= i < self.indexed().len() ==> surfaced_id(
                    #[trigger] document_of(handles(), self.indexed()[i]),
                ) == Some(self.indexed()[i].id),
    {
        assert forall|i: int| 0 <= i < self.indexed().len() implies surfaced_id(
            #[trigger] document_of(handles(), self.indexed()[i]),
        ) == Some(self.indexed()[i].id) by {
            stored_values_carry_the_identifier(self.indexed()[i]);
        }
    }

    /// An engine over the repository, its index not built yet.
    pub fn new(bookmark_repository: BR) -> (engine: TantivyBookmarkSearchEngineAdapter<BR>)
        ensures
            engine.repository() == bookmark_repository,
            !engine.is_initialised(),
    {
        TantivyBookmarkSearchEngineAdapter { bookmark_repository, initialised_engine: None }
    }

    /// The repository that hits are resolved through.
    pub fn bookmark_repository(&self) -> (repository: &BR)
        ensures
            *repository == self.repository(),
    {
        &self.bookmark_repository
    }

    /// Whether the index has been built.
    pub fn is_built(&self) -> (built: bool)
        ensures
            built == self.is_initialised(),
    {
        match &self.initialised_engine {
            Some(engine) => {
                proof {
                    use_type_invariant(engine);
                }
                true
            },
            None => false,
        }
    }

    /// The schema of the index: the identifier is stored and not searched;
    /// name, description and tags are searched and not stored.
    fn schema() -> (schema: tantivy::schema::Schema)
        ensures
            schema_fields(schema) == bookmark_fields(),
    {
        proof {
            field_names_are_distinct();
        }
        let mut schema_builder = schema_builder();
        assert(field_names(builder_fields(schema_builder)) =~= bookmark_field_names().take(0));
        add_text_field(&mut schema_builder, "id", FieldKind::Stored);
        assert(field_names(builder_fields(schema_builder)) =~= bookmark_field_names().take(1));
        add_text_field(&mut schema_builder, "name", FieldKind::Text);
        assert(field_names(builder_fields(schema_builder)) =~= bookmark_field_names().take(2));
        add_text_field(&mut schema_builder, "description", FieldKind::Text);
        assert(field_names(builder_fields(schema_builder)) =~= bookmark_field_names().take(3));
        add_text_field(&mut schema_builder, "tags", FieldKind::Text);
        let schema = build_schema(schema_builder);
        assert(schema_fields(schema) =~= bookmark_fields());
        schema
    }

    /// Hands the document of one bookmark to the writer. A bookmark whose
    /// texts are more than a document can hold is not handed over.
    fn add_document(
        index_writer: &mut DocumentWriter,
        bookmark_document_fields: &BookmarkDocumentFields,
        bookmark: &Bookmark,
    ) -> (added: Result<(), TantivyBookmarkSearchEngineAdapterError>)
        requires
            bookmark_document_fields.within(4),
        ensures
            writer_fields(*final(index_writer)) == writer_fields(*old(index_writer)),
            writer_committed(*final(index_writer)) == writer_committed(*old(index_writer)),
            match added {
                Ok(_) => {
                    &&& fits(*bookmark_document_fields, bookmark@)
                    &&& parsed_id(id_text(bookmark@.id)) == Some(bookmark@.id)
                    &&& writer_documents(*final(index_writer)) == writer_documents(
                        *old(index_writer),
                    ).push(document_of(*bookmark_document_fields, bookmark@))
                },
                Err(error) => if fits(*bookmark_document_fields, bookmark@) {
                    error is Tantivy
                } else {
                    error is DocumentTooLarge
                },
            },
    {
        let bookmark_doc = match bookmark_document(bookmark_document_fields, bookmark) {
            Some(bookmark_doc) => bookmark_doc,
            None => {
                return Err(TantivyBookmarkSearchEngineAdapterError::DocumentTooLarge);
            },
        };
        match add_document(index_writer, bookmark_doc) {
            Ok(_) => Ok(()),
            Err(fault) => Err(
                TantivyBookmarkSearchEngineAdapterError::Tantivy(describe_fault(&fault)),
            ),
        }
    }

    /// Builds the index over the given bookmarks and keeps a snapshot of
    /// it: the document of each bookmark is handed to the index, in the
    /// order of the bookmarks, and all are committed at once. Where a
    /// bookmark is too large for a document, or the index reports a fault,
    /// the engine stays as it was.
    pub fn initialise(&mut self, bookmarks: Vec<Bookmark>) -> (result: Result<
        (),
        TantivyBookmarkSearchEngineAdapterError,
    >)
        ensures
            final(self).repository() == old(self).repository(),
            match result {
                Ok(_) => {
                    &&& final(self).is_initialised()
                    &&& final(self).indexed() == views(bookmarks@)
                    &&& forall|i: int|
                        0 <= i < bookmarks@.len() ==> fits(handles(), (#[trigger] bookmarks@[i])@)
                },
                Err(error) => {
                    &&& final(self).is_initialised() == old(self).is_initialised()
                    &&& final(self).indexed() == old(self).indexed()
                    &&& final(self).documents() == old(self).documents()
                    &&& error is Tantivy || error is DocumentTooLarge
                    &&& error is DocumentTooLarge ==> exists|i: int|
                        0 <= i < bookmarks@.len() && !fits(handles(), (#[trigger] bookmarks@[i])@)
                },
            },
    {
        let schema = Self::schema();
        let mut index_writer = match create_writer(&schema, WRITER_THREADS, WRITER_MEMORY_BUDGET) {
            Ok(index_writer) => index_writer,
            Err(fault) => {
                return Err(TantivyBookmarkSearchEngineAdapterError::Tantivy(describe_fault(&fault)));
            },
        };
        let document_fields = match BookmarkDocumentFields::from(&schema) {
            Ok(document_fields) => document_fields,
            Err(fault) => {
                return Err(TantivyBookmarkSearchEngineAdapterError::Tantivy(describe_fault(&fault)));
            },
        };
        proof {
            assert(field_names(bookmark_fields()) =~= bookmark_field_names());
            handles_are_positions(document_fields);
        }
        let ghost all = views(bookmarks@);
        let mut i: usize = 0;
        while i < bookmarks.len()
            invariant
                i <= bookmarks.len(),
                all == views(bookmarks@),
                document_fields == handles(),
                writer_fields(index_writer) == bookmark_fields(),
                writer_committed(index_writer) == 0,
                forall|j: int| 0 <= j < i ==> fits(handles(), (#[trigger] bookmarks@[j])@),
                forall|j: int|
                    0 <= j < i ==> parsed_id(id_text((#[trigger] all[j]).id)) == Some(all[j].id),
                writer_documents(index_writer) == documents_of(handles(), all.take(i as int)),
            decreases bookmarks.len() - i,
        {
            match Self::add_document(&mut index_writer, &document_fields, &bookmarks[i]) {
                Ok(_) => {},
                Err(error) => {
                    return Err(error);
                },
            }
            proof {
                assert(all.take(i as int + 1) =~= all.take(i as int).push(bookmarks@[i as int]@));
                assert(documents_of(handles(), all.take(i as int + 1)) =~= documents_of(
                    handles(),
                    all.take(i as int),
                ).push(document_of(handles(), bookmarks@[i as int]@)));
            }
            i += 1;
        }
        proof {
            assert(all.take(i as int) =~= all);
        }
        match commit(&mut index_writer) {
            Ok(_) => {},
            Err(fault) => {
                return Err(TantivyBookmarkSearchEngineAdapterError::Tantivy(describe_fault(&fault)));
            },
        }
        let snapshot = match open_searcher(&index_writer) {
            Ok(snapshot) => snapshot,
            Err(fault) => {
                return Err(TantivyBookmarkSearchEngineAdapterError::Tantivy(describe_fault(&fault)));
            },
        };
        proof {
            let documents = writer_documents(index_writer);
            assert(documents.take(documents.len() as int) =~= documents);
        }
        self.initialised_engine = Some(
            InitialisedEngine { snapshot, document_fields, indexed: Ghost(all) },
        );
        Ok(())
    }

    fn initialised_engine(&self) -> (engine: Result<
        &InitialisedEngine,
        TantivyBookmarkSearchEngineAdapterError,
    >)
        ensures
            match engine {
                Ok(engine) => self.is_initialised() && self.initialised_engine == Some(*engine),
                Err(error) => !self.is_initialised() && error is NotInitialised,
            },
    {
        match &self.initialised_engine {
            Some(engine) => {
                proof {
                    use_type_invariant(engine);
                }
                Ok(engine)
            },
            None => Err(TantivyBookmarkSearchEngineAdapterError::NotInitialised),
        }
    }
}

/// What a search on an engine that was not built answers.
pub open spec fn not_initialised_failure() -> SearchFailure {
    SearchFailure::Unexpected("Search engine has not been initialised"@)
}

/// What a search for the empty term answers: everything the repository
/// lists, in catalog order.
pub open spec fn whole_catalog<BR: BookmarkRepository>(repository: BR) -> Result<
    Seq<BookmarkView>,
    SearchFailure,
> {
    match repository.listing() {
        Ok(catalog) => Ok(catalog),
        Err(failure) => Err(resolution_failure(failure)),
    }
}

impl<BR: BookmarkRepository> BookmarkSearchEngine for TantivyBookmarkSearchEngineAdapter<BR> {
    /// An engine that was not built answers that and nothing else. On a
    /// built engine the empty term is present in every bookmark: it is not
    /// put to the index, and the answer is the whole catalog in catalog
    /// order. Any other term is put to the index. One that its parser does
    /// not accept is an invalid query. For one that it accepts, the index
    /// ranks its hits, and the outcome is what resolving their identifiers,
    /// best first, through the repository gives; only a fault of the index
    /// itself leads to another outcome, which is then unexpected.
    open spec fn permits(&self, term: Seq<char>, outcome: Result<Seq<BookmarkView>, SearchFailure>) -> bool {
        if !self.is_initialised() {
            outcome == Err::<Seq<BookmarkView>, SearchFailure>(not_initialised_failure())
        } else if term.len() == 0 {
            outcome == whole_catalog(self.repository())
        } else if !accepted_query(bookmark_fields(), default_search_fields(), term) {
            outcome == Err::<Seq<BookmarkView>, SearchFailure>(SearchFailure::InvalidQuery)
        } else {
            ||| outcome matches Err(SearchFailure::Unexpected(_))
            ||| self.well_ranked(term) && outcome == resolved(
                self.repository(),
                self.hit_ids(term),
            )
        }
    }

    fn search(&self, term: String) -> (result: Result<Vec<Bookmark>, BookmarkSearchEngineError>) {
        let initialised_engine = match self.initialised_engine() {
            Ok(engine) => engine,
            Err(error) => {
                return Err(BookmarkSearchEngineError::from(error));
            },
        };
        if term.as_str().is_empty() {
            return match self.bookmark_repository.get_all() {
                Ok(all) => Ok(all),
                Err(error) => Err(
                    BookmarkSearchEngineError::from(
                        TantivyBookmarkSearchEngineAdapterError::from(error),
                    ),
                ),
            };
        }
        proof {
            use_type_invariant(initialised_engine);
        }
        let document_fields = &initialised_engine.document_fields;
        let search_fields = vec![
            document_fields.name,
            document_fields.description,
            document_fields.description,
            document_fields.tags,
        ];
        assert(search_fields@ =~= default_search_fields());
        let snapshot = &initialised_engine.snapshot;
        let top_docs = match top_hits(snapshot, &search_fields, term.as_str(), TOP_HITS) {
            Ok(top_docs) => top_docs,
            Err(QueryFault::Parse(fault)) => {
                return Err(
                    BookmarkSearchEngineError::from(
                        TantivyBookmarkSearchEngineAdapterError::QueryParse(
                            describe_query_fault(&fault),
                        ),
                    ),
                );
            },
            Err(QueryFault::Search(fault)) => {
                return Err(
                    BookmarkSearchEngineError::from(
                        TantivyBookmarkSearchEngineAdapterError::Tantivy(describe_fault(&fault)),
                    ),
                );
            },
        };
        assert(top_docs@ == self.hits(term@));
        assert(self.well_ranked(term@));
        let mut ids: Vec<u128> = Vec::new();
        let mut i: usize = 0;
        while i < top_docs.len()
            invariant
                i <= top_docs.len(),
                ids.len() == i,
                self.is_initialised(),
                self.initialised_engine == Some(*initialised_engine),
                snapshot == &initialised_engine.snapshot,
                searcher_fields(*snapshot) == bookmark_fields(),
                term@.len() > 0,
                accepted_query(bookmark_fields(), default_search_fields(), term@),
                top_docs@ == self.hits(term@),
                self.well_ranked(term@),
                forall|j: int| 0 <= j < i ==> ids@[j] == #[trigger] self.hit_ids(term@)[j],
            decreases top_docs.len() - i,
        {
            let retrieved_doc = match fetch(snapshot, top_docs[i]) {
                Ok(retrieved_doc) => retrieved_doc,
                Err(fault) => {
                    return Err(
                        BookmarkSearchEngineError::from(
                            TantivyBookmarkSearchEngineAdapterError::Tantivy(
                                describe_fault(&fault),
                            ),
                        ),
                    );
                },
            };
            match hit_identifier(&document_texts(&retrieved_doc)) {
                Some(id) => {
                    ids.push(id);
                },
                None => {
                    return Err(
                        BookmarkSearchEngineError::from(
                            TantivyBookmarkSearchEngineAdapterError::MissingRequiredField,
                        ),
                    );
                },
            }
            i += 1;
        }
        assert(ids@ =~= self.hit_ids(term@));
        resolve(&self.bookmark_repository, &ids)
    }
}

/// For a fixed snapshot and term a search has one outcome, unless the index
/// itself reports a fault.
pub proof fn search_is_deterministic<BR: BookmarkRepository>(
    engine: TantivyBookmarkSearchEngineAdapter<BR>,
    term: Seq<char>,
    first: Result<Seq<BookmarkView>, SearchFailure>,
    second: Result<Seq<BookmarkView>, SearchFailure>,
)
    requires
        engine.permits(term, first),
        engine.permits(term, second),
        !(first matches Err(SearchFailure::Unexpected(_))),
        !(second matches Err(SearchFailure::Unexpected(_))),
    ensures
        first == second,
{
}

/// A search fails as an invalid query exactly where the term is put to the
/// parser of the index and the parser does not accept it.
pub proof fn invalid_query_is_the_verdict_of_the_parser<BR: BookmarkRepository>(
    engine: TantivyBookmarkSearchEngineAdapter<BR>,
    term: Seq<char>,
)
    ensures
        engine.permits(term, Err(SearchFailure::InvalidQuery)) <==> engine.is_initialised()
            && term.len() > 0 && !accepted_query(bookmark_fields(), default_search_fields(), term),
{
    let outcome = Err::<Seq<BookmarkView>, SearchFailure>(SearchFailure::InvalidQuery);
    if engine.permits(term, outcome) && engine.is_initialised() && term.len() > 0 {
        resolution_is_no_query_fault(engine.repository(), engine.hit_ids(term));
    }
}

/// A search for a term that is not empty returns ten bookmarks at most.
pub proof fn search_returns_at_most_ten<BR: BookmarkRepository>(
    engine: TantivyBookmarkSearchEngineAdapter<BR>,
    term: Seq<char>,
    found: Seq<BookmarkView>,
)
    requires
        term.len() > 0,
        engine.permits(term, Ok(found)),
    ensures
        found.len() <= TOP_HITS,
{
    resolved_are_found(engine.repository(), engine.hit_ids(term));
}

/// Every bookmark that a search returns is, field for field, what the
/// repository holds under its identifier: the index gives identifiers, and
/// the records come from the repository.
pub proof fn search_returns_what_the_repository_holds<BR: BookmarkRepository>(
    engine: TantivyBookmarkSearchEngineAdapter<BR>,
    term: Seq<char>,
    found: Seq<BookmarkView>,
    i: int,
)
    requires
        engine.permits(term, Ok(found)),
        0 <= i < found.len(),
    ensures
        engine.repository().lookup(found[i].id) == Ok::<BookmarkView, RepositoryFailure>(found[i]),
{
    let repository = engine.repository();
    if term.len() == 0 {
        repository.lookup_agrees_with_listing(found[i].id);
        entry_of_own_id(found, i);
    } else {
        let ids = engine.hit_ids(term);
        resolved_are_found(repository, ids);
        assert(repository.lookup(ids[i]) == Ok::<BookmarkView, RepositoryFailure>(found[i]));
        repository.lookup_agrees_with_listing(ids[i]);
        let catalog = repository.listing()->Ok_0;
        entry_carries_id(catalog, ids[i]);
    }
}

/// A search fails with `BookmarkNotFound` only for an identifier that the
/// repository does not hold: the failure tells that the index and the
/// repository have come apart.
pub proof fn not_found_means_not_held<BR: BookmarkRepository>(
    engine: TantivyBookmarkSearchEngineAdapter<BR>,
    term: Seq<char>,
    id: u128,
)
    requires
        engine.permits(term, Err(SearchFailure::BookmarkNotFound(id))),
    ensures
        engine.is_initialised(),
        term.len() > 0,
        engine.hit_ids(term).contains(id),
        engine.repository().lookup(id) == Err::<BookmarkView, RepositoryFailure>(
            RepositoryFailure::BookmarkNotFound(id),
        ),
{
    let repository = engine.repository();
    if term.len() == 0 {
        repository.lookup_agrees_with_listing(id);
    } else {
        let ids = engine.hit_ids(term);
        unresolved_has_a_cause(repository, ids);
        let k = choose|k: int|
            0 <= k < ids.len() && repository.lookup(#[trigger] ids[k]) is Err && resolved(
                repository,
                ids,
            )->Err_0 == resolution_failure(repository.lookup(ids[k])->Err_0);
        repository.lookup_agrees_with_listing(ids[k]);
        assert(ids[k] == id);
    }
}

/// Every identifier that the index gives back for a hit is that of a
/// bookmark that it was built over.
pub proof fn surfaced_ids_are_indexed<BR: BookmarkRepository>(
    engine: TantivyBookmarkSearchEngineAdapter<BR>,
    term: Seq<char>,
    i: int,
)
    requires
        engine.is_initialised(),
        engine.well_ranked(term),
        0 <= i < engine.hits(term).len(),
    ensures
        exists|j: int|
            0 <= j < engine.indexed().len() && engine.hit_ids(term)[i] == (
            #[trigger] engine.indexed()[j]).id,
{
    engine.documents_are_of_indexed();
    let hit = engine.hits(term)[i];
    let document = engine.documents()[hit];
    let all = documents_of(handles(), engine.indexed());
    assert(engine.documents().dom().contains(hit));
    assert(engine.documents().contains_value(document));
    assert(engine.documents().values().contains(document));
    assert(all.to_set().contains(document));
    assert(all.contains(document));
    let j = choose|j: int| 0 <= j < all.len() && all[j] == document;
    assert(document == document_of(handles(), engine.indexed()[j]));
    assert(engine.hit_ids(term)[i] == engine.indexed()[j].id);
}

/// Where the index was built over exactly the catalog that the repository
/// lists, every identifier that the index surfaces resolves: a search
/// never fails with `BookmarkNotFound`, and what it returns is part of the
/// catalog.
pub proof fn in_step_never_loses_a_bookmark<BR: BookmarkRepository>(
    engine: TantivyBookmarkSearchEngineAdapter<BR>,
    term: Seq<char>,
    outcome: Result<Seq<BookmarkView>, SearchFailure>,
)
    requires
        engine.in_step(),
        engine.permits(term, outcome),
    ensures
        !(outcome matches Err(SearchFailure::BookmarkNotFound(_))),
        outcome matches Ok(found) ==> forall|i: int|
            0 <= i < found.len() ==> engine.indexed().contains(#[trigger] found[i]),
{
    let repository = engine.repository();
    let catalog = engine.indexed();
    if term.len() == 0 {
        assert forall|i: int| 0 <= i < catalog.len() implies catalog.contains(
            #[trigger] catalog[i],
        ) by {}
    } else if outcome matches Err(SearchFailure::Unexpected(_)) {
    } else if accepted_query(bookmark_fields(), default_search_fields(), term) {
        let ids = engine.hit_ids(term);
        assert forall|i: int| 0 <= i < ids.len() implies repository.lookup(#[trigger] ids[i])
            is Ok && catalog.contains(repository.lookup(ids[i])->Ok_0) by {
            surfaced_ids_are_indexed(engine, term, i);
            let j = choose|j: int|
                0 <= j < catalog.len() && engine.hit_ids(term)[i] == (#[trigger] catalog[j]).id;
            repository.lookup_agrees_with_listing(ids[i]);
            assert(holds(catalog, ids[i]));
            entry_carries_id(catalog, ids[i]);
        }
        all_found_resolve(repository, ids);
        resolved_are_found(repository, ids);
        let found = outcome->Ok_0;
        assert forall|i: int| 0 <= i < found.len() implies catalog.contains(
            #[trigger] found[i],
        ) by {
            assert(repository.lookup(ids[i]) == Ok::<BookmarkView, RepositoryFailure>(found[i]));
        }
    }
}

} // verus!
