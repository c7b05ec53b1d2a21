use vstd::prelude::*;

use crate::domain::bookmark::{views, Bookmark, BookmarkView};
use crate::domain::bookmark_repository::{BookmarkRepository, RepositoryFailure};
use crate::domain::bookmark_search_engine::{
    outcome_of, BookmarkSearchEngineError, SearchFailure,
};
use crate::ports::search::indexed::error::TantivyBookmarkSearchEngineAdapterError;

verus! {

/// A failure of the repository as a search reports it.
pub open spec fn resolution_failure(failure: RepositoryFailure) -> SearchFailure {
    match failure {
        RepositoryFailure::BookmarkNotFound(id) => SearchFailure::BookmarkNotFound(id),
        RepositoryFailure::Unexpected(_) => SearchFailure::Unexpected(failure.message()),
    }
}

/// What resolving identifiers through a repository gives: the bookmarks in
/// the order of the identifiers, or the failure of the first identifier
/// that the repository does not resolve.
pub open spec fn resolved<BR: BookmarkRepository>(repository: BR, ids: Seq<u128>) -> Result<
    Seq<BookmarkView>,
    SearchFailure,
>
    decreases ids.len(),
{
    if ids.len() == 0 {
        Ok(Seq::empty())
    } else {
        match resolved(repository, ids.drop_last()) {
            Ok(found) => match repository.lookup(ids.last()) {
                Ok(bookmark) => Ok(found.push(bookmark)),
                Err(failure) => Err(resolution_failure(failure)),
            },
            Err(failure) => Err(failure),
        }
    }
}

/// Resolves identifiers through a repository, in their order, and stops at
/// the first that the repository does not resolve.
pub fn resolve<BR: BookmarkRepository>(repository: &BR, ids: &Vec<u128>) -> (result: Result<
    Vec<Bookmark>,
    BookmarkSearchEngineError,
>)
    ensures
        outcome_of(result) == resolved(*repository, ids@),
{
    let mut found: Vec<Bookmark> = Vec::new();
    let mut i: usize = 0;
    assert(views(found@) =~= Seq::<BookmarkView>::empty());
    while i < ids.len()
        invariant
            i <= ids.len(),
            resolved(*repository, ids@.take(i as int)) == Ok::<Seq<BookmarkView>, SearchFailure>(
                views(found@),
            ),
        decreases ids.len() - i,
    {
        proof {
            assert(ids@.take(i as int + 1).drop_last() =~= ids@.take(i as int));
        }
        match repository.get(ids[i]) {
            Ok(bookmark) => {
                let ghost before = views(found@);
                found.push(bookmark);
                assert(views(found@) =~= before.push(bookmark@));
            },
            Err(error) => {
                let failure = BookmarkSearchEngineError::from(
                    TantivyBookmarkSearchEngineAdapterError::from(error),
                );
                proof {
                    resolution_fails_for_good(*repository, ids@, i as int + 1);
                }
                return Err(failure);
            },
        }
        i += 1;
    }
    assert(ids@.take(i as int) =~= ids@);
    Ok(found)
}

/// Once a prefix of the identifiers fails to resolve, the whole list fails
/// in the same way.
pub proof fn resolution_fails_for_good<BR: BookmarkRepository>(
    repository: BR,
    ids: Seq<u128>,
    upto: int,
)
    requires
        0 <= upto <= ids.len(),
        resolved(repository, ids.take(upto)) is Err,
    ensures
        resolved(repository, ids) == resolved(repository, ids.take(upto)),
    decreases ids.len() - upto,
{
    if upto == ids.len() {
        assert(ids.take(upto) =~= ids);
    } else {
        assert(ids.take(upto + 1).drop_last() =~= ids.take(upto));
        resolution_fails_for_good(repository, ids, upto + 1);
    }
}

/// Identifiers that resolve give one bookmark each, in their order: the one
/// that the repository finds under the identifier.
pub proof fn resolved_are_found<BR: BookmarkRepository>(repository: BR, ids: Seq<u128>)
    requires
        resolved(repository, ids) is Ok,
    ensures
        resolved(repository, ids)->Ok_0.len() == ids.len(),
        forall|i: int|
            0 <= i < ids.len() ==> repository.lookup(#[trigger] ids[i]) == Ok::<
                BookmarkView,
                RepositoryFailure,
            >(resolved(repository, ids)->Ok_0[i]),
    decreases ids.len(),
{
    if ids.len() > 0 {
        resolved_are_found(repository, ids.drop_last());
        let found = resolved(repository, ids)->Ok_0;
        assert forall|i: int| 0 <= i < ids.len() implies repository.lookup(#[trigger] ids[i])
            == Ok::<BookmarkView, RepositoryFailure>(found[i]) by {
            if i < ids.len() - 1 {
                assert(ids.drop_last()[i] == ids[i]);
            }
        }
    }
}

/// Identifiers that do not resolve fail as the lookup of one of them
/// fails.
pub proof fn unresolved_has_a_cause<BR: BookmarkRepository>(repository: BR, ids: Seq<u128>)
    requires
        resolved(repository, ids) is Err,
    ensures
        exists|i: int|
            0 <= i < ids.len() && repository.lookup(#[trigger] ids[i]) is Err && resolved(
                repository,
                ids,
            )->Err_0 == resolution_failure(repository.lookup(ids[i])->Err_0),
    decreases ids.len(),
{
    if ids.len() > 0 {
        if resolved(repository, ids.drop_last()) is Err {
            unresolved_has_a_cause(repository, ids.drop_last());
            let i = choose|i: int|
                0 <= i < ids.drop_last().len() && repository.lookup(
                    #[trigger] ids.drop_last()[i],
                ) is Err && resolved(repository, ids.drop_last())->Err_0 == resolution_failure(
                    repository.lookup(ids.drop_last()[i])->Err_0,
                );
            assert(ids.drop_last()[i] == ids[i]);
        } else {
            assert(repository.lookup(ids[ids.len() - 1]) is Err);
        }
    }
}

/// Identifiers that the repository finds, each of them, resolve.
pub proof fn all_found_resolve<BR: BookmarkRepository>(repository: BR, ids: Seq<u128>)
    requires
        forall|i: int| 0 <= i < ids.len() ==> repository.lookup(#[trigger] ids[i]) is Ok,
    ensures
        resolved(repository, ids) is Ok,
    decreases ids.len(),
{
    if ids.len() > 0 {
        assert forall|i: int| 0 <= i < ids.drop_last().len() implies repository.lookup(
            #[trigger] ids.drop_last()[i],
        ) is Ok by {
            assert(ids.drop_last()[i] == ids[i]);
        }
        all_found_resolve(repository, ids.drop_last());
        assert(repository.lookup(ids[ids.len() - 1]) is Ok);
    }
}

/// Resolving never fails as an invalid query does.
pub proof fn resolution_is_no_query_fault<BR: BookmarkRepository>(repository: BR, ids: Seq<u128>)
    ensures
        resolved(repository, ids) != Err::<Seq<BookmarkView>, SearchFailure>(
            SearchFailure::InvalidQuery,
        ),
    decreases ids.len(),
{
    if ids.len() > 0 {
        resolution_is_no_query_fault(repository, ids.drop_last());
    }
}

} // verus!
