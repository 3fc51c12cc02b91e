use vstd::prelude::*;
use vstd::string::*;

use crate::book::{is_rfc3339_utc, is_uuid_v4, Book, BookView};
use crate::error::AppError;
use crate::repository::{
    books_view, id_taken, ids_distinct, lookup, replaced, search_spec, without_id, BookRepository,
    StorageError,
};
use crate::text::opt_string_view;
use crate::validation::{flattened, flatten_errors, CreateBook, UpdateBook};

verus! {

/// The query of a search request.
pub struct SearchParams {
    pub title: Option<String>,
    pub author: Option<String>,
}

/// The text of a not-found failure for this id.
pub open spec fn not_found_message(id: Seq<char>) -> Seq<char> {
    "Book "@ + id + " not found"@
}

pub fn not_found(id: &str) -> (r: AppError)
    ensures
        r matches AppError::NotFound(m) && m@ == not_found_message(id@),
{
    AppError::NotFound(String::from_str("Book ").concat(id).concat(" not found"))
}

/// A storage fault surfaces as an internal failure, detail kept for the log.
pub fn storage_failure(e: StorageError) -> (r: AppError)
    ensures
        r matches AppError::Db(d) && d@ == e.detail@,
{
    AppError::Db(e.detail)
}

/// The outcome of a storage operation as the handlers report it: the value
/// itself, or the fault as an internal failure.
pub fn from_storage<T>(result: Result<T, StorageError>) -> (r: Result<T, AppError>)
    ensures
        match result {
            Ok(v) => r == Ok::<T, AppError>(v),
            Err(e) => r matches Err(AppError::Db(d)) && d@ == e.detail@,
        },
{
    match result {
        Ok(v) => Ok(v),
        Err(e) => Err(storage_failure(e)),
    }
}

/// The outcome of fetching one book: the book, not-found, or an internal
/// failure.
pub fn found_or_not_found(id: &str, found: Result<Option<Book>, StorageError>) -> (r: Result<
    Book,
    AppError,
>)
    ensures
        match found {
            Ok(Some(b)) => r == Ok::<Book, AppError>(b),
            Ok(None) => r matches Err(AppError::NotFound(m)) && m@ == not_found_message(id@),
            Err(e) => r matches Err(AppError::Db(d)) && d@ == e.detail@,
        },
{
    match found {
        Ok(Some(b)) => Ok(b),
        Ok(None) => Err(not_found(id)),
        Err(e) => Err(storage_failure(e)),
    }
}

/// `current` with the fields that an update carries put in; the id and the
/// creation time never change.
pub open spec fn merged(
    current: BookView,
    title: Option<Seq<char>>,
    author: Option<Seq<char>>,
    published_year: Option<i32>,
) -> BookView {
    BookView {
        id: current.id,
        title: match title {
            Some(t) => t,
            None => current.title,
        },
        author: match author {
            Some(a) => a,
            None => current.author,
        },
        published_year: if published_year is Some {
            published_year
        } else {
            current.published_year
        },
        created_at: current.created_at,
    }
}

/// Applies the fields present in `changes` to `current`.
pub fn merge_update(current: Book, changes: UpdateBook) -> (r: Book)
    ensures
        r@ == merged(
            current@,
            opt_string_view(changes.title),
            opt_string_view(changes.author),
            changes.published_year,
        ),
{
    let mut book = current;
    if let Some(title) = changes.title {
        book.title = title;
    }
    if let Some(author) = changes.author {
        book.author = author;
    }
    if changes.published_year.is_some() {
        book.published_year = changes.published_year;
    }
    book
}

/// Lists every book.
pub fn get_books<R: BookRepository>(repo: &R) -> (r: Result<Vec<Book>, AppError>)
    ensures
        r matches Ok(v) ==> books_view(v@) == repo.books(),
        r matches Err(e) ==> e is Db,
{
    from_storage(repo.get_all())
}

/// Fetches one book; a missing id is `NotFound`.
pub fn get_book<R: BookRepository>(repo: &R, id: &str) -> (r: Result<Book, AppError>)
    ensures
        r matches Ok(b) ==> b.id@ == id@ && lookup(repo.books(), id@) == Some(b@),
        r matches Err(AppError::NotFound(m)) ==> lookup(repo.books(), id@) is None && m@
            == not_found_message(id@),
        lookup(repo.books(), id@) is None ==> r is Err,
        r matches Err(e) ==> e is Db || e is NotFound,
{
    found_or_not_found(id, repo.get_by_id(id))
}

/// Validates a create request and stores a new book built from it.
pub fn post_book<R: BookRepository>(repo: &mut R, payload: CreateBook) -> (r: Result<
    Book,
    AppError,
>)
    ensures
        payload.violations_spec().len() > 0 ==> (r matches Err(AppError::Validation(m)) && m@
            == flattened(payload.violations_spec())) && *final(repo) == *old(repo),
        r matches Err(AppError::Validation(_)) ==> payload.violations_spec().len() > 0,
        r matches Ok(b) ==> {
            &&& payload.violations_spec().len() == 0
            &&& b.title@ == payload.title@
            &&& b.author@ == payload.author@
            &&& b.published_year == payload.published_year
            &&& is_uuid_v4(b.id@)
            &&& is_rfc3339_utc(b.created_at@)
            &&& !id_taken(old(repo).books(), b.id@)
            &&& final(repo).books() == old(repo).books().push(b@)
        },
        r is Err ==> final(repo).books() == old(repo).books(),
        r matches Err(e) ==> e is Validation || e is Db,
        ids_distinct(old(repo).books()) ==> ids_distinct(final(repo).books()),
{
    if let Err(e) = payload.validate() {
        return Err(AppError::Validation(flatten_errors(&e)));
    }
    let book = Book::new(payload.title, payload.author, payload.published_year);
    from_storage(repo.create(book))
}

/// Validates an update request, then merges it into the stored book and
/// stores the result. Only the fields present change.
pub fn put_book<R: BookRepository>(repo: &mut R, id: &str, payload: UpdateBook) -> (r: Result<
    Book,
    AppError,
>)
    ensures
        payload.violations_spec().len() > 0 ==> (r matches Err(AppError::Validation(m)) && m@
            == flattened(payload.violations_spec())) && *final(repo) == *old(repo),
        r matches Err(AppError::Validation(_)) ==> payload.violations_spec().len() > 0,
        r matches Ok(b) ==> {
            &&& payload.violations_spec().len() == 0
            &&& b.id@ == id@
            &&& lookup(old(repo).books(), id@) matches Some(current)
            &&& b@ == merged(
                current,
                opt_string_view(payload.title),
                opt_string_view(payload.author),
                payload.published_year,
            )
            &&& final(repo).books() == replaced(old(repo).books(), b@)
        },
        r matches Err(AppError::NotFound(m)) ==> lookup(old(repo).books(), id@) is None && m@
            == not_found_message(id@),
        payload.violations_spec().len() == 0 && lookup(old(repo).books(), id@) is None ==> r is Err,
        r is Err ==> final(repo).books() == old(repo).books(),
        r matches Err(e) ==> e is Validation || e is Db || e is NotFound,
        ids_distinct(old(repo).books()) ==> ids_distinct(final(repo).books()),
{
    if let Err(e) = payload.validate() {
        return Err(AppError::Validation(flatten_errors(&e)));
    }
    let current = match found_or_not_found(id, repo.get_by_id(id)) {
        Ok(b) => b,
        Err(e) => return Err(e),
    };
    let book = merge_update(current, payload);
    from_storage(repo.update(book))
}

/// Deletes a book; deleting a missing id succeeds.
pub fn delete_book<R: BookRepository>(repo: &mut R, id: &str) -> (r: Result<(), AppError>)
    ensures
        r is Ok ==> final(repo).books() == without_id(old(repo).books(), id@),
        r is Err ==> final(repo).books() == old(repo).books(),
        r matches Err(e) ==> e is Db,
        ids_distinct(old(repo).books()) ==> ids_distinct(final(repo).books()),
{
    from_storage(repo.delete(id))
}

/// Searches by the optional title and author filters.
pub fn search_books<R: BookRepository>(repo: &R, params: SearchParams) -> (r: Result<
    Vec<Book>,
    AppError,
>)
    ensures
        r matches Ok(v) ==> books_view(v@) == search_spec(
            repo.books(),
            opt_string_view(params.title),
            opt_string_view(params.author),
        ),
        r matches Err(e) ==> e is Db,
{
    let title = match &params.title {
        Some(t) => Some(t.as_str()),
        None => None,
    };
    let author = match &params.author {
        Some(a) => Some(a.as_str()),
        None => None,
    };
    from_storage(repo.search(title, author))
}

} // verus!
