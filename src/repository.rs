use vstd::prelude::*;

use crate::book::{Book, BookView};
use crate::text::opt_str_view;
use crate::text::{contains_seq, text_contains, text_equals};

verus! {

/// A fault of the backing store, with its detail for the server log.
#[derive(Debug)]
pub struct StorageError {
    pub detail: String,
}

/// The storage operations that the handlers depend on, independent of the
/// backing technology. `books` is what the store holds, in stored order. Any
/// operation may fail with a storage fault, which changes nothing; none
/// retries.
pub trait BookRepository {
    /// The books held, in stored order. A store whose records live outside
    /// the value (a database behind a connection pool) keeps this default: its
    /// contents are not visible to proofs, and the contracts below describe it
    /// without being checked against it.
    closed spec fn books(&self) -> Seq<BookView> {
        arbitrary()
    }

    /// Every stored book.
    fn get_all(&self) -> (r: Result<Vec<Book>, StorageError>)
        ensures
            r matches Ok(v) ==> books_view(v@) == self.books(),
    ;

    /// The book with this id; absence is an empty result, not a failure.
    fn get_by_id(&self, id: &str) -> (r: Result<Option<Book>, StorageError>)
        ensures
            r matches Ok(found) ==> opt_book_view(found) == lookup(self.books(), id@),
            r matches Ok(Some(b)) ==> b.id@ == id@,
    ;

    /// Stores `book` under a fresh id and returns the stored record.
    fn create(&mut self, book: Book) -> (r: Result<Book, StorageError>)
        ensures
            r matches Ok(b) ==> b == book,
            r is Ok ==> !id_taken(old(self).books(), book.id@) && final(self).books() == old(
                self,
            ).books().push(book@),
            ids_distinct(old(self).books()) ==> ids_distinct(final(self).books()),
            r is Err ==> final(self).books() == old(self).books(),
    ;

    /// Stores the title, author and year of `book` in the record with its id;
    /// the stored id and creation time stay. The caller has merged any partial
    /// change beforehand.
    fn update(&mut self, book: Book) -> (r: Result<Book, StorageError>)
        ensures
            r matches Ok(b) ==> b == book,
            r is Ok ==> final(self).books() == replaced(old(self).books(), book@),
            r is Err ==> final(self).books() == old(self).books(),
            ids_distinct(old(self).books()) ==> ids_distinct(final(self).books()),
    ;

    /// Removes the book with this id; a missing id is not an error.
    fn delete(&mut self, id: &str) -> (r: Result<(), StorageError>)
        ensures
            r is Ok ==> final(self).books() == without_id(old(self).books(), id@),
            r is Err ==> final(self).books() == old(self).books(),
            ids_distinct(old(self).books()) ==> ids_distinct(final(self).books()),
    ;

    /// The books whose title and author contain the filters that are present,
    /// in stored order.
    fn search(&self, title: Option<&str>, author: Option<&str>) -> (r: Result<
        Vec<Book>,
        StorageError,
    >)
        ensures
            r matches Ok(v) ==> books_view(v@) == search_spec(
                self.books(),
                opt_str_view(title),
                opt_str_view(author),
            ),
    ;
}

pub open spec fn opt_book_view(o: Option<Book>) -> Option<BookView> {
    match o {
        Some(b) => Some(b@),
        None => None,
    }
}

pub open spec fn books_view(v: Seq<Book>) -> Seq<BookView> {
    v.map_values(|b: Book| b@)
}

/// A book passes a search when each present filter occurs in its field.
pub open spec fn book_matches(
    b: BookView,
    title: Option<Seq<char>>,
    author: Option<Seq<char>>,
) -> bool {
    &&& title matches Some(t) ==> contains_seq(b.title, t)
    &&& author matches Some(a) ==> contains_seq(b.author, a)
}

/// The books of `s` that pass a search, in stored order.
pub open spec fn search_spec(
    s: Seq<BookView>,
    title: Option<Seq<char>>,
    author: Option<Seq<char>>,
) -> Seq<BookView> {
    s.filter(|b: BookView| book_matches(b, title, author))
}

pub open spec fn has_id(b: BookView, id: Seq<char>) -> bool {
    b.id == id
}

/// The first book of `s` with this id.
pub open spec fn lookup(s: Seq<BookView>, id: Seq<char>) -> Option<BookView> {
    let found = s.filter(|b: BookView| has_id(b, id));
    if found.len() > 0 {
        Some(found[0])
    } else {
        None
    }
}

/// `s` with every book of this id taken out.
pub open spec fn without_id(s: Seq<BookView>, id: Seq<char>) -> Seq<BookView> {
    s.filter(|b: BookView| !has_id(b, id))
}

/// The stored record `stored` after an update with `book`: title, author and
/// year come from `book`, the id and the creation time stay.
pub open spec fn updated_record(stored: BookView, book: BookView) -> BookView {
    BookView {
        id: stored.id,
        title: book.title,
        author: book.author,
        published_year: book.published_year,
        created_at: stored.created_at,
    }
}

/// `s` with every book of `book`'s id updated from `book`.
pub open spec fn replaced(s: Seq<BookView>, book: BookView) -> Seq<BookView> {
    s.map_values(|b: BookView| if has_id(b, book.id) { updated_record(b, book) } else { b })
}

/// Whether some book of `s` has this id.
pub open spec fn id_taken(s: Seq<BookView>, id: Seq<char>) -> bool {
    exists|i: int| 0 <= i < s.len() && #[trigger] has_id(s[i], id)
}

/// No two stored books share an id.
pub open spec fn ids_distinct(s: Seq<BookView>) -> bool {
    forall|i: int, j: int|
        #![trigger s[i], s[j]]
        0 <= i < s.len() && 0 <= j < s.len() && i != j ==> s[i].id != s[j].id
}

/// Appending a book whose id is not taken keeps the ids distinct.
pub proof fn lemma_push_keeps_ids_distinct(s: Seq<BookView>, book: BookView)
    requires
        ids_distinct(s),
        !id_taken(s, book.id),
    ensures
        ids_distinct(s.push(book)),
{
    let t = s.push(book);
    assert forall|i: int, j: int|
        0 <= i < t.len() && 0 <= j < t.len() && i != j implies t[i].id != t[j].id by {
        if i == s.len() {
            assert(!has_id(s[j], book.id));
        } else if j == s.len() {
            assert(!has_id(s[i], book.id));
        } else {
            assert(t[i] == s[i] && t[j] == s[j]);
        }
    }
}

/// An update keeps every id where it was, so distinct ids stay distinct.
pub proof fn lemma_replaced_keeps_ids_distinct(s: Seq<BookView>, book: BookView)
    requires
        ids_distinct(s),
    ensures
        ids_distinct(replaced(s, book)),
{
    let t = replaced(s, book);
    assert forall|i: int, j: int|
        0 <= i < t.len() && 0 <= j < t.len() && i != j implies t[i].id != t[j].id by {
        assert(t[i].id == s[i].id && t[j].id == s[j].id);
    }
}

/// Keeping only some books keeps their ids distinct.
pub proof fn lemma_filter_keeps_ids_distinct(s: Seq<BookView>, pred: spec_fn(BookView) -> bool)
    requires
        ids_distinct(s),
    ensures
        ids_distinct(s.filter(pred)),
    decreases s.len(),
{
    reveal(Seq::filter);
    if s.len() > 0 {
        let rest = s.drop_last();
        assert(ids_distinct(rest)) by {
            assert forall|i: int, j: int|
                0 <= i < rest.len() && 0 <= j < rest.len() && i != j implies rest[i].id
                != rest[j].id by {
                assert(rest[i] == s[i] && rest[j] == s[j]);
            }
        }
        lemma_filter_keeps_ids_distinct(rest, pred);
        if pred(s.last()) {
            let kept = rest.filter(pred);
            assert(!id_taken(kept, s.last().id)) by {
                if id_taken(kept, s.last().id) {
                    let k = choose|k: int| 0 <= k < kept.len() && #[trigger] has_id(
                        kept[k],
                        s.last().id,
                    );
                    assert(kept.contains(kept[k]));
                    rest.lemma_filter_contains_rev(pred, kept[k]);
                    let j = choose|j: int| 0 <= j < rest.len() && rest[j] == kept[k];
                    assert(s[j] == rest[j]);
                    assert(s[j].id != s[s.len() - 1].id);
                }
            }
            lemma_push_keeps_ids_distinct(kept, s.last());
        }
    }
}

/// Filtering one more element: the step that every scan below takes.
proof fn lemma_filter_take_step(s: Seq<BookView>, pred: spec_fn(BookView) -> bool, i: int)
    requires
        0 <= i < s.len(),
    ensures
        s.take(i + 1).filter(pred) == if pred(s[i]) {
            s.take(i).filter(pred).push(s[i])
        } else {
            s.take(i).filter(pred)
        },
{
    reveal(Seq::filter);
    assert(s.take(i + 1).drop_last() =~= s.take(i));
}

/// A store that keeps the books in memory, in insertion order. It rejects a
/// second book with an id already stored, as a primary key would.
pub struct InMemoryBookRepository {
    books: Vec<Book>,
}

impl View for InMemoryBookRepository {
    type V = Seq<BookView>;

    closed spec fn view(&self) -> Seq<BookView> {
        books_view(self.books@)
    }
}

impl InMemoryBookRepository {
    /// An empty store.
    pub fn new() -> (r: InMemoryBookRepository)
        ensures
            r@ == Seq::<BookView>::empty(),
            ids_distinct(r@),
    {
        let r = InMemoryBookRepository { books: Vec::new() };
        proof {
            assert(r@ =~= Seq::<BookView>::empty());
        }
        r
    }

    /// The number of stored books.
    pub fn len(&self) -> (r: usize)
        ensures
            r == self@.len(),
    {
        self.books.len()
    }

    fn position_of(&self, id: &str) -> (r: Option<usize>)
        ensures
            match r {
                Some(i) => i < self@.len() && has_id(self@[i as int], id@) && lookup(self@, id@)
                    == Some(self@[i as int]),
                None => lookup(self@, id@) is None && !id_taken(self@, id@),
            },
    {
        let ghost s = self@;
        let ghost pred = |b: BookView| has_id(b, id@);
        let n = self.books.len();
        let mut i: usize = 0;
        while i < n
            invariant
                n == self.books@.len(),
                s == self@,
                s.len() == n,
                i <= n,
                pred == (|b: BookView| has_id(b, id@)),
                s.take(i as int).filter(pred).len() == 0,
                forall|k: int| 0 <= k < i ==> !#[trigger] has_id(s[k], id@),
            decreases n - i,
        {
            proof {
                lemma_filter_take_step(s, pred, i as int);
            }
            if text_equals(self.books[i].id.as_str(), id) {
                proof {
                    let front = s.take(i + 1);
                    let back = s.skip(i + 1);
                    assert(s =~= front + back);
                    Seq::filter_distributes_over_add(front, back, pred);
                    assert(has_id(s[i as int], id@));
                    assert(pred(s[i as int]));
                    assert(s.take(i as int).filter(pred) =~= Seq::<BookView>::empty());
                    assert(front.filter(pred) =~= seq![s[i as int]]);
                    assert(s.filter(pred)[0] == s[i as int]);
                }
                return Some(i);
            }
            proof {
                assert(!has_id(s[i as int], id@));
            }
            i += 1;
        }
        proof {
            assert(s.take(n as int) =~= s);
        }
        None
    }
}

/// Whether `b` passes the search filters that are present.
pub fn book_passes(b: &Book, title: Option<&str>, author: Option<&str>) -> (r: bool)
    ensures
        r == book_matches(b@, opt_str_view(title), opt_str_view(author)),
{
    let by_title = match title {
        Some(t) => text_contains(b.title.as_str(), t),
        None => true,
    };
    let by_author = match author {
        Some(a) => text_contains(b.author.as_str(), a),
        None => true,
    };
    by_title && by_author
}

fn storage_error(detail: &str) -> (r: StorageError)
    ensures
        r.detail@ == detail@,
{
    StorageError { detail: detail.to_owned() }
}

impl BookRepository for InMemoryBookRepository {
    closed spec fn books(&self) -> Seq<BookView> {
        self@
    }

    fn get_all(&self) -> (r: Result<Vec<Book>, StorageError>)
        ensures
            r matches Ok(v) && books_view(v@) == self@,
    {
        let ghost s = self@;
        let mut out: Vec<Book> = Vec::new();
        let n = self.books.len();
        for i in 0..n
            invariant
                n == self.books@.len(),
                s == self@,
                books_view(out@) == s.take(i as int),
        {
            let ghost before = out@;
            out.push(self.books[i].clone());
            proof {
                assert(s[i as int] == self.books@[i as int]@);
                assert(books_view(before).len() == i);
                assert(books_view(out@) =~= books_view(before).push(s[i as int]));
                assert(books_view(out@) =~= s.take(i + 1));
            }
        }
        proof {
            assert(s.take(n as int) =~= s);
        }
        Ok(out)
    }

    fn get_by_id(&self, id: &str) -> (r: Result<Option<Book>, StorageError>)
        ensures
            r matches Ok(found) && match found {
                Some(b) => lookup(self@, id@) == Some(b@),
                None => lookup(self@, id@) is None,
            },
    {
        match self.position_of(id) {
            Some(i) => Ok(Some(self.books[i].clone())),
            None => Ok(None),
        }
    }

    fn create(&mut self, book: Book) -> (r: Result<Book, StorageError>)
        ensures
            id_taken(old(self)@, book.id@) ==> r is Err && final(self)@ == old(self)@,
            !id_taken(old(self)@, book.id@) ==> r == Ok::<Book, StorageError>(book)
                && final(self)@ == old(self)@.push(book@),
    {
        if self.position_of(book.id.as_str()).is_some() {
            return Err(storage_error("a book with this id is already stored"));
        }
        let stored = book.clone();
        self.books.push(book);
        proof {
            assert(self@ =~= old(self)@.push(stored@));
            if ids_distinct(old(self)@) {
                lemma_push_keeps_ids_distinct(old(self)@, stored@);
            }
        }
        Ok(stored)
    }

    fn update(&mut self, book: Book) -> (r: Result<Book, StorageError>)
        ensures
            r == Ok::<Book, StorageError>(book),
            final(self)@ == replaced(old(self)@, book@),
    {
        let ghost s = self@;
        let mut out: Vec<Book> = Vec::new();
        let n = self.books.len();
        for i in 0..n
            invariant
                n == self.books@.len(),
                s == self@,
                books_view(out@) == replaced(s.take(i as int), book@),
        {
            let current = &self.books[i];
            let ghost before = out@;
            if text_equals(current.id.as_str(), book.id.as_str()) {
                out.push(
                    Book {
                        id: current.id.clone(),
                        title: book.title.clone(),
                        author: book.author.clone(),
                        published_year: book.published_year,
                        created_at: current.created_at.clone(),
                    },
                );
            } else {
                out.push(current.clone());
            }
            proof {
                let f = |b: BookView| if has_id(b, book@.id) { updated_record(b, book@) } else { b };
                assert(s[i as int] == self.books@[i as int]@);
                assert(books_view(before).len() == i);
                assert(books_view(out@) =~= books_view(before).push(f(s[i as int])));
                assert(replaced(s.take(i + 1), book@) =~= replaced(s.take(i as int), book@).push(
                    f(s[i as int]),
                ));
                assert(books_view(out@) =~= replaced(s.take(i + 1), book@));
            }
        }
        proof {
            assert(s.take(n as int) =~= s);
        }
        self.books = out;
        proof {
            if ids_distinct(s) {
                lemma_replaced_keeps_ids_distinct(s, book@);
            }
        }
        Ok(book)
    }

    fn delete(&mut self, id: &str) -> (r: Result<(), StorageError>)
        ensures
            r is Ok,
            final(self)@ == without_id(old(self)@, id@),
    {
        let ghost s = self@;
        let ghost pred = |b: BookView| !has_id(b, id@);
        let mut out: Vec<Book> = Vec::new();
        let n = self.books.len();
        for i in 0..n
            invariant
                n == self.books@.len(),
                s == self@,
                pred == (|b: BookView| !has_id(b, id@)),
                books_view(out@) == s.take(i as int).filter(pred),
        {
            proof {
                lemma_filter_take_step(s, pred, i as int);
            }
            let current = &self.books[i];
            if !text_equals(current.id.as_str(), id) {
                out.push(current.clone());
            }
            proof {
                assert(books_view(out@) =~= s.take(i + 1).filter(pred));
            }
        }
        proof {
            assert(s.take(n as int) =~= s);
        }
        self.books = out;
        proof {
            if ids_distinct(s) {
                lemma_filter_keeps_ids_distinct(s, pred);
            }
        }
        Ok(())
    }

    fn search(&self, title: Option<&str>, author: Option<&str>) -> (r: Result<
        Vec<Book>,
        StorageError,
    >)
        ensures
            r matches Ok(v) && books_view(v@) == search_spec(
                self@,
                opt_str_view(title),
                opt_str_view(author),
            ),
    {
        let ghost s = self@;
        let ghost pred = |b: BookView| book_matches(b, opt_str_view(title), opt_str_view(author));
        let mut out: Vec<Book> = Vec::new();
        let n = self.books.len();
        for i in 0..n
            invariant
                n == self.books@.len(),
                s == self@,
                pred == (|b: BookView| book_matches(b, opt_str_view(title), opt_str_view(author))),
                books_view(out@) == s.take(i as int).filter(pred),
        {
            proof {
                lemma_filter_take_step(s, pred, i as int);
            }
            let current = &self.books[i];
            if book_passes(current, title, author) {
                out.push(current.clone());
            }
            proof {
                assert(books_view(out@) =~= s.take(i + 1).filter(pred));
            }
        }
        proof {
            assert(s.take(n as int) =~= s);
        }
        Ok(out)
    }
}

} // verus!
