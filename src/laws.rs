//! What holds of the catalog across operations, proved over the models that
//! the operations' own contracts use.
use vstd::prelude::*;

use crate::auth::{bearer_accepted, bearer_token_spec, expiry_accepted, token_expiry, BEARER_PREFIX};
use crate::book::BookView;
use crate::handlers::merged;
use crate::repository::{
    book_matches, has_id, id_taken, ids_distinct, lemma_filter_keeps_ids_distinct, lookup, replaced,
    search_spec, without_id,
};
use crate::text::{contains_seq, has_prefix, lemma_join_contains_part};
use crate::validation::{entries, flattened, text_invalid, violations, year_invalid, BookField};

verus! {

/// Once a book with a fresh id has been stored, fetching that id gives back
/// exactly that book: same title, author and year, same id and timestamp.
pub proof fn lemma_create_then_get(s: Seq<BookView>, book: BookView)
    requires
        !id_taken(s, book.id),
    ensures
        lookup(s.push(book), book.id) == Some(book),
{
    let pred = |b: BookView| has_id(b, book.id);
    reveal(Seq::filter);
    assert(s.push(book).drop_last() =~= s);
    if s.filter(pred).len() > 0 {
        let first = s.filter(pred)[0];
        s.lemma_filter_pred(pred, 0);
        assert(s.filter(pred).contains(first));
        s.lemma_filter_contains_rev(pred, first);
        let j = choose|j: int| 0 <= j < s.len() && s[j] == first;
        assert(has_id(s[j], book.id));
    }
    assert(s.filter(pred) =~= Seq::<BookView>::empty());
    assert(s.push(book).filter(pred) =~= seq![book]);
}

/// A search with no filter returns the whole collection, in stored order.
pub proof fn lemma_search_without_filters(s: Seq<BookView>)
    ensures
        search_spec(s, None, None) == s,
    decreases s.len(),
{
    reveal(Seq::filter);
    if s.len() > 0 {
        lemma_search_without_filters(s.drop_last());
        assert(s.drop_last().push(s.last()) =~= s);
    }
}

/// A search on both title and author returns the books that both single
/// searches return, and only those: filtering the title results by author
/// gives exactly the two-filter result.
pub proof fn lemma_search_is_intersection(s: Seq<BookView>, title: Seq<char>, author: Seq<char>)
    ensures
        search_spec(s, Some(title), Some(author)) == search_spec(
            search_spec(s, Some(title), None),
            None,
            Some(author),
        ),
        forall|b: BookView|
            #![trigger search_spec(s, Some(title), Some(author)).contains(b)]
            search_spec(s, Some(title), Some(author)).contains(b) <==> search_spec(
                s,
                Some(title),
                None,
            ).contains(b) && search_spec(s, None, Some(author)).contains(b),
{
    lemma_filter_twice(s, title, author);
    assert forall|b: BookView|
        #![trigger search_spec(s, Some(title), Some(author)).contains(b)]
        search_spec(s, Some(title), Some(author)).contains(b) <==> search_spec(
            s,
            Some(title),
            None,
        ).contains(b) && search_spec(s, None, Some(author)).contains(b) by {
        lemma_search_membership(s, Some(title), Some(author), b);
        lemma_search_membership(s, Some(title), None, b);
        lemma_search_membership(s, None, Some(author), b);
    }
}

/// A store with distinct ids gives search results with distinct ids: a
/// two-filter search lists each matching book once.
pub proof fn lemma_search_keeps_ids_distinct(
    s: Seq<BookView>,
    title: Option<Seq<char>>,
    author: Option<Seq<char>>,
)
    requires
        ids_distinct(s),
    ensures
        ids_distinct(search_spec(s, title, author)),
{
    lemma_filter_keeps_ids_distinct(s, |b: BookView| book_matches(b, title, author));
}

/// A book is in a search result exactly when it is stored and passes the
/// filters.
proof fn lemma_search_membership(
    s: Seq<BookView>,
    title: Option<Seq<char>>,
    author: Option<Seq<char>>,
    b: BookView,
)
    ensures
        search_spec(s, title, author).contains(b) <==> (s.contains(b) && book_matches(
            b,
            title,
            author,
        )),
{
    let pred = |x: BookView| book_matches(x, title, author);
    if s.filter(pred).contains(b) {
        s.lemma_filter_contains_rev(pred, b);
        let k = choose|k: int| 0 <= k < s.filter(pred).len() && s.filter(pred)[k] == b;
        s.lemma_filter_pred(pred, k);
    }
    if s.contains(b) && book_matches(b, title, author) {
        let j = choose|j: int| 0 <= j < s.len() && s[j] == b;
        s.lemma_filter_contains(pred, j);
    }
}

proof fn lemma_filter_twice(s: Seq<BookView>, title: Seq<char>, author: Seq<char>)
    ensures
        search_spec(s, Some(title), Some(author)) == search_spec(
            search_spec(s, Some(title), None),
            None,
            Some(author),
        ),
    decreases s.len(),
{
    reveal(Seq::filter);
    if s.len() > 0 {
        let rest = s.drop_last();
        lemma_filter_twice(rest, title, author);
        let by_title = search_spec(s, Some(title), None);
        if book_matches(s.last(), Some(title), None) {
            assert(by_title == search_spec(rest, Some(title), None).push(s.last()));
            assert(by_title.drop_last() =~= search_spec(rest, Some(title), None));
        }
    }
}

/// An update keeps the id and the creation time, whatever fields it changes.
pub proof fn lemma_update_keeps_identity(
    current: BookView,
    title: Option<Seq<char>>,
    author: Option<Seq<char>>,
    published_year: Option<i32>,
)
    ensures
        merged(current, title, author, published_year).id == current.id,
        merged(current, title, author, published_year).created_at == current.created_at,
{
}

/// An update in the store keeps every record's id and creation time.
pub proof fn lemma_store_update_keeps_identity(s: Seq<BookView>, book: BookView)
    ensures
        replaced(s, book).len() == s.len(),
        forall|i: int|
            0 <= i < s.len() ==> #[trigger] replaced(s, book)[i].id == s[i].id && replaced(
                s,
                book,
            )[i].created_at == s[i].created_at,
{
}

/// After deleting an id, fetching it finds nothing.
pub proof fn lemma_delete_then_get(s: Seq<BookView>, id: Seq<char>)
    ensures
        lookup(without_id(s, id), id) is None,
{
    let keep = |b: BookView| !has_id(b, id);
    let pick = |b: BookView| has_id(b, id);
    let rest = s.filter(keep);
    if rest.filter(pick).len() > 0 {
        let first = rest.filter(pick)[0];
        rest.lemma_filter_pred(pick, 0);
        assert(rest.filter(pick).contains(first));
        rest.lemma_filter_contains_rev(pick, first);
        let j = choose|j: int| 0 <= j < rest.len() && rest[j] == first;
        s.lemma_filter_pred(keep, j);
    }
}

/// The guard turns away a request with no header, with a header of another
/// scheme, and with a bearer token whose signature fails or which has expired;
/// a header `Bearer <token>` is judged on that token alone.
pub proof fn lemma_guard_rejects(
    header: Option<Seq<char>>,
    token: Seq<char>,
    secret: Seq<char>,
    now: u64,
)
    ensures
        bearer_accepted(Some(BEARER_PREFIX@ + token), secret, now) == expiry_accepted(
            token_expiry(token, secret),
            now,
        ),
        header is None ==> !bearer_accepted(header, secret, now),
        header matches Some(h) && !has_prefix(h, BEARER_PREFIX@) ==> !bearer_accepted(
            header,
            secret,
            now,
        ),
        bearer_token_spec(header) matches Some(token) && !expiry_accepted(
            token_expiry(token, secret),
            now,
        ) ==> !bearer_accepted(header, secret, now),
{
    lemma_bearer_token_of(token);
}

/// A token that decodes under the secret to an expiry still ahead of `now`
/// passes the guard when presented as `Bearer <token>`; a freshly issued
/// token is one such.
pub proof fn lemma_issued_token_passes(token: Seq<char>, secret: Seq<char>, expiry: u64, now: u64)
    requires
        token_expiry(token, secret) == Some(expiry),
        now < expiry,
    ensures
        bearer_accepted(Some(BEARER_PREFIX@ + token), secret, now),
{
    lemma_bearer_token_of(token);
}

/// A header written as `Bearer <token>` hands the guard exactly that token.
proof fn lemma_bearer_token_of(token: Seq<char>)
    ensures
        bearer_token_spec(Some(BEARER_PREFIX@ + token)) == Some(token),
{
    let h = BEARER_PREFIX@ + token;
    assert(h.subrange(0, BEARER_PREFIX@.len() as int) =~= BEARER_PREFIX@);
    assert(h.subrange(BEARER_PREFIX@.len() as int, h.len() as int) =~= token);
}

/// A failed validation reports every invalid field, each as `field: message`,
/// not just the first.
pub proof fn lemma_every_violation_reported(
    title: Option<Seq<char>>,
    author: Option<Seq<char>>,
    published_year: Option<i32>,
)
    ensures
        text_invalid(title) ==> contains_seq(
            flattened(violations(title, author, published_year)),
            BookField::Title.entry_spec(),
        ),
        text_invalid(author) ==> contains_seq(
            flattened(violations(title, author, published_year)),
            BookField::Author.entry_spec(),
        ),
        year_invalid(published_year) ==> contains_seq(
            flattened(violations(title, author, published_year)),
            BookField::PublishedYear.entry_spec(),
        ),
{
    let v = violations(title, author, published_year);
    assert forall|k: int| 0 <= k < v.len() implies contains_seq(
        flattened(v),
        #[trigger] v[k].entry_spec(),
    ) by {
        lemma_join_contains_part(entries(v), ", "@, k);
    }
    let t: Seq<BookField> = if text_invalid(title) {
        seq![BookField::Title]
    } else {
        Seq::empty()
    };
    let a: Seq<BookField> = if text_invalid(author) {
        seq![BookField::Author]
    } else {
        Seq::empty()
    };
    if text_invalid(title) {
        assert(v[0] == BookField::Title);
    }
    if text_invalid(author) {
        assert(v[t.len() as int] == BookField::Author);
    }
    if year_invalid(published_year) {
        assert(v[(t.len() + a.len()) as int] == BookField::PublishedYear);
    }
}

} // verus!
