use vstd::prelude::*;
use vstd::string::*;

use crate::text::{join_with, lemma_join_push, opt_str_view};

verus! {

/// The statement that every search starts from.
pub const SEARCH_BASE_SQL: &'static str = "SELECT * FROM books";

/// Put between the base statement and the first filter clause.
pub const WHERE_SQL: &'static str = " WHERE ";

/// Put between two filter clauses.
pub const AND_SQL: &'static str = " AND ";

/// A column that a search can filter on.
#[derive(PartialEq, Eq, Structural, Clone, Copy, Debug)]
pub enum SearchField {
    Title,
    Author,
}

impl SearchField {
    /// The substring-match clause for this column, with one placeholder for
    /// the bound value. `instr` matches the value as literal, case-sensitive
    /// text: no character of it acts as a wildcard.
    pub open spec fn clause_spec(self) -> Seq<char> {
        match self {
            SearchField::Title => "instr(title, ?) > 0"@,
            SearchField::Author => "instr(author, ?) > 0"@,
        }
    }

    pub fn clause(&self) -> (r: &'static str)
        ensures
            r@ == self.clause_spec(),
    {
        match self {
            SearchField::Title => "instr(title, ?) > 0",
            SearchField::Author => "instr(author, ?) > 0",
        }
    }
}

/// One filter of a search: the clause and the value bound to its placeholder
/// travel together.
pub struct SearchFilter {
    pub field: SearchField,
    pub value: String,
}

/// A search statement and the values to bind, in placeholder order.
#[derive(Debug)]
pub struct SearchQuery {
    pub sql: String,
    pub binds: Vec<String>,
}

/// The filters that the given search parameters ask for: title first, then
/// author, each only when present.
pub open spec fn search_filters(title: Option<Seq<char>>, author: Option<Seq<char>>) -> Seq<
    (SearchField, Seq<char>),
> {
    let by_title = match title {
        Some(t) => seq![(SearchField::Title, t)],
        None => Seq::empty(),
    };
    let by_author = match author {
        Some(a) => seq![(SearchField::Author, a)],
        None => Seq::empty(),
    };
    by_title + by_author
}

/// The clauses of `fields` joined with `AND`.
pub open spec fn joined_clauses(fields: Seq<SearchField>) -> Seq<char> {
    join_with(fields.map_values(|f: SearchField| f.clause_spec()), AND_SQL@)
}

/// The full search statement for `fields`: no `WHERE` at all when there is no
/// filter.
pub open spec fn search_sql(fields: Seq<SearchField>) -> Seq<char> {
    if fields.len() == 0 {
        SEARCH_BASE_SQL@
    } else {
        SEARCH_BASE_SQL@ + WHERE_SQL@ + joined_clauses(fields)
    }
}

/// The number of `?` placeholders among the first `n` characters of `s`.
pub open spec fn placeholders_upto(s: Seq<char>, n: int) -> nat
    decreases n,
{
    if n <= 0 {
        0
    } else {
        placeholders_upto(s, n - 1) + if s[n - 1] == '?' {
            1nat
        } else {
            0nat
        }
    }
}

/// The number of `?` placeholders in a run of statement text.
pub open spec fn placeholder_count(s: Seq<char>) -> nat {
    placeholders_upto(s, s.len() as int)
}

#[verifier::rlimit(50)]
proof fn lemma_clause_placeholder(f: SearchField)
    ensures
        placeholder_count(f.clause_spec()) == 1,
{
    reveal_with_fuel(placeholders_upto, 28);
    match f {
        SearchField::Title => {
            reveal_strlit("instr(title, ?) > 0");
            assert(placeholders_upto(f.clause_spec(), 19) == 1);
        },
        SearchField::Author => {
            reveal_strlit("instr(author, ?) > 0");
            assert(placeholders_upto(f.clause_spec(), 20) == 1);
        },
    }
}

/// The fixed pieces of the statement carry no placeholder.
#[verifier::rlimit(50)]
proof fn lemma_fixed_text_placeholders()
    ensures
        placeholder_count(SEARCH_BASE_SQL@) == 0,
        placeholder_count(WHERE_SQL@) == 0,
        placeholder_count(AND_SQL@) == 0,
{
    reveal_with_fuel(placeholders_upto, 20);
    reveal_strlit("SELECT * FROM books");
    reveal_strlit(" WHERE ");
    reveal_strlit(" AND ");
    assert(placeholders_upto(SEARCH_BASE_SQL@, 19) == 0);
    assert(placeholders_upto(WHERE_SQL@, 7) == 0);
    assert(placeholders_upto(AND_SQL@, 5) == 0);
}

/// Counting a prefix of `a + b` that lies within `a` counts in `a`.
proof fn lemma_placeholders_front(a: Seq<char>, b: Seq<char>, n: int)
    requires
        0 <= n <= a.len(),
    ensures
        placeholders_upto(a + b, n) == placeholders_upto(a, n),
    decreases n,
{
    if n > 0 {
        lemma_placeholders_front(a, b, n - 1);
    }
}

proof fn lemma_placeholders_back(a: Seq<char>, b: Seq<char>, k: int)
    requires
        0 <= k <= b.len(),
    ensures
        placeholders_upto(a + b, a.len() + k) == placeholder_count(a) + placeholders_upto(b, k),
    decreases k,
{
    if k == 0 {
        lemma_placeholders_front(a, b, a.len() as int);
    } else {
        lemma_placeholders_back(a, b, k - 1);
        assert((a + b)[a.len() + k - 1] == b[k - 1]);
    }
}

/// Placeholders add up over a concatenation.
proof fn lemma_placeholders_add(a: Seq<char>, b: Seq<char>)
    ensures
        placeholder_count(a + b) == placeholder_count(a) + placeholder_count(b),
{
    lemma_placeholders_back(a, b, b.len() as int);
}

/// Joined clauses carry one placeholder per field.
proof fn lemma_joined_placeholders(fields: Seq<SearchField>)
    ensures
        placeholder_count(joined_clauses(fields)) == fields.len(),
    decreases fields.len(),
{
    let parts = fields.map_values(|f: SearchField| f.clause_spec());
    if fields.len() == 1 {
        lemma_clause_placeholder(fields[0]);
    } else if fields.len() > 1 {
        let rest = fields.drop_last();
        lemma_joined_placeholders(rest);
        assert(parts.drop_last() =~= rest.map_values(|f: SearchField| f.clause_spec()));
        lemma_clause_placeholder(fields.last());
        lemma_fixed_text_placeholders();
        lemma_placeholders_add(joined_clauses(rest), AND_SQL@);
        lemma_placeholders_add(joined_clauses(rest) + AND_SQL@, fields.last().clause_spec());
    }
}

/// A search statement carries exactly one placeholder per filter.
pub proof fn lemma_search_sql_placeholders(fields: Seq<SearchField>)
    ensures
        placeholder_count(search_sql(fields)) == fields.len(),
{
    lemma_fixed_text_placeholders();
    if fields.len() > 0 {
        lemma_joined_placeholders(fields);
        lemma_placeholders_add(SEARCH_BASE_SQL@, WHERE_SQL@);
        lemma_placeholders_add(SEARCH_BASE_SQL@ + WHERE_SQL@, joined_clauses(fields));
    }
}

/// The filters that `title` and `author` ask for, as values.
fn filters_for(title: Option<&str>, author: Option<&str>) -> (r: Vec<SearchFilter>)
    ensures
        r@.map_values(|f: SearchFilter| (f.field, f.value@)) == search_filters(
            opt_str_view(title),
            opt_str_view(author),
        ),
{
    let mut filters: Vec<SearchFilter> = Vec::new();
    if let Some(t) = title {
        filters.push(SearchFilter { field: SearchField::Title, value: t.to_owned() });
    }
    if let Some(a) = author {
        filters.push(SearchFilter { field: SearchField::Author, value: a.to_owned() });
    }
    proof {
        assert(filters@.map_values(|f: SearchFilter| (f.field, f.value@)) =~= search_filters(
            opt_str_view(title),
            opt_str_view(author),
        ));
    }
    filters
}

/// Builds the search statement and its bound values from the optional title
/// and author filters. Each filter contributes its clause and its value in the
/// same step, so the placeholders and the values always line up.
pub fn build_search_query(title: Option<&str>, author: Option<&str>) -> (r: SearchQuery)
    ensures
        ({
            let filters = search_filters(opt_str_view(title), opt_str_view(author));
            &&& r.sql@ == search_sql(filters.map_values(|f: (SearchField, Seq<char>)| f.0))
            &&& r.binds@.map_values(|b: String| b@) == filters.map_values(
                |f: (SearchField, Seq<char>)| f.1,
            )
        }),
        placeholder_count(r.sql@) == r.binds@.len(),
{
    let filters = filters_for(title, author);
    let ghost spec_filters = search_filters(opt_str_view(title), opt_str_view(author));
    let ghost fields = spec_filters.map_values(|f: (SearchField, Seq<char>)| f.0);
    let ghost values = spec_filters.map_values(|f: (SearchField, Seq<char>)| f.1);
    proof {
        assert(filters@.len() == spec_filters.len());
        assert forall|k: int| 0 <= k < filters@.len() implies #[trigger] filters@[k].field
            == fields[k] && filters@[k].value@ == values[k] by {
            assert(filters@.map_values(|f: SearchFilter| (f.field, f.value@))[k]
                == spec_filters[k]);
        }
    }
    let mut sql = String::from_str(SEARCH_BASE_SQL);
    let mut binds: Vec<String> = Vec::new();
    if filters.len() > 0 {
        sql.append(WHERE_SQL);
    }
    let n = filters.len();
    for i in 0..n
        invariant
            n == filters@.len(),
            n == fields.len(),
            n == values.len(),
            forall|k: int| 0 <= k < n ==> #[trigger] filters@[k].field == fields[k]
                && filters@[k].value@ == values[k],
            n > 0 ==> sql@ == SEARCH_BASE_SQL@ + WHERE_SQL@ + joined_clauses(
                fields.take(i as int),
            ),
            n == 0 ==> sql@ == SEARCH_BASE_SQL@,
            binds@.map_values(|b: String| b@) == values.take(i as int),
    {
        let f = &filters[i];
        if i > 0 {
            sql.append(AND_SQL);
        }
        sql.append(f.field.clause());
        let ghost before = binds@;
        binds.push(f.value.clone());
        proof {
            let clauses = fields.take(i as int).map_values(|f: SearchField| f.clause_spec());
            assert(fields.take(i + 1).map_values(|f: SearchField| f.clause_spec()) =~= clauses.push(
                fields[i as int].clause_spec(),
            ));
            lemma_join_push(clauses, AND_SQL@, fields[i as int].clause_spec());
            assert(sql@ =~= SEARCH_BASE_SQL@ + WHERE_SQL@ + joined_clauses(fields.take(i + 1)));
            assert(before.map_values(|b: String| b@) == values.take(i as int));
            assert(values.take(i as int).len() == i);
            assert(before.len() == i);
            assert(binds@ == before.push(f.value));
            assert forall|k: int| 0 <= k < i implies #[trigger] binds@[k]@ == values[k] by {
                assert(binds@[k] == before[k]);
                assert(before.map_values(|b: String| b@)[k] == values.take(i as int)[k]);
            }
            assert(binds@.map_values(|b: String| b@) =~= values.take(i + 1));
        }
    }
    proof {
        assert(fields.take(n as int) =~= fields);
        assert(values.take(n as int) =~= values);
        lemma_search_sql_placeholders(fields);
        assert(binds@.len() == binds@.map_values(|b: String| b@).len());
    }
    SearchQuery { sql, binds }
}

} // verus!
