use vstd::prelude::*;
use vstd::string::*;

use crate::text::{join_with, lemma_join_push, opt_str_view, opt_string_view};

verus! {

/// The body of a create request.
pub struct CreateBook {
    pub title: String,
    pub author: String,
    pub published_year: Option<i32>,
}

/// The body of an update request: only the fields present are changed.
pub struct UpdateBook {
    pub title: Option<String>,
    pub author: Option<String>,
    pub published_year: Option<i32>,
}

/// A field of a book request that validation can reject, in declaration
/// order.
#[derive(PartialEq, Eq, Structural, Clone, Copy, Debug)]
pub enum BookField {
    Title,
    Author,
    PublishedYear,
}

impl BookField {
    pub open spec fn name_spec(self) -> Seq<char> {
        match self {
            BookField::Title => "title"@,
            BookField::Author => "author"@,
            BookField::PublishedYear => "published_year"@,
        }
    }

    pub open spec fn message_spec(self) -> Seq<char> {
        match self {
            BookField::Title => "Title cannot be empty"@,
            BookField::Author => "Author cannot be empty"@,
            BookField::PublishedYear => "Published year must be positive"@,
        }
    }

    /// `field: message`, as a failure is reported.
    pub open spec fn entry_spec(self) -> Seq<char> {
        self.name_spec() + ": "@ + self.message_spec()
    }

    pub fn name(&self) -> (r: &'static str)
        ensures
            r@ == self.name_spec(),
    {
        match self {
            BookField::Title => "title",
            BookField::Author => "author",
            BookField::PublishedYear => "published_year",
        }
    }

    pub fn message(&self) -> (r: &'static str)
        ensures
            r@ == self.message_spec(),
    {
        match self {
            BookField::Title => "Title cannot be empty",
            BookField::Author => "Author cannot be empty",
            BookField::PublishedYear => "Published year must be positive",
        }
    }
}

/// Every field that failed validation, in declaration order.
#[derive(Debug)]
pub struct ValidationErrors {
    pub fields: Vec<BookField>,
}

/// A text field is valid when it holds at least one character.
pub open spec fn text_invalid(value: Option<Seq<char>>) -> bool {
    value matches Some(v) && v.len() == 0
}

/// A year is valid when absent or not negative.
pub open spec fn year_invalid(year: Option<i32>) -> bool {
    year matches Some(y) && y < 0
}

/// The fields that fail their rule, in declaration order; an absent field is
/// never checked.
pub open spec fn violations(
    title: Option<Seq<char>>,
    author: Option<Seq<char>>,
    year: Option<i32>,
) -> Seq<BookField> {
    let t = if text_invalid(title) {
        seq![BookField::Title]
    } else {
        Seq::empty()
    };
    let a = if text_invalid(author) {
        seq![BookField::Author]
    } else {
        Seq::empty()
    };
    let y = if year_invalid(year) {
        seq![BookField::PublishedYear]
    } else {
        Seq::empty()
    };
    t + a + y
}

impl CreateBook {
    pub open spec fn violations_spec(&self) -> Seq<BookField> {
        violations(Some(self.title@), Some(self.author@), self.published_year)
    }

    /// Checks every field and reports all that fail, not just the first.
    pub fn validate(&self) -> (r: Result<(), ValidationErrors>)
        ensures
            r is Ok <==> self.violations_spec().len() == 0,
            r matches Err(e) ==> e.fields@ == self.violations_spec(),
    {
        collect_violations(Some(self.title.as_str()), Some(self.author.as_str()), self.published_year)
    }
}

impl UpdateBook {
    pub open spec fn violations_spec(&self) -> Seq<BookField> {
        violations(opt_string_view(self.title), opt_string_view(self.author), self.published_year)
    }

    /// Checks every field present and reports all that fail, not just the
    /// first.
    pub fn validate(&self) -> (r: Result<(), ValidationErrors>)
        ensures
            r is Ok <==> self.violations_spec().len() == 0,
            r matches Err(e) ==> e.fields@ == self.violations_spec(),
    {
        let title = match &self.title {
            Some(t) => Some(t.as_str()),
            None => None,
        };
        let author = match &self.author {
            Some(a) => Some(a.as_str()),
            None => None,
        };
        collect_violations(title, author, self.published_year)
    }
}

fn text_is_invalid(value: Option<&str>) -> (r: bool)
    ensures
        r == text_invalid(opt_str_view(value)),
{
    match value {
        Some(v) => v.is_empty(),
        None => false,
    }
}

fn collect_violations(title: Option<&str>, author: Option<&str>, year: Option<i32>) -> (r: Result<
    (),
    ValidationErrors,
>)
    ensures
        ({
            let expected = violations(
                opt_str_view(title),
                opt_str_view(author),
                year,
            );
            &&& r is Ok <==> expected.len() == 0
            &&& r matches Err(e) ==> e.fields@ == expected
        }),
{
    let mut fields: Vec<BookField> = Vec::new();
    if text_is_invalid(title) {
        fields.push(BookField::Title);
    }
    if text_is_invalid(author) {
        fields.push(BookField::Author);
    }
    let year_bad = match year {
        Some(y) => y < 0,
        None => false,
    };
    if year_bad {
        fields.push(BookField::PublishedYear);
    }
    proof {
        assert(fields@ =~= violations(
            opt_str_view(title),
            opt_str_view(author),
            year,
        ));
    }
    if fields.len() == 0 {
        Ok(())
    } else {
        Err(ValidationErrors { fields })
    }
}

/// The report of a failed validation: one `field: message` entry per field.
pub open spec fn entries(fields: Seq<BookField>) -> Seq<Seq<char>> {
    fields.map_values(|f: BookField| f.entry_spec())
}

/// The entries joined by `, `: one line, in declaration order.
pub open spec fn flattened(fields: Seq<BookField>) -> Seq<char> {
    join_with(entries(fields), ", "@)
}

/// Formats every failure of `e` as `field: message`, joined by `, `.
pub fn flatten_errors(e: &ValidationErrors) -> (r: String)
    ensures
        r@ == flattened(e.fields@),
{
    let mut out = String::new();
    let n = e.fields.len();
    for i in 0..n
        invariant
            n == e.fields@.len(),
            out@ == flattened(e.fields@.take(i as int)),
    {
        let f = e.fields[i];
        if i > 0 {
            out.append(", ");
        }
        out.append(f.name());
        out.append(": ");
        out.append(f.message());
        proof {
            let before = entries(e.fields@.take(i as int));
            assert(entries(e.fields@.take(i + 1)) =~= before.push(f.entry_spec()));
            lemma_join_push(before, ", "@, f.entry_spec());
            if i == 0 {
                assert(before.len() == 0);
            }
            assert(out@ =~= flattened(e.fields@.take(i + 1)));
        }
    }
    proof {
        assert(e.fields@.take(n as int) =~= e.fields@);
    }
    out
}

} // verus!
