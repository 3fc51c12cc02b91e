use vstd::prelude::*;

verus! {

/// The catalog's single entity.
#[derive(Debug)]
pub struct Book {
    pub id: String,
    pub title: String,
    pub author: String,
    pub published_year: Option<i32>,
    pub created_at: String,
}

/// A book as plain mathematical values.
pub struct BookView {
    pub id: Seq<char>,
    pub title: Seq<char>,
    pub author: Seq<char>,
    pub published_year: Option<i32>,
    pub created_at: Seq<char>,
}

impl View for Book {
    type V = BookView;

    open spec fn view(&self) -> BookView {
        BookView {
            id: self.id@,
            title: self.title@,
            author: self.author@,
            published_year: self.published_year,
            created_at: self.created_at@,
        }
    }
}

/// A lower-case hexadecimal digit.
pub open spec fn is_lower_hex(c: char) -> bool {
    ('0' <= c && c <= '9') || ('a' <= c && c <= 'f')
}

/// The hyphenated form of a UUID: 32 lower-case hex digits in groups of
/// 8-4-4-4-12.
pub open spec fn is_hyphenated_uuid(s: Seq<char>) -> bool {
    &&& s.len() == 36
    &&& forall|i: int|
        0 <= i < 36 ==> if i == 8 || i == 13 || i == 18 || i == 23 {
            #[trigger] s[i] == '-'
        } else {
            is_lower_hex(s[i])
        }
}

/// A version-4 (random) UUID in hyphenated form: the version digit is `4`
/// and the variant digit one of `8`, `9`, `a`, `b`.
pub open spec fn is_uuid_v4(s: Seq<char>) -> bool {
    &&& is_hyphenated_uuid(s)
    &&& s[14] == '4'
    &&& (s[19] == '8' || s[19] == '9' || s[19] == 'a' || s[19] == 'b')
}

pub open spec fn is_digit(c: char) -> bool {
    '0' <= c && c <= '9'
}

/// The RFC 3339 form that chrono writes for a UTC time with automatic
/// sub-second precision: `YYYY-MM-DDTHH:MM:SS`, then `.` and digits when the
/// time has a fraction, then `+00:00`. A year outside 0..=9999 is written
/// with its sign first, which shifts the layout.
pub open spec fn is_rfc3339_utc(s: Seq<char>) -> bool {
    &&& s.len() >= 25
    &&& s.subrange(s.len() - 6, s.len() as int) == "+00:00"@
    &&& (s[0] == '+' || s[0] == '-' || {
        &&& forall|i: int|
            0 <= i < 19 && i != 4 && i != 7 && i != 10 && i != 13 && i != 16 ==> is_digit(
                #[trigger] s[i],
            )
        &&& s[4] == '-' && s[7] == '-' && s[10] == 'T' && s[13] == ':' && s[16] == ':'
        &&& s.len() == 25 || (s[19] == '.' && forall|i: int|
            20 <= i < s.len() - 6 ==> is_digit(#[trigger] s[i]))
    })
}

/// Relies on uuid's `Uuid::new_v4`, which sets the version and variant bits
/// of a random value, and its `Display`, which writes the lower-case
/// hyphenated form.
#[verifier::external_body]
fn fresh_book_id() -> (r: String)
    ensures
        is_uuid_v4(r@),
{
    uuid::Uuid::new_v4().to_string()
}

/// Relies on chrono's `Utc::now` and `DateTime::to_rfc3339`: the current time
/// in RFC 3339 form with a zero offset.
#[verifier::external_body]
fn current_timestamp_rfc3339() -> (r: String)
    ensures
        is_rfc3339_utc(r@),
{
    chrono::Utc::now().to_rfc3339()
}

impl Book {
    /// A new book with a freshly generated id and the current time as its
    /// creation timestamp.
    pub fn new(title: String, author: String, published_year: Option<i32>) -> (r: Book)
        ensures
            r.title@ == title@,
            r.author@ == author@,
            r.published_year == published_year,
            is_uuid_v4(r.id@),
            is_rfc3339_utc(r.created_at@),
    {
        let id = fresh_book_id();
        let created_at = current_timestamp_rfc3339();
        Book { id, title, author, published_year, created_at }
    }
}

impl Clone for Book {
    fn clone(&self) -> (r: Self)
        ensures
            r == *self,
    {
        Book {
            id: self.id.clone(),
            title: self.title.clone(),
            author: self.author.clone(),
            published_year: self.published_year,
            created_at: self.created_at.clone(),
        }
    }
}

} // verus!
