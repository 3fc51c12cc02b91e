use chrono::{DateTime, Duration, Utc};
use library_api::Book;
use uuid::Uuid;

#[test]
fn new_book_generates_valid_and_unique_ids() {
    let b1 = Book::new("Title".into(), "Author".into(), Some(2023));
    let b2 = Book::new("Title".into(), "Author".into(), Some(2023));

    assert!(Uuid::parse_str(&b1.id).is_ok());
    assert!(Uuid::parse_str(&b2.id).is_ok());
    assert_ne!(b1.id, b2.id);
}

#[test]
fn new_book_timestamp_is_recent() {
    let before = Utc::now() - Duration::seconds(1);
    let book = Book::new("Foo".into(), "Bar".into(), None);
    let after = Utc::now() + Duration::seconds(1);

    let ts: DateTime<Utc> = DateTime::parse_from_rfc3339(&book.created_at)
        .expect("created_at debe ser RFC 3339")
        .with_timezone(&Utc);

    assert!(
        ts >= before && ts <= after,
        "created_at ({}) no está en el rango [{}, {}]",
        ts,
        before,
        after
    );
}

#[test]
fn new_book_keeps_given_fields() {
    let b = Book::new("The Hobbit".into(), "J.R.R. Tolkien".into(), Some(1937));
    assert_eq!(b.title, "The Hobbit");
    assert_eq!(b.author, "J.R.R. Tolkien");
    assert_eq!(b.published_year, Some(1937));
    assert_eq!(b.id.chars().count(), 36);
    for (i, c) in b.id.chars().enumerate() {
        if i == 8 || i == 13 || i == 18 || i == 23 {
            assert_eq!(c, '-');
        } else {
            assert!(c.is_ascii_digit() || ('a'..='f').contains(&c));
        }
    }
    assert!(b.created_at.len() >= 25);
}

#[test]
fn book_clone_is_equal_field_by_field() {
    let b = Book::new("A".into(), "B".into(), None);
    let c = b.clone();
    assert_eq!(b.id, c.id);
    assert_eq!(b.title, c.title);
    assert_eq!(b.author, c.author);
    assert_eq!(b.published_year, c.published_year);
    assert_eq!(b.created_at, c.created_at);
}

#[test]
fn new_book_id_is_v4_and_timestamp_is_rfc3339_utc() {
    let b = Book::new("T".into(), "A".into(), None);
    let id: Vec<char> = b.id.chars().collect();
    assert_eq!(id[14], '4');
    assert!(matches!(id[19], '8' | '9' | 'a' | 'b'));
    assert_eq!(Uuid::parse_str(&b.id).unwrap().get_version_num(), 4);
    let ts: Vec<char> = b.created_at.chars().collect();
    assert!(b.created_at.ends_with("+00:00"));
    assert_eq!((ts[4], ts[7], ts[10], ts[13], ts[16]), ('-', '-', 'T', ':', ':'));
    assert!(ts.len() == 25 || ts[19] == '.');
}
