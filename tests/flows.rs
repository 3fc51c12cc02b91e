use library_api::{
    found_or_not_found, from_storage, merge_update, StorageError,
    auth, delete_book, get_book, get_books, login, post_book, put_book, search_books, AppError,
    Book, BookRepository, CreateBook, InMemoryBookRepository, Login, Route, SearchParams,
    UpdateBook,
};

const SECRET: &str = "test-secret";

fn get_token() -> String {
    let creds = Login { username: "admin".into(), password: "password".into() };
    login(&creds, SECRET).expect("login must succeed")
}

fn create(repo: &mut InMemoryBookRepository, title: &str, author: &str, year: Option<i32>) -> Book {
    post_book(
        repo,
        CreateBook { title: title.into(), author: author.into(), published_year: year },
    )
    .unwrap()
}

#[test]
fn post_and_get_book_flow() {
    let mut repo = InMemoryBookRepository::new();
    let token = get_token();
    let header = format!("Bearer {}", token);
    assert!(auth(Some(&header), SECRET).is_ok());

    let created = create(&mut repo, "The Hobbit", "J.R.R. Tolkien", Some(1937));
    assert_eq!(Route::CreateBook.success_status(), 201);
    assert!(!created.id.is_empty());
    assert_eq!(created.title, "The Hobbit");
    assert_eq!(created.author, "J.R.R. Tolkien");
    assert_eq!(created.published_year, Some(1937));
    assert!(!created.created_at.is_empty());

    let list = get_books(&repo).unwrap();
    assert!(list.iter().any(|b| b.id == created.id));

    let fetched = get_book(&repo, &created.id).unwrap();
    assert_eq!(fetched.title, "The Hobbit");
    assert_eq!(fetched.author, "J.R.R. Tolkien");
    assert_eq!(fetched.published_year, Some(1937));
    assert_eq!(fetched.created_at, created.created_at);
}

#[test]
fn put_and_delete_book_flow() {
    let mut repo = InMemoryBookRepository::new();
    let created = create(&mut repo, "1984", "George Orwell", Some(1949));

    let update = UpdateBook {
        title: Some("Nineteen Eighty-Four".into()),
        author: None,
        published_year: None,
    };
    let updated = put_book(&mut repo, &created.id, update).unwrap();
    assert_eq!(Route::UpdateBook.success_status(), 200);
    assert_eq!(updated.title, "Nineteen Eighty-Four");
    assert_eq!(updated.author, "George Orwell");
    assert_eq!(updated.published_year, Some(1949));
    assert_eq!(updated.id, created.id);
    assert_eq!(updated.created_at, created.created_at);

    assert!(delete_book(&mut repo, &created.id).is_ok());
    assert_eq!(Route::DeleteBook.success_status(), 204);

    let not_found = get_book(&repo, &created.id).unwrap_err();
    assert_eq!(not_found.status_code(), 404);
    assert_eq!(not_found, AppError::NotFound(format!("Book {} not found", created.id)));
}

#[test]
fn get_books_returns_empty_list() {
    let repo = InMemoryBookRepository::new();
    let body = get_books(&repo).unwrap();
    assert!(body.is_empty());
}

#[test]
fn post_book_without_auth_is_unauthorized() {
    let err = auth(None, SECRET).unwrap_err();
    assert_eq!(err.status_code(), 401);
    assert_eq!(err.message(), "Unauthorized");
    assert!(Route::CreateBook.requires_auth());
}

#[test]
fn search_books_filters_and_combines_params() {
    let mut repo = InMemoryBookRepository::new();
    create(&mut repo, "Rust in Action", "Tim", Some(2021));
    create(&mut repo, "Programming Rust", "Jim", Some(2019));
    create(&mut repo, "Rust Cookbook", "Vignesh", Some(2020));

    let list = search_books(&repo, SearchParams { title: None, author: Some("Jim".into()) }).unwrap();
    assert_eq!(list.len(), 1);
    assert_eq!(list[0].author, "Jim");

    let list = search_books(&repo, SearchParams { title: Some("Rust".into()), author: None }).unwrap();
    assert_eq!(list.len(), 3);

    let list = search_books(
        &repo,
        SearchParams { title: Some("Rust".into()), author: Some("Vignesh".into()) },
    )
    .unwrap();
    assert_eq!(list.len(), 1);
    assert_eq!(list[0].author, "Vignesh");
}

#[test]
fn put_book_invalid_payload_returns_400() {
    let mut repo = InMemoryBookRepository::new();
    let created = create(&mut repo, "Clean Code", "Robert", Some(2008));

    let err = put_book(
        &mut repo,
        &created.id,
        UpdateBook { title: Some("".into()), author: None, published_year: None },
    )
    .unwrap_err();
    assert_eq!(err.status_code(), 400);
    assert!(err.message().contains("Title cannot be empty"));
    assert!(err.message().contains("title: Title cannot be empty"));
    assert_eq!(get_book(&repo, &created.id).unwrap().title, "Clean Code");
}

#[test]
fn search_without_filters_returns_everything() {
    let mut repo = InMemoryBookRepository::new();
    let a = create(&mut repo, "A", "X", None);
    let b = create(&mut repo, "B", "Y", Some(1));
    let all = search_books(&repo, SearchParams { title: None, author: None }).unwrap();
    assert_eq!(all.len(), 2);
    assert_eq!(all[0].id, a.id);
    assert_eq!(all[1].id, b.id);
}

#[test]
fn two_filter_search_is_intersection() {
    let mut repo = InMemoryBookRepository::new();
    create(&mut repo, "Rust in Action", "Tim", None);
    create(&mut repo, "Rust Cookbook", "Vignesh", None);
    create(&mut repo, "Go Cookbook", "Vignesh", None);
    let both = search_books(
        &repo,
        SearchParams { title: Some("Rust".into()), author: Some("Vignesh".into()) },
    )
    .unwrap();
    let by_title = search_books(&repo, SearchParams { title: Some("Rust".into()), author: None }).unwrap();
    let by_author =
        search_books(&repo, SearchParams { title: None, author: Some("Vignesh".into()) }).unwrap();
    let expected: Vec<String> = by_title
        .iter()
        .filter(|b| by_author.iter().any(|o| o.id == b.id))
        .map(|b| b.id.clone())
        .collect();
    let got: Vec<String> = both.iter().map(|b| b.id.clone()).collect();
    assert_eq!(got, expected);
    assert_eq!(got.len(), 1);
}

#[test]
fn update_in_store_keeps_stored_id_and_created_at() {
    let mut repo = InMemoryBookRepository::new();
    let stored = create(&mut repo, "Old", "Author", Some(2000));
    let mut changed = Book::new("New".into(), "Other".into(), Some(2001));
    changed.id = stored.id.clone();
    assert_ne!(changed.created_at.len(), 0);
    changed.created_at = "1999-01-01T00:00:00+00:00".into();
    assert!(repo.update(changed).is_ok());
    let after = get_book(&repo, &stored.id).unwrap();
    assert_eq!(after.title, "New");
    assert_eq!(after.author, "Other");
    assert_eq!(after.published_year, Some(2001));
    assert_eq!(after.id, stored.id);
    assert_eq!(after.created_at, stored.created_at);
}

#[test]
fn search_is_case_sensitive_substring() {
    let mut repo = InMemoryBookRepository::new();
    create(&mut repo, "Rust Cookbook", "Vignesh", None);
    let hits = search_books(&repo, SearchParams { title: Some("Cook".into()), author: None }).unwrap();
    assert_eq!(hits.len(), 1);
    let misses = search_books(&repo, SearchParams { title: Some("cookbookx".into()), author: None }).unwrap();
    assert!(misses.is_empty());
    let lower = search_books(&repo, SearchParams { title: Some("cook".into()), author: None }).unwrap();
    assert!(lower.is_empty());
    let wildcard = search_books(&repo, SearchParams { title: Some("R%".into()), author: None }).unwrap();
    assert!(wildcard.is_empty());
}

#[test]
fn update_of_missing_id_is_not_found() {
    let mut repo = InMemoryBookRepository::new();
    let err = put_book(
        &mut repo,
        "missing",
        UpdateBook { title: Some("x".into()), author: None, published_year: None },
    )
    .unwrap_err();
    assert_eq!(err, AppError::NotFound("Book missing not found".into()));
    assert_eq!(err.message(), "Not found: Book missing not found");
}

#[test]
fn update_changes_only_present_fields() {
    let mut repo = InMemoryBookRepository::new();
    let created = create(&mut repo, "Old", "Author", Some(2000));
    let updated = put_book(
        &mut repo,
        &created.id,
        UpdateBook { title: None, author: Some("New Author".into()), published_year: Some(2001) },
    )
    .unwrap();
    assert_eq!(updated.title, "Old");
    assert_eq!(updated.author, "New Author");
    assert_eq!(updated.published_year, Some(2001));
    assert_eq!(updated.id, created.id);
    assert_eq!(updated.created_at, created.created_at);
    let stored = get_book(&repo, &created.id).unwrap();
    assert_eq!(stored.author, "New Author");
}

#[test]
fn delete_of_missing_id_succeeds() {
    let mut repo = InMemoryBookRepository::new();
    create(&mut repo, "Keep", "Me", None);
    assert!(delete_book(&mut repo, "no-such-id").is_ok());
    assert_eq!(repo.len(), 1);
}

#[test]
fn post_book_rejects_invalid_payload_and_stores_nothing() {
    let mut repo = InMemoryBookRepository::new();
    let err = post_book(
        &mut repo,
        CreateBook { title: "".into(), author: "".into(), published_year: Some(-3) },
    )
    .unwrap_err();
    assert_eq!(err.status_code(), 400);
    assert_eq!(
        err,
        AppError::Validation(
            "title: Title cannot be empty, author: Author cannot be empty, published_year: Published year must be positive"
                .into()
        )
    );
    assert_eq!(repo.len(), 0);
}

#[test]
fn store_rejects_duplicate_id() {
    let mut repo = InMemoryBookRepository::new();
    let b = Book::new("T".into(), "A".into(), None);
    let copy = b.clone();
    assert!(repo.create(b).is_ok());
    assert!(repo.create(copy).is_err());
    assert_eq!(repo.len(), 1);
}

#[test]
fn storage_faults_become_internal_errors() {
    let r: Result<u8, AppError> = from_storage(Err(StorageError { detail: "disk full".into() }));
    assert_eq!(r, Err(AppError::Db("disk full".into())));
    assert_eq!(r.unwrap_err().message(), "Internal error");
    assert_eq!(from_storage::<u8>(Ok(7)), Ok(7));
    let missing = found_or_not_found("x", Ok(None)).unwrap_err();
    assert_eq!(missing, AppError::NotFound("Book x not found".into()));
    let fault = found_or_not_found("x", Err(StorageError { detail: "gone".into() })).unwrap_err();
    assert_eq!(fault, AppError::Db("gone".into()));
    let b = Book::new("T".into(), "A".into(), None);
    let id = b.id.clone();
    assert_eq!(found_or_not_found(&id, Ok(Some(b))).unwrap().id, id);
}

#[test]
fn merge_update_keeps_id_and_created_at() {
    let current = Book::new("Old".into(), "Someone".into(), Some(1990));
    let (id, created_at) = (current.id.clone(), current.created_at.clone());
    let merged = merge_update(
        current,
        UpdateBook { title: Some("New".into()), author: Some("Else".into()), published_year: Some(2000) },
    );
    assert_eq!(merged.id, id);
    assert_eq!(merged.created_at, created_at);
    assert_eq!(merged.title, "New");
    assert_eq!(merged.author, "Else");
    assert_eq!(merged.published_year, Some(2000));
    let untouched = merge_update(
        merged.clone(),
        UpdateBook { title: None, author: None, published_year: None },
    );
    assert_eq!(untouched.title, "New");
    assert_eq!(untouched.published_year, Some(2000));
    assert_eq!(untouched.id, id);
}
