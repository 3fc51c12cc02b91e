//! A book catalog: the entity, its validation rules, the storage contract with
//! an in-memory store, the SQL search builder, the bearer-token guard, the
//! request handlers and the route table, each with a verified contract.

pub mod auth;
pub mod book;
pub mod error;
pub mod handlers;
pub mod laws;
pub mod query;
pub mod repository;
pub mod routes;
pub mod text;
pub mod validation;

pub use auth::{auth, auth_at, bearer_token, check_credentials, issue_token, login, login_at, token_accepted, Login};
pub use book::{Book, BookView};
pub use error::AppError;
pub use handlers::{
    delete_book, found_or_not_found, from_storage, get_book, get_books, merge_update, post_book, put_book,
    search_books, SearchParams,
};
pub use query::{build_search_query, SearchField, SearchQuery};
pub use repository::{BookRepository, InMemoryBookRepository, StorageError};
pub use routes::{all_routes, Route};
pub use validation::{flatten_errors, BookField, CreateBook, UpdateBook, ValidationErrors};
