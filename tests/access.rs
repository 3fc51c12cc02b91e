use library_api::{
    all_routes, auth, auth_at, bearer_token, check_credentials, issue_token, login, login_at,
    token_accepted, AppError, Login, Route,
};

const SECRET: &str = "test-secret";

#[test]
fn login_with_fixed_credentials_returns_token() {
    let creds = Login { username: "admin".into(), password: "password".into() };
    let token = login(&creds, SECRET).unwrap();
    assert!(!token.is_empty());
    assert_ne!(token, "admin");
    assert_eq!(token.split('.').count(), 3);
    let header = format!("Bearer {}", token);
    assert_eq!(auth(Some(&header), SECRET), Ok(()));
}

#[test]
fn login_with_wrong_password_is_unauthorized() {
    let creds = Login { username: "admin".into(), password: "wrong".into() };
    let err = login(&creds, SECRET).unwrap_err();
    assert_eq!(err, AppError::Auth);
    assert_eq!(err.status_code(), 401);
    assert_eq!(err.message(), "Unauthorized");
}

#[test]
fn credentials_check_is_exact() {
    assert!(check_credentials("admin", "password"));
    assert!(!check_credentials("Admin", "password"));
    assert!(!check_credentials("admin", "password "));
    assert!(!check_credentials("", ""));
}

#[test]
fn token_is_valid_until_expiry() {
    let now: u64 = 1_000_000;
    let token = issue_token("admin", SECRET, now);
    let header = format!("Bearer {}", token);
    assert_eq!(auth_at(Some(&header), SECRET, now), Ok(()));
    assert_eq!(auth_at(Some(&header), SECRET, now + 3599), Ok(()));
    assert_eq!(auth_at(Some(&header), SECRET, now + 3600), Err(AppError::Auth));
    assert_eq!(auth_at(Some(&header), SECRET, now + 3601), Err(AppError::Auth));
}

#[test]
fn login_at_sets_one_hour_expiry() {
    let creds = Login { username: "admin".into(), password: "password".into() };
    let token = login_at(&creds, SECRET, 5_000).unwrap();
    let header = format!("Bearer {}", token);
    assert!(auth_at(Some(&header), SECRET, 8_599).is_ok());
    assert!(auth_at(Some(&header), SECRET, 8_600).is_err());
}

#[test]
fn guard_rejects_missing_malformed_and_forged_tokens() {
    let now: u64 = 2_000_000;
    let token = issue_token("admin", SECRET, now);
    assert_eq!(auth_at(None, SECRET, now), Err(AppError::Auth));
    let basic = format!("Basic {}", token);
    assert_eq!(auth_at(Some(&basic), SECRET, now), Err(AppError::Auth));
    let lower = format!("bearer {}", token);
    assert_eq!(auth_at(Some(&lower), SECRET, now), Err(AppError::Auth));
    let good = format!("Bearer {}", token);
    assert_eq!(auth_at(Some(&good), "another-secret", now), Err(AppError::Auth));
    assert_eq!(auth_at(Some("Bearer not.a.token"), SECRET, now), Err(AppError::Auth));
    assert_eq!(auth_at(Some("Bearer "), SECRET, now), Err(AppError::Auth));
    let expired = issue_token("admin", SECRET, 10);
    let expired = format!("Bearer {}", expired);
    assert_eq!(auth_at(Some(&expired), SECRET, now), Err(AppError::Auth));
}

#[test]
fn bearer_token_strips_scheme() {
    assert_eq!(bearer_token(Some("Bearer abc.def")), Some("abc.def"));
    assert_eq!(bearer_token(Some("Bearer ")), Some(""));
    assert_eq!(bearer_token(Some("Bearer")), None);
    assert_eq!(bearer_token(Some("Token abc")), None);
    assert_eq!(bearer_token(None), None);
}

#[test]
fn expiry_check_values() {
    assert!(token_accepted(Some(100), 99));
    assert!(!token_accepted(Some(100), 100));
    assert!(!token_accepted(Some(100), 101));
    assert!(!token_accepted(Some(0), 0));
    assert!(!token_accepted(None, 0));
    assert!(token_accepted(Some(u64::MAX), u64::MAX - 1));
    assert!(!token_accepted(Some(u64::MAX), u64::MAX));
}

#[test]
fn only_mutating_routes_are_protected() {
    for route in all_routes() {
        let mutating = matches!(route, Route::CreateBook | Route::UpdateBook | Route::DeleteBook);
        assert_eq!(route.requires_auth(), mutating);
    }
    assert_eq!(all_routes().len(), 7);
    assert_eq!(Route::Login.success_status(), 200);
    assert_eq!(Route::ListBooks.success_status(), 200);
    assert_eq!(Route::GetBook.success_status(), 200);
    assert_eq!(Route::SearchBooks.success_status(), 200);
    assert_eq!(Route::CreateBook.path(), "/books");
    assert_eq!(Route::DeleteBook.method(), "DELETE");
}
