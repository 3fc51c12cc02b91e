use library_api::build_search_query;
use library_api::text::{strip_text_prefix, text_contains, text_equals};

#[test]
fn search_query_without_filters_has_no_where() {
    let q = build_search_query(None, None);
    assert_eq!(q.sql, "SELECT * FROM books");
    assert!(q.binds.is_empty());
}

#[test]
fn search_query_with_title_only() {
    let q = build_search_query(Some("Rust"), None);
    assert_eq!(q.sql, "SELECT * FROM books WHERE instr(title, ?) > 0");
    assert_eq!(q.binds, vec!["Rust".to_string()]);
}

#[test]
fn search_query_with_author_only() {
    let q = build_search_query(None, Some("Jim"));
    assert_eq!(q.sql, "SELECT * FROM books WHERE instr(author, ?) > 0");
    assert_eq!(q.binds, vec!["Jim".to_string()]);
}

#[test]
fn search_query_with_both_filters_binds_in_clause_order() {
    let q = build_search_query(Some("Rust"), Some("Vignesh"));
    assert_eq!(
        q.sql,
        "SELECT * FROM books WHERE instr(title, ?) > 0 AND instr(author, ?) > 0"
    );
    assert_eq!(q.binds, vec!["Rust".to_string(), "Vignesh".to_string()]);
    assert_eq!(q.sql.matches('?').count(), q.binds.len());
}

#[test]
fn search_values_are_never_interpolated() {
    let evil = "x' OR 1=1 --";
    let q = build_search_query(Some(evil), None);
    assert!(!q.sql.contains(evil));
    assert_eq!(q.binds, vec![evil.to_string()]);
}

#[test]
fn text_helpers() {
    assert!(text_contains("Rust Cookbook", "Cook"));
    assert!(text_contains("Rust", ""));
    assert!(text_contains("", ""));
    assert!(!text_contains("Rust", "rust"));
    assert!(!text_contains("Ru", "Rust"));
    assert!(text_contains("ñandú", "dú"));
    assert!(text_equals("abc", "abc"));
    assert!(!text_equals("abc", "abd"));
    assert!(!text_equals("abc", "ab"));
    assert_eq!(strip_text_prefix("Bearer xyz", "Bearer "), Some("xyz"));
    assert_eq!(strip_text_prefix("Bear", "Bearer "), None);
    assert_eq!(strip_text_prefix("élan vital", "élan "), Some("vital"));
}
