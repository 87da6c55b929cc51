use table_query::error::QueryError;
use table_query::ident::{sanitize_column_name, sanitize_table_name, validate_sort_order, SortOrder};

#[test]
fn table_name_with_letters_digits_underscore_is_kept() {
    let id = sanitize_table_name("user_accounts_2024").unwrap();
    assert_eq!(id.as_str(), "user_accounts_2024");
}

#[test]
fn table_name_with_other_characters_is_refused() {
    for bad in ["users; DROP TABLE x", "public.users", "a b", "name'", "t\"", "caf\u{e9}", "x-y"] {
        assert!(matches!(sanitize_table_name(bad), Err(QueryError::InvalidTableName)), "{}", bad);
    }
}

#[test]
fn column_name_is_checked_the_same_way() {
    assert_eq!(sanitize_column_name("Age_1").unwrap().as_str(), "Age_1");
    assert!(matches!(sanitize_column_name("age)"), Err(QueryError::InvalidColumnName)));
}

#[test]
fn sort_order_is_case_insensitive() {
    assert_eq!(validate_sort_order("asc"), Ok(SortOrder::Asc));
    assert_eq!(validate_sort_order("DeSc"), Ok(SortOrder::Desc));
    assert_eq!(SortOrder::Desc.keyword(), "DESC");
}

#[test]
fn bad_sort_order_is_refused() {
    assert_eq!(validate_sort_order("up"), Err(QueryError::InvalidSortOrder));
    assert_eq!(validate_sort_order(""), Err(QueryError::InvalidSortOrder));
    assert_eq!(
        QueryError::InvalidSortOrder.message(),
        "Invalid sort order. Use 'asc' or 'desc'"
    );
}
