use table_query::filter::FilterOp;
use table_query::ident::{sanitize_column_name, sanitize_table_name, SortOrder};
use table_query::sql::{build_statements, resolve_pagination, where_clause, Predicate, SortKey};
use table_query::text::push_decimal;

fn pred(c: &str, op: FilterOp, v: &str) -> Predicate {
    Predicate { column: sanitize_column_name(c).unwrap(), operator: op, value: v.to_string() }
}

#[test]
fn page_size_is_capped() {
    let p = resolve_pagination(Some(2), Some(5000));
    assert_eq!(p.page, 2);
    assert_eq!(p.page_size, 1000);
    assert_eq!(p.offset(), 1000);
}

#[test]
fn absent_or_zero_pagination_takes_defaults() {
    let p = resolve_pagination(None, None);
    assert_eq!((p.page, p.page_size), (1, 100));
    let q = resolve_pagination(Some(0), Some(0));
    assert_eq!((q.page, q.page_size), (1, 100));
    assert_eq!(q.offset(), 0);
}

#[test]
fn offset_of_a_huge_page_does_not_overflow() {
    let p = resolve_pagination(Some(usize::MAX), Some(1000));
    assert_eq!(p.offset(), (usize::MAX as u128 - 1) * 1000);
}

#[test]
fn decimal_rendering() {
    let mut s = String::from("n=");
    push_decimal(&mut s, 0);
    assert_eq!(s, "n=0");
    let mut t = String::new();
    push_decimal(&mut t, 1234567890);
    assert_eq!(t, "1234567890");
}

#[test]
fn no_filters_means_no_where_clause() {
    let table = sanitize_table_name("people").unwrap();
    let st = build_statements(&table, &vec![], &None, &resolve_pagination(None, None));
    assert_eq!(st.count_sql, "SELECT COUNT(*) as count FROM people");
    assert_eq!(st.select_sql, "SELECT * FROM people LIMIT 100 OFFSET 0");
    assert!(st.binds.is_empty());
    assert_eq!(where_clause(&vec![]), "");
}

#[test]
fn filters_are_bound_in_order() {
    let table = sanitize_table_name("people").unwrap();
    let fs = vec![pred("age", FilterOp::Ge, "21"), pred("name", FilterOp::Ne, "bob")];
    let sort = Some(SortKey { column: sanitize_column_name("age").unwrap(), order: SortOrder::Desc });
    let st = build_statements(&table, &fs, &sort, &resolve_pagination(Some(3), Some(10)));
    assert_eq!(
        st.count_sql,
        "SELECT COUNT(*) as count FROM people WHERE age::text >= $1::text AND name::text != $2::text"
    );
    assert_eq!(
        st.select_sql,
        "SELECT * FROM people WHERE age::text >= $1::text AND name::text != $2::text ORDER BY age DESC LIMIT 10 OFFSET 20"
    );
    assert_eq!(st.binds, vec!["21".to_string(), "bob".to_string()]);
}

#[test]
fn tenth_placeholder_has_two_digits() {
    let fs: Vec<Predicate> = (0..10).map(|_| pred("a", FilterOp::Lt, "1")).collect();
    let w = where_clause(&fs);
    assert!(w.starts_with(" WHERE a::text < $1::text AND "));
    assert!(w.ends_with(" AND a::text < $10::text"));
}
