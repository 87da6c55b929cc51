use table_query::error::{FilterError, QueryError};
use table_query::row::JsonScalar;
use table_query::service::{plan_query, reject, respond, total_count, QueryParams, Response};

fn params(page: Option<usize>, size: Option<usize>, sort: Option<&str>, order: Option<&str>) -> QueryParams {
    QueryParams {
        page,
        page_size: size,
        sort: sort.map(|s| s.to_string()),
        order: order.map(|s| s.to_string()),
    }
}

#[test]
fn unfiltered_listing_has_no_where() {
    let plan = plan_query("items", None, &params(None, None, None, None)).unwrap();
    assert_eq!(plan.statements.count_sql, "SELECT COUNT(*) as count FROM items");
    assert_eq!(plan.statements.select_sql, "SELECT * FROM items LIMIT 100 OFFSET 0");
    assert!(plan.statements.binds.is_empty());
}

#[test]
fn filtered_sorted_listing() {
    let plan = plan_query(
        "items",
        Some("price%3E%3D10&kind%3Dtool"),
        &params(Some(2), Some(5000), Some("price"), Some("desc")),
    )
    .unwrap();
    assert_eq!(
        plan.statements.count_sql,
        "SELECT COUNT(*) as count FROM items WHERE price::text >= $1::text AND kind::text = $2::text"
    );
    assert_eq!(
        plan.statements.select_sql,
        "SELECT * FROM items WHERE price::text >= $1::text AND kind::text = $2::text ORDER BY price DESC LIMIT 1000 OFFSET 1000"
    );
    assert_eq!(plan.statements.binds, vec!["10".to_string(), "tool".to_string()]);
    assert_eq!((plan.pagination.page, plan.pagination.page_size), (2, 1000));
}

#[test]
fn checks_run_in_order() {
    let p = params(None, None, Some("bad col"), Some("sideways"));
    assert!(matches!(plan_query("bad;table", Some("x"), &p), Err(QueryError::InvalidTableName)));
    assert!(matches!(
        plan_query("t", Some("nothing"), &p),
        Err(QueryError::InvalidFilter(FilterError::NoOperatorFound))
    ));
    assert!(matches!(plan_query("t", Some("a.b=1"), &p), Err(QueryError::InvalidColumnName)));
    assert!(matches!(plan_query("t", Some("a=1"), &p), Err(QueryError::InvalidColumnName)));
    let q = params(None, None, Some("a"), Some("sideways"));
    assert!(matches!(plan_query("t", Some("a=1"), &q), Err(QueryError::InvalidSortOrder)));
}

#[test]
fn sort_without_order_is_ascending() {
    let plan = plan_query("t", None, &params(None, Some(7), Some("name"), None)).unwrap();
    assert_eq!(plan.statements.select_sql, "SELECT * FROM t ORDER BY name ASC LIMIT 7 OFFSET 0");
}

#[test]
fn rejection_is_a_bad_request() {
    let r = reject(QueryError::InvalidColumnName);
    assert_eq!(r.status(), 400);
    assert!(matches!(r, Response::BadRequest(m) if m == "Invalid column name"));
}

#[test]
fn count_outcomes() {
    assert_eq!(total_count(None), None);
    assert_eq!(total_count(Some(None)), Some(0));
    assert_eq!(total_count(Some(Some(17))), Some(17));
    assert_eq!(total_count(Some(Some(-3))), Some(0));
}

#[test]
fn failed_count_still_returns_data() {
    let plan = plan_query("t", None, &params(Some(1), Some(2), None, None)).unwrap();
    let rows = vec![vec![("id".to_string(), JsonScalar::Int(1))]];
    let r = respond(&plan, total_count(None), Ok(rows));
    assert_eq!(r.status(), 200);
    match r {
        Response::Success(q) => {
            assert_eq!(q.total_count, None);
            assert_eq!(q.count, 1);
            assert_eq!(q.data.len(), 1);
            assert_eq!((q.page, q.page_size), (1, 2));
        }
        _ => panic!("expected a success"),
    }
}

#[test]
fn failed_select_is_a_server_error() {
    let plan = plan_query("t", None, &params(None, None, None, None)).unwrap();
    let r = respond(&plan, Some(5), Err("relation \"t\" does not exist".to_string()));
    assert_eq!(r.status(), 500);
    assert!(matches!(r, Response::ServerError(m) if m == "Database error: relation \"t\" does not exist"));
}
