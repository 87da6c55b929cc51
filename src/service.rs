//! The decisions of one request: from its path and query parameters to the
//! statements to run, and from the outcomes of those statements to the
//! response.
use vstd::prelude::*;
use vstd::string::*;
use crate::error::{QueryError, query_error_text};
use crate::filter::{
    FilterCondition, FilterView, filters_view, parse_many, parse_multiple_filters, texts_view,
};
use crate::ident::{
    SortOrder, is_identifier, order_of_upper, sanitize_column_name, sanitize_table_name,
    upper_of, validate_sort_order,
};
use crate::row::{JsonScalar, RowEntries, row_view};
use crate::text::decimal_text;
use crate::sql::{
    Pagination, Predicate, SortKey, Statements, bind_values, build_statements, count_statement,
    order_by_text, page_of, page_size_of, predicates_view, resolve_pagination, select_statement,
    where_text,
};

verus! {

/// The query parameters of a listing: `page`, `page_size`, `sort`, `order`.
pub struct QueryParams {
    pub page: Option<usize>,
    pub page_size: Option<usize>,
    pub sort: Option<String>,
    pub order: Option<String>,
}

/// What to run for one request.
pub struct QueryPlan {
    pub statements: Statements,
    pub pagination: Pagination,
}

/// A plan as mathematical text.
pub struct PlanView {
    pub count_sql: Seq<char>,
    pub select_sql: Seq<char>,
    pub binds: Seq<Seq<char>>,
    pub page: usize,
    pub page_size: usize,
}

pub open spec fn plan_result_view(r: Result<QueryPlan, QueryError>) -> Result<PlanView, QueryError> {
    match r {
        Ok(p) => Ok(
            PlanView {
                count_sql: p.statements.count_sql@,
                select_sql: p.statements.select_sql@,
                binds: texts_view(p.statements.binds@),
                page: p.pagination.page,
                page_size: p.pagination.page_size,
            },
        ),
        Err(e) => Err(e),
    }
}

pub open spec fn opt_text(s: Option<&str>) -> Option<Seq<char>> {
    match s {
        Some(t) => Some(t@),
        None => None,
    }
}

/// The filters of a request: none without a filter segment; otherwise those
/// that the segment parses to, each of whose columns must be a valid name.
pub open spec fn planned_filters(filter: Option<Seq<char>>) -> Result<Seq<FilterView>, QueryError> {
    match filter {
        None => Ok(Seq::empty()),
        Some(f) => match parse_many(f) {
            Err(e) => Err(QueryError::InvalidFilter(e)),
            Ok(fs) => if forall|i: int| 0 <= i < fs.len() ==> is_identifier(#[trigger] fs[i].column) {
                Ok(fs)
            } else {
                Err(QueryError::InvalidColumnName)
            },
        },
    }
}

/// The sort direction of a request: ascending where none is given.
pub open spec fn planned_order(order: Option<String>) -> Result<SortOrder, QueryError> {
    match order {
        None => Ok(SortOrder::Asc),
        Some(o) => order_of_upper(upper_of(o@)),
    }
}

pub open spec fn planned_sort(sort: Option<String>, order: SortOrder) -> Option<
    (Seq<char>, SortOrder),
> {
    match sort {
        None => None,
        Some(c) => Some((c@, order)),
    }
}

/// What a request is planned to: the checks run in the order table name,
/// filters, filter columns, sort column, sort order, and the first that fails
/// decides the error.
pub open spec fn plan_of(table: Seq<char>, filter: Option<Seq<char>>, params: QueryParams) -> Result<
    PlanView,
    QueryError,
> {
    if !is_identifier(table) {
        Err(QueryError::InvalidTableName)
    } else {
        match planned_filters(filter) {
            Err(e) => Err(e),
            Ok(fs) => if params.sort matches Some(c) && !is_identifier(c@) {
                Err(QueryError::InvalidColumnName)
            } else {
                match planned_order(params.order) {
                    Err(e) => Err(e),
                    Ok(o) => {
                        let page = page_of(params.page);
                        let page_size = page_size_of(params.page_size);
                        Ok(
                            PlanView {
                                count_sql: count_statement(table, fs),
                                select_sql: select_statement(
                                    table,
                                    fs,
                                    planned_sort(params.sort, o),
                                    page_size as nat,
                                    ((page - 1) * page_size) as nat,
                                ),
                                binds: bind_values(fs),
                                page,
                                page_size,
                            },
                        )
                    },
                }
            },
        }
    }
}

fn sanitize_filters(filters: &Vec<FilterCondition>) -> (r: Result<Vec<Predicate>, QueryError>)
    ensures
        r is Ok <==> forall|i: int|
            0 <= i < filters@.len() ==> is_identifier(#[trigger] filters_view(filters@)[i].column),
        r matches Ok(ps) ==> predicates_view(ps@) == filters_view(filters@),
        r matches Err(e) ==> e == QueryError::InvalidColumnName,
{
    let ghost fs = filters_view(filters@);
    let mut out: Vec<Predicate> = Vec::new();
    let mut i: usize = 0;
    assert(predicates_view(out@) =~= fs.take(0));
    while i < filters.len()
        invariant
            fs == filters_view(filters@),
            i <= filters.len(),
            forall|j: int| 0 <= j < i ==> is_identifier(#[trigger] fs[j].column),
            predicates_view(out@) == fs.take(i as int),
        decreases filters.len() - i,
    {
        let f = &filters[i];
        match sanitize_column_name(f.column.as_str()) {
            Err(e) => {
                assert(fs[i as int].column == f.column@);
                assert(!is_identifier(fs[i as int].column));
                return Err(e);
            },
            Ok(column) => {
                let ghost before = predicates_view(out@);
                let value = f.value.clone();
                let p = Predicate { column, operator: f.operator, value };
                out.push(p);
                assert(predicates_view(out@) =~= before.push(p@));
                assert(fs.take(i + 1) =~= fs.take(i as int).push(fs[i as int]));
            },
        }
        i = i + 1;
    }
    assert(fs.take(filters.len() as int) =~= fs);
    Ok(out)
}

/// Plans a request on `table`, with the filter segment where there is one.
pub fn plan_query(table: &str, filter: Option<&str>, params: &QueryParams) -> (r: Result<
    QueryPlan,
    QueryError,
>)
    ensures
        plan_result_view(r) == plan_of(table@, opt_text(filter), *params),
        r matches Ok(p) ==> p.pagination.wf(),
{
    let table_id = match sanitize_table_name(table) {
        Ok(t) => t,
        Err(e) => return Err(e),
    };
    let predicates = match filter {
        None => {
            let v: Vec<Predicate> = Vec::new();
            assert(predicates_view(v@) =~= Seq::<FilterView>::empty());
            v
        },
        Some(f) => {
            let parsed = match parse_multiple_filters(f) {
                Ok(fs) => fs,
                Err(e) => return Err(QueryError::InvalidFilter(e)),
            };
            match sanitize_filters(&parsed) {
                Ok(ps) => ps,
                Err(e) => return Err(e),
            }
        },
    };
    let pagination = resolve_pagination(params.page, params.page_size);
    let sort_column = match &params.sort {
        None => None,
        Some(c) => match sanitize_column_name(c.as_str()) {
            Ok(id) => Some(id),
            Err(e) => return Err(e),
        },
    };
    let order = match &params.order {
        None => SortOrder::Asc,
        Some(o) => match validate_sort_order(o.as_str()) {
            Ok(o) => o,
            Err(e) => return Err(e),
        },
    };
    let sort = match sort_column {
        None => None,
        Some(column) => Some(SortKey { column, order }),
    };
    let statements = build_statements(&table_id, &predicates, &sort, &pagination);
    Ok(QueryPlan { statements, pagination })
}

/// A decoded row.
pub type Row = Vec<(String, JsonScalar)>;

/// The envelope of a successful listing.
pub struct QueryResult {
    pub data: Vec<Row>,
    pub count: usize,
    pub page: usize,
    pub page_size: usize,
    pub total_count: Option<usize>,
}

/// What a request answers.
pub enum Response {
    /// HTTP 200 with the envelope.
    Success(QueryResult),
    /// HTTP 400 with the reason.
    BadRequest(String),
    /// HTTP 500 with the reason.
    ServerError(String),
}

pub open spec fn status_of(r: &Response) -> u16 {
    match r {
        Response::Success(_) => 200,
        Response::BadRequest(_) => 400,
        Response::ServerError(_) => 500,
    }
}

impl Response {
    /// The HTTP status code.
    pub fn status(&self) -> (r: u16)
        ensures
            r == status_of(self),
    {
        match self {
            Response::Success(_) => 200,
            Response::BadRequest(_) => 400,
            Response::ServerError(_) => 500,
        }
    }
}

/// The answer to a request refused before any statement ran.
pub fn reject(e: QueryError) -> (r: Response)
    ensures
        r matches Response::BadRequest(m) && m@ == query_error_text(e),
{
    Response::BadRequest(e.message())
}

/// The total row count from the `COUNT` statement: `None` where the statement
/// failed; zero where it ran but its `count` column could not be read; a
/// count is never negative.
pub open spec fn total_count_of(fetched: Option<Option<i64>>) -> Option<usize> {
    match fetched {
        None => None,
        Some(None) => Some(0),
        Some(Some(v)) => Some(
            if v <= 0 {
                0
            } else if v > usize::MAX {
                usize::MAX
            } else {
                v as usize
            },
        ),
    }
}

/// Reads the outcome of the `COUNT` statement.
pub fn total_count(fetched: Option<Option<i64>>) -> (r: Option<usize>)
    ensures
        r == total_count_of(fetched),
{
    match fetched {
        None => None,
        Some(None) => Some(0),
        Some(Some(v)) => if v <= 0 {
            Some(0)
        } else if v as u64 > usize::MAX as u64 {
            Some(usize::MAX)
        } else {
            Some(v as usize)
        },
    }
}

pub open spec fn rows_view(rows: Seq<Row>) -> Seq<RowEntries> {
    rows.map_values(|r: Row| row_view(r@))
}

/// An answer as mathematical values.
pub enum ResponseView {
    Success {
        data: Seq<RowEntries>,
        count: nat,
        page: usize,
        page_size: usize,
        total_count: Option<usize>,
    },
    BadRequest(Seq<char>),
    ServerError(Seq<char>),
}

pub open spec fn response_view(r: Response) -> ResponseView {
    match r {
        Response::Success(q) => ResponseView::Success {
            data: rows_view(q.data@),
            count: q.count as nat,
            page: q.page,
            page_size: q.page_size,
            total_count: q.total_count,
        },
        Response::BadRequest(m) => ResponseView::BadRequest(m@),
        Response::ServerError(m) => ResponseView::ServerError(m@),
    }
}

pub open spec fn answer_status(r: ResponseView) -> u16 {
    match r {
        ResponseView::Success { .. } => 200,
        ResponseView::BadRequest(_) => 400,
        ResponseView::ServerError(_) => 500,
    }
}

pub open spec fn rows_result_view(rows: Result<Vec<Row>, String>) -> Result<Seq<RowEntries>, Seq<char>> {
    match rows {
        Ok(d) => Ok(rows_view(d@)),
        Err(m) => Err(m@),
    }
}

/// The answer once both statements have run: a failed `SELECT` is a server
/// error whatever the count gave; otherwise the decoded rows go out with
/// their number, the page, the page size and the total count, which may be
/// absent.
pub open spec fn answer_of(
    page: usize,
    page_size: usize,
    total: Option<usize>,
    rows: Result<Seq<RowEntries>, Seq<char>>,
) -> ResponseView {
    match rows {
        Err(m) => ResponseView::ServerError("Database error: "@ + m),
        Ok(d) => ResponseView::Success {
            data: d,
            count: d.len(),
            page,
            page_size,
            total_count: total,
        },
    }
}

/// Assembles the answer once both statements have run.
pub fn respond(plan: &QueryPlan, total: Option<usize>, rows: Result<Vec<Row>, String>) -> (r:
    Response)
    ensures
        response_view(r) == answer_of(
            plan.pagination.page,
            plan.pagination.page_size,
            total,
            rows_result_view(rows),
        ),
{
    match rows {
        Err(m) => {
            let msg = String::from_str("Database error: ").concat(m.as_str());
            Response::ServerError(msg)
        },
        Ok(data) => {
            let count = data.len();
            Response::Success(
                QueryResult {
                    data,
                    count,
                    page: plan.pagination.page,
                    page_size: plan.pagination.page_size,
                    total_count: total,
                },
            )
        },
    }
}

/// Without a filter segment there is no `WHERE` clause and nothing to bind:
/// the `COUNT` runs on the whole table, and the `SELECT` only sorts and
/// paginates.
pub proof fn lemma_unfiltered_plan(table: Seq<char>, params: QueryParams)
    requires
        plan_of(table, None, params) is Ok,
    ensures
        plan_of(table, None, params) matches Ok(p) && p.count_sql == "SELECT COUNT(*) as count FROM "@
            + table && p.binds.len() == 0 && p.select_sql == "SELECT * FROM "@ + table
            + order_by_text(planned_sort(params.sort, planned_order(params.order)->Ok_0))
            + " LIMIT "@ + decimal_text(p.page_size as nat) + " OFFSET "@ + decimal_text(
            ((p.page - 1) * p.page_size) as nat,
        ),
{
    let fs = Seq::<FilterView>::empty();
    assert(bind_values(fs) =~= Seq::<Seq<char>>::empty());
    assert("SELECT COUNT(*) as count FROM "@ + table + where_text(fs) =~= "SELECT COUNT(*) as count FROM "@
        + table);
}

/// A failed `COUNT` never blocks the data: where the `SELECT` returned rows,
/// the answer is a success that carries them, with no total count.
pub proof fn lemma_count_failure_keeps_data(page: usize, page_size: usize, rows: Seq<RowEntries>)
    requires
        rows.len() > 0,
    ensures
        answer_of(page, page_size, total_count_of(None), Ok(rows)) matches ResponseView::Success {
            data,
            total_count,
            ..
        } && total_count is None && data == rows && data.len() > 0,
{
}

/// A failed `SELECT` is a server error (HTTP 500), whatever the `COUNT` gave.
pub proof fn lemma_select_failure_is_server_error(
    page: usize,
    page_size: usize,
    fetched: Option<Option<i64>>,
    message: Seq<char>,
)
    ensures
        answer_status(answer_of(page, page_size, total_count_of(fetched), Err(message))) == 500,
        answer_of(page, page_size, total_count_of(fetched), Err(message)) is ServerError,
{
}

} // verus!
