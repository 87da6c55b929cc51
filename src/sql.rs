//! Composition of the parameterised `COUNT` and `SELECT` statements.
//!
//! Identifiers reach the SQL text only as [`Ident`]s, which passed the
//! allow-list check; filter values never do: they are bound as `$1..$n`.
use vstd::prelude::*;
use vstd::string::*;
use crate::filter::{FilterOp, FilterView, op_text, texts_view};
use crate::ident::{Ident, SortOrder, sort_keyword};
use crate::text::{decimal_text, push_decimal};

verus! {

/// Largest number of rows on one page.
pub const MAX_PAGE_SIZE: usize = 1000;

/// Page size when none, or zero, is asked for.
pub const DEFAULT_PAGE_SIZE: usize = 100;

/// Which slice of the result set is wanted.
pub struct Pagination {
    /// 1-based page number.
    pub page: usize,
    /// Rows per page.
    pub page_size: usize,
}

impl Pagination {
    pub open spec fn wf(&self) -> bool {
        self.page >= 1 && 1 <= self.page_size <= MAX_PAGE_SIZE
    }

    /// Rows skipped before this page.
    pub open spec fn spec_offset(&self) -> int {
        (self.page - 1) * self.page_size
    }

    /// Rows skipped before this page: `(page - 1) * page_size`.
    pub fn offset(&self) -> (r: u128)
        requires
            self.wf(),
        ensures
            r == self.spec_offset(),
    {
        let p = (self.page - 1) as u128;
        let s = self.page_size as u128;
        assert(p * s <= p * 1000) by (nonlinear_arith)
            requires
                s <= 1000,
        ;
        p * s
    }
}

/// The page asked for: absent or zero means the first.
pub open spec fn page_of(page: Option<usize>) -> usize {
    match page {
        Some(p) => if p >= 1 { p } else { 1 },
        None => 1,
    }
}

/// The page size asked for, capped at the maximum: absent or zero means the
/// default.
pub open spec fn page_size_of(page_size: Option<usize>) -> usize {
    match page_size {
        Some(s) => if s == 0 {
            DEFAULT_PAGE_SIZE
        } else if s > MAX_PAGE_SIZE {
            MAX_PAGE_SIZE
        } else {
            s
        },
        None => DEFAULT_PAGE_SIZE,
    }
}

/// Resolves the requested page and page size.
pub fn resolve_pagination(page: Option<usize>, page_size: Option<usize>) -> (r: Pagination)
    ensures
        r.wf(),
        r.page == page_of(page),
        r.page_size == page_size_of(page_size),
{
    let page = match page {
        Some(p) => if p >= 1 { p } else { 1 },
        None => 1,
    };
    let page_size = match page_size {
        Some(s) => if s == 0 {
            DEFAULT_PAGE_SIZE
        } else if s > MAX_PAGE_SIZE {
            MAX_PAGE_SIZE
        } else {
            s
        },
        None => DEFAULT_PAGE_SIZE,
    };
    Pagination { page, page_size }
}

/// A filter whose column passed the allow-list check.
pub struct Predicate {
    pub column: Ident,
    pub operator: FilterOp,
    pub value: String,
}

impl View for Predicate {
    type V = FilterView;

    open spec fn view(&self) -> FilterView {
        FilterView { column: self.column@, operator: self.operator, value: self.value@ }
    }
}

pub open spec fn predicates_view(v: Seq<Predicate>) -> Seq<FilterView> {
    v.map_values(|p: Predicate| p@)
}

/// The values to bind, in filter order.
pub open spec fn bind_values(fs: Seq<FilterView>) -> Seq<Seq<char>> {
    fs.map_values(|f: FilterView| f.value)
}

/// The sort column and its direction.
pub struct SortKey {
    pub column: Ident,
    pub order: SortOrder,
}

pub open spec fn sort_view(s: Option<SortKey>) -> Option<(Seq<char>, SortOrder)> {
    match s {
        Some(k) => Some((k.column@, k.order)),
        None => None,
    }
}

/// The `k`-th condition (1-based): both sides are compared as text.
pub open spec fn condition_text(f: FilterView, k: nat) -> Seq<char> {
    f.column + "::text "@ + op_text(f.operator) + " $"@ + decimal_text(k) + "::text"@
}

/// The conditions joined by `AND`.
pub open spec fn conditions_text(fs: Seq<FilterView>) -> Seq<char>
    decreases fs.len(),
{
    if fs.len() == 0 {
        Seq::empty()
    } else if fs.len() == 1 {
        condition_text(fs[0], 1)
    } else {
        conditions_text(fs.drop_last()) + " AND "@ + condition_text(fs.last(), fs.len())
    }
}

/// The `WHERE` clause, empty where there is no filter.
pub open spec fn where_text(fs: Seq<FilterView>) -> Seq<char> {
    if fs.len() == 0 {
        Seq::empty()
    } else {
        " WHERE "@ + conditions_text(fs)
    }
}

/// The `ORDER BY` clause, empty where no sort column is given.
pub open spec fn order_by_text(sort: Option<(Seq<char>, SortOrder)>) -> Seq<char> {
    match sort {
        Some((c, o)) => " ORDER BY "@ + c + " "@ + sort_keyword(o),
        None => Seq::empty(),
    }
}

pub open spec fn count_statement(table: Seq<char>, fs: Seq<FilterView>) -> Seq<char> {
    "SELECT COUNT(*) as count FROM "@ + table + where_text(fs)
}

pub open spec fn select_statement(
    table: Seq<char>,
    fs: Seq<FilterView>,
    sort: Option<(Seq<char>, SortOrder)>,
    page_size: nat,
    offset: nat,
) -> Seq<char> {
    "SELECT * FROM "@ + table + where_text(fs) + order_by_text(sort) + " LIMIT "@ + decimal_text(
        page_size,
    ) + " OFFSET "@ + decimal_text(offset)
}

/// The two statements of a request and the values bound to both.
pub struct Statements {
    pub count_sql: String,
    pub select_sql: String,
    pub binds: Vec<String>,
}

fn push_condition(out: &mut String, p: &Predicate, k: u128)
    ensures
        final(out)@ == old(out)@ + condition_text(p@, k as nat),
{
    out.append(p.column.as_str());
    out.append("::text ");
    out.append(p.operator.symbol());
    out.append(" $");
    push_decimal(out, k);
    out.append("::text");
    assert(final(out)@ =~= old(out)@ + condition_text(p@, k as nat));
}

/// Renders the `WHERE` clause of the filters.
pub fn where_clause(filters: &Vec<Predicate>) -> (r: String)
    ensures
        r@ == where_text(predicates_view(filters@)),
{
    let ghost fs = predicates_view(filters@);
    let mut out = String::new();
    if filters.len() == 0 {
        return out;
    }
    out.append(" WHERE ");
    let mut i: usize = 0;
    while i < filters.len()
        invariant
            fs == predicates_view(filters@),
            i <= filters.len(),
            out@ == " WHERE "@ + conditions_text(fs.take(i as int)),
        decreases filters.len() - i,
    {
        let ghost before = out@;
        assert(fs.take(i + 1).drop_last() =~= fs.take(i as int));
        assert(fs.take(i + 1).last() == filters@[i as int]@);
        if i > 0 {
            out.append(" AND ");
        } else {
            assert(fs.take(0) =~= Seq::<FilterView>::empty());
        }
        push_condition(&mut out, &filters[i], (i + 1) as u128);
        assert(out@ =~= " WHERE "@ + conditions_text(fs.take(i + 1)));
        i = i + 1;
    }
    assert(fs.take(filters.len() as int) =~= fs);
    out
}

/// Builds the `COUNT` and the paginated `SELECT` of a table, with the filter
/// values to bind to `$1..$n` of both.
pub fn build_statements(
    table: &Ident,
    filters: &Vec<Predicate>,
    sort: &Option<SortKey>,
    pagination: &Pagination,
) -> (r: Statements)
    requires
        pagination.wf(),
    ensures
        r.count_sql@ == count_statement(table@, predicates_view(filters@)),
        r.select_sql@ == select_statement(
            table@,
            predicates_view(filters@),
            sort_view(*sort),
            pagination.page_size as nat,
            pagination.spec_offset() as nat,
        ),
        texts_view(r.binds@) == bind_values(predicates_view(filters@)),
        filters.len() == 0 ==> r.count_sql@ == "SELECT COUNT(*) as count FROM "@ + table@,
        filters.len() == 0 ==> r.binds.len() == 0,
{
    let where_part = where_clause(filters);

    let mut count_sql = String::from_str("SELECT COUNT(*) as count FROM ");
    count_sql.append(table.as_str());
    count_sql.append(where_part.as_str());

    let mut select_sql = String::from_str("SELECT * FROM ");
    select_sql.append(table.as_str());
    select_sql.append(where_part.as_str());
    match sort {
        Some(k) => {
            select_sql.append(" ORDER BY ");
            select_sql.append(k.column.as_str());
            select_sql.append(" ");
            select_sql.append(k.order.keyword());
        },
        None => {},
    }
    select_sql.append(" LIMIT ");
    push_decimal(&mut select_sql, pagination.page_size as u128);
    select_sql.append(" OFFSET ");
    push_decimal(&mut select_sql, pagination.offset());

    let mut binds: Vec<String> = Vec::new();
    let mut i: usize = 0;
    while i < filters.len()
        invariant
            i <= filters.len(),
            texts_view(binds@) == bind_values(predicates_view(filters@)).take(i as int),
        decreases filters.len() - i,
    {
        let ghost before = binds@;
        let v = filters[i].value.clone();
        assert(v@ == filters@[i as int].value@);
        binds.push(v);
        assert(texts_view(binds@) =~= texts_view(before).push(v@));
        assert(texts_view(binds@) =~= bind_values(predicates_view(filters@)).take(i + 1));
        i = i + 1;
    }
    assert(bind_values(predicates_view(filters@)).take(filters.len() as int) =~= bind_values(
        predicates_view(filters@),
    ));
    assert(count_sql@ =~= count_statement(table@, predicates_view(filters@)));
    assert(select_sql@ =~= select_statement(
        table@,
        predicates_view(filters@),
        sort_view(*sort),
        pagination.page_size as nat,
        pagination.spec_offset() as nat,
    ));
    Statements { count_sql, select_sql, binds }
}

} // verus!
