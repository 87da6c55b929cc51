//! Allow-list validation of table and column names.
use vstd::prelude::*;
use vstd::string::*;
use crate::error::QueryError;
use crate::text::same_text;

verus! {

/// A character that may appear in a table or column name.
pub open spec fn is_ident_char(c: char) -> bool {
    ('a' <= c && c <= 'z') || ('A' <= c && c <= 'Z') || ('0' <= c && c <= '9') || c == '_'
}

/// A name made only of ASCII letters, digits and underscores.
pub open spec fn is_identifier(s: Seq<char>) -> bool {
    forall|i: int| 0 <= i < s.len() ==> is_ident_char(#[trigger] s[i])
}

fn ident_char(c: char) -> (r: bool)
    ensures
        r == is_ident_char(c),
{
    ('a' <= c && c <= 'z') || ('A' <= c && c <= 'Z') || ('0' <= c && c <= '9') || c == '_'
}

/// Whether every character of `s` is allowed in a name.
pub fn check_identifier(s: &str) -> (r: bool)
    ensures
        r == is_identifier(s@),
{
    let n = s.unicode_len();
    let mut i: usize = 0;
    while i < n
        invariant
            n == s@.len(),
            i <= n,
            forall|j: int| 0 <= j < i ==> is_ident_char(#[trigger] s@[j]),
        decreases n - i,
    {
        if !ident_char(s.get_char(i)) {
            return false;
        }
        i = i + 1;
    }
    true
}

/// A table or column name that passed the allow-list check, and so may be
/// written into SQL text as it stands.
pub struct Ident {
    name: String,
}

impl View for Ident {
    type V = Seq<char>;

    closed spec fn view(&self) -> Seq<char> {
        self.name@
    }
}

impl Ident {
    /// Every name of this type passed the allow-list check.
    #[verifier::type_invariant]
    spec fn inv(&self) -> bool {
        is_identifier(self.name@)
    }

    /// Validates `s` as a name.
    pub fn new(s: &str) -> (r: Option<Ident>)
        ensures
            r is Some <==> is_identifier(s@),
            r matches Some(id) ==> id@ == s@,
    {
        if check_identifier(s) {
            Some(Ident { name: String::from_str(s) })
        } else {
            None
        }
    }

    /// The name as text; it is always a valid identifier.
    pub fn as_str(&self) -> (r: &str)
        ensures
            r@ == self@,
            is_identifier(r@),
    {
        proof {
            use_type_invariant(self);
        }
        self.name.as_str()
    }
}

} // verus!

verus! {

/// Validates a table name.
pub fn sanitize_table_name(table: &str) -> (r: Result<Ident, QueryError>)
    ensures
        r is Ok <==> is_identifier(table@),
        r matches Ok(id) ==> id@ == table@,
        r matches Err(e) ==> e == QueryError::InvalidTableName,
{
    match Ident::new(table) {
        Some(id) => Ok(id),
        None => Err(QueryError::InvalidTableName),
    }
}

/// Validates a column name (of a filter, or the sort column).
pub fn sanitize_column_name(column: &str) -> (r: Result<Ident, QueryError>)
    ensures
        r is Ok <==> is_identifier(column@),
        r matches Ok(id) ==> id@ == column@,
        r matches Err(e) ==> e == QueryError::InvalidColumnName,
{
    match Ident::new(column) {
        Some(id) => Ok(id),
        None => Err(QueryError::InvalidColumnName),
    }
}

/// Direction of an `ORDER BY`.
#[derive(Clone, Copy, Debug, PartialEq, Eq, Structural)]
pub enum SortOrder {
    Asc,
    Desc,
}

pub open spec fn sort_keyword(o: SortOrder) -> Seq<char> {
    match o {
        SortOrder::Asc => "ASC"@,
        SortOrder::Desc => "DESC"@,
    }
}

impl SortOrder {
    /// The SQL keyword.
    pub fn keyword(&self) -> (r: &'static str)
        ensures
            r@ == sort_keyword(*self),
    {
        match self {
            SortOrder::Asc => "ASC",
            SortOrder::Desc => "DESC",
        }
    }
}

/// What an upper-cased order token stands for.
pub open spec fn order_of_upper(u: Seq<char>) -> Result<SortOrder, QueryError> {
    if u == "ASC"@ {
        Ok(SortOrder::Asc)
    } else if u == "DESC"@ {
        Ok(SortOrder::Desc)
    } else {
        Err(QueryError::InvalidSortOrder)
    }
}

/// The result of `str::to_uppercase` on a text.
pub uninterp spec fn upper_of(s: Seq<char>) -> Seq<char>;

/// Relies on `str::to_uppercase`: its result depends on the characters alone.
#[verifier::external_body]
fn to_upper(s: &str) -> (r: String)
    ensures
        r@ == upper_of(s@),
{
    s.to_uppercase()
}

/// Reads an already upper-cased order token.
pub fn sort_order_from_upper(upper: &str) -> (r: Result<SortOrder, QueryError>)
    ensures
        r == order_of_upper(upper@),
{
    if same_text(upper, "ASC") {
        Ok(SortOrder::Asc)
    } else if same_text(upper, "DESC") {
        Ok(SortOrder::Desc)
    } else {
        Err(QueryError::InvalidSortOrder)
    }
}

/// Reads an order token case-insensitively: it must upper-case to `ASC` or
/// `DESC`.
pub fn validate_sort_order(order: &str) -> (r: Result<SortOrder, QueryError>)
    ensures
        r == order_of_upper(upper_of(order@)),
{
    let upper = to_upper(order);
    sort_order_from_upper(upper.as_str())
}

} // verus!
