//! Parsing of `column operator value` filter expressions.
use vstd::prelude::*;
use vstd::string::*;
use crate::error::FilterError;
use crate::text::same_text;

verus! {

/// A comparison operator of a filter.
#[derive(Clone, Copy, Debug, PartialEq, Eq, Structural)]
pub enum FilterOp {
    Ge,
    Le,
    Ne,
    Eq,
    Gt,
    Lt,
}

pub open spec fn op_text(op: FilterOp) -> Seq<char> {
    match op {
        FilterOp::Ge => ">="@,
        FilterOp::Le => "<="@,
        FilterOp::Ne => "!="@,
        FilterOp::Eq => "="@,
        FilterOp::Gt => ">"@,
        FilterOp::Lt => "<"@,
    }
}

impl FilterOp {
    /// The operator as written in a filter and in SQL.
    pub fn symbol(&self) -> (r: &'static str)
        ensures
            r@ == op_text(*self),
    {
        match self {
            FilterOp::Ge => ">=",
            FilterOp::Le => "<=",
            FilterOp::Ne => "!=",
            FilterOp::Eq => "=",
            FilterOp::Gt => ">",
            FilterOp::Lt => "<",
        }
    }
}

/// A parsed filter: the raw column name, the operator and the raw value.
pub struct FilterCondition {
    pub column: String,
    pub operator: FilterOp,
    pub value: String,
}

/// A filter as mathematical text.
pub struct FilterView {
    pub column: Seq<char>,
    pub operator: FilterOp,
    pub value: Seq<char>,
}

impl View for FilterCondition {
    type V = FilterView;

    open spec fn view(&self) -> FilterView {
        FilterView { column: self.column@, operator: self.operator, value: self.value@ }
    }
}

pub open spec fn filter_result_view(r: Result<FilterCondition, FilterError>) -> Result<
    FilterView,
    FilterError,
> {
    match r {
        Ok(c) => Ok(c@),
        Err(e) => Err(e),
    }
}

pub open spec fn filters_view(v: Seq<FilterCondition>) -> Seq<FilterView> {
    v.map_values(|c: FilterCondition| c@)
}

pub open spec fn filters_result_view(r: Result<Vec<FilterCondition>, FilterError>) -> Result<
    Seq<FilterView>,
    FilterError,
> {
    match r {
        Ok(v) => Ok(filters_view(v@)),
        Err(e) => Err(e),
    }
}

// ---------------------------------------------------------------- searching

pub open spec fn occurs_at(s: Seq<char>, p: Seq<char>, i: int) -> bool {
    0 <= i && i + p.len() <= s.len() && s.subrange(i, i + p.len()) == p
}

/// Leftmost position at or after `i` where `p` occurs in `s`.
pub open spec fn find_from(s: Seq<char>, p: Seq<char>, i: int) -> Option<int>
    decreases s.len() + 1 - i,
{
    if i < 0 || i + p.len() > s.len() {
        None
    } else if occurs_at(s, p, i) {
        Some(i)
    } else {
        find_from(s, p, i + 1)
    }
}

/// Leftmost position where `p` occurs in `s`.
pub open spec fn find_text(s: Seq<char>, p: Seq<char>) -> Option<int> {
    find_from(s, p, 0)
}

fn occurs_at_exec(s: &str, n: usize, p: &str, m: usize, i: usize) -> (r: bool)
    requires
        n == s@.len(),
        m == p@.len(),
        i + m <= n,
    ensures
        r == occurs_at(s@, p@, i as int),
{
    let mut k: usize = 0;
    while k < m
        invariant
            n == s@.len(),
            m == p@.len(),
            i + m <= n,
            k <= m,
            forall|j: int| 0 <= j < k ==> s@[i + j] == p@[j],
        decreases m - k,
    {
        if s.get_char(i + k) != p.get_char(k) {
            assert(s@.subrange(i as int, i + m)[k as int] != p@[k as int]);
            return false;
        }
        k = k + 1;
    }
    assert(s@.subrange(i as int, i + m) =~= p@);
    true
}

/// Leftmost position of `p` in `s`, counted in characters.
pub fn find_in(s: &str, p: &str) -> (r: Option<usize>)
    ensures
        r matches Some(i) ==> find_text(s@, p@) == Some(i as int),
        r is None ==> find_text(s@, p@) is None,
{
    let n = s.unicode_len();
    let m = p.unicode_len();
    if m > n {
        return None;
    }
    if m == 0 {
        assert(s@.subrange(0, 0) =~= p@);
        return Some(0);
    }
    let mut i: usize = 0;
    while i <= n - m
        invariant
            n == s@.len(),
            m == p@.len(),
            1 <= m <= n,
            i <= n - m + 1,
            find_from(s@, p@, 0) == find_from(s@, p@, i as int),
        decreases n + 1 - i,
    {
        if occurs_at_exec(s, n, p, m, i) {
            return Some(i);
        }
        i = i + 1;
    }
    None
}

// ---------------------------------------------------------------- trimming

/// Unicode `White_Space`, the characters that `char::is_whitespace` accepts.
pub open spec fn is_white_space(c: char) -> bool {
    ('\u{9}' <= c && c <= '\u{d}') || c == ' ' || c == '\u{85}' || c == '\u{a0}'
        || c == '\u{1680}' || ('\u{2000}' <= c && c <= '\u{200a}') || c == '\u{2028}'
        || c == '\u{2029}' || c == '\u{202f}' || c == '\u{205f}' || c == '\u{3000}'
}

pub open spec fn trim_start(s: Seq<char>) -> Seq<char>
    decreases s.len(),
{
    if s.len() > 0 && is_white_space(s[0]) {
        trim_start(s.drop_first())
    } else {
        s
    }
}

pub open spec fn trim_end(s: Seq<char>) -> Seq<char>
    decreases s.len(),
{
    if s.len() > 0 && is_white_space(s.last()) {
        trim_end(s.drop_last())
    } else {
        s
    }
}

/// `s` without its leading and trailing white space.
pub open spec fn trimmed(s: Seq<char>) -> Seq<char> {
    trim_end(trim_start(s))
}

/// Relies on `str::trim`: removes leading and trailing `White_Space` characters.
#[verifier::external_body]
fn trim_text(s: &str) -> (r: &str)
    ensures
        r@ == trimmed(s@),
{
    s.trim()
}

// ---------------------------------------------------------------- decoding

/// What `urlencoding::decode` gives for a text: `None` where the decoded
/// bytes are not UTF-8.
pub uninterp spec fn url_decoded(s: Seq<char>) -> Option<Seq<char>>;

/// Relies on `urlencoding::decode`: percent-decodes, and fails only where the
/// decoded bytes are not UTF-8.
#[verifier::external_body]
fn url_decode(s: &str) -> (r: Option<String>)
    ensures
        r matches Some(d) ==> url_decoded(s@) == Some(d@),
        r is None ==> url_decoded(s@) is None,
{
    match urlencoding::decode(s) {
        Ok(d) => Some(d.into_owned()),
        Err(_) => None,
    }
}

// ---------------------------------------------------------------- parsing

/// The operator that a decoded filter uses and where it stands: the operators
/// are tried in the order `>=`, `<=`, `!=`, `=`, `>`, `<`, and the first that
/// occurs anywhere wins, at its leftmost occurrence.
pub open spec fn operator_of(s: Seq<char>) -> Option<(FilterOp, int)> {
    if find_text(s, ">="@) is Some {
        Some((FilterOp::Ge, find_text(s, ">="@)->0))
    } else if find_text(s, "<="@) is Some {
        Some((FilterOp::Le, find_text(s, "<="@)->0))
    } else if find_text(s, "!="@) is Some {
        Some((FilterOp::Ne, find_text(s, "!="@)->0))
    } else if find_text(s, "="@) is Some {
        Some((FilterOp::Eq, find_text(s, "="@)->0))
    } else if find_text(s, ">"@) is Some {
        Some((FilterOp::Gt, find_text(s, ">"@)->0))
    } else if find_text(s, "<"@) is Some {
        Some((FilterOp::Lt, find_text(s, "<"@)->0))
    } else {
        None
    }
}

/// The filter that an already decoded expression stands for.
pub open spec fn parse_decoded(s: Seq<char>) -> Result<FilterView, FilterError> {
    match operator_of(s) {
        None => Err(FilterError::NoOperatorFound),
        Some((op, pos)) => {
            let column = trimmed(s.subrange(0, pos));
            let value = trimmed(s.subrange(pos + op_text(op).len(), s.len() as int));
            if column.len() == 0 || value.len() == 0 {
                Err(FilterError::InvalidFormat)
            } else {
                Ok(FilterView { column, operator: op, value })
            }
        },
    }
}

/// The filter that a percent-encoded expression stands for.
pub open spec fn parse_one(raw: Seq<char>) -> Result<FilterView, FilterError> {
    match url_decoded(raw) {
        None => Err(FilterError::DecodeError),
        Some(d) => parse_decoded(d),
    }
}

fn locate_operator(s: &str) -> (r: Option<(FilterOp, usize)>)
    ensures
        r matches Some((op, pos)) ==> operator_of(s@) == Some((op, pos as int)),
        r is None ==> operator_of(s@) is None,
{
    if let Some(p) = find_in(s, ">=") {
        return Some((FilterOp::Ge, p));
    }
    if let Some(p) = find_in(s, "<=") {
        return Some((FilterOp::Le, p));
    }
    if let Some(p) = find_in(s, "!=") {
        return Some((FilterOp::Ne, p));
    }
    if let Some(p) = find_in(s, "=") {
        return Some((FilterOp::Eq, p));
    }
    if let Some(p) = find_in(s, ">") {
        return Some((FilterOp::Gt, p));
    }
    if let Some(p) = find_in(s, "<") {
        return Some((FilterOp::Lt, p));
    }
    None
}

/// Parses one filter that is already percent-decoded.
pub fn parse_decoded_filter(s: &str) -> (r: Result<FilterCondition, FilterError>)
    ensures
        filter_result_view(r) == parse_decoded(s@),
{
    match locate_operator(s) {
        None => Err(FilterError::NoOperatorFound),
        Some((op, pos)) => {
            let sym = op.symbol();
            let n = s.unicode_len();
            let len = sym.unicode_len();
            proof {
                assert(find_text(s@, op_text(op)) == Some(pos as int));
                assert(occurs_at(s@, op_text(op), pos as int)) by {
                    lemma_find_from_occurs(s@, op_text(op), 0);
                }
            }
            let column = trim_text(s.substring_char(0, pos));
            let value = trim_text(s.substring_char(pos + len, n));
            if column.unicode_len() == 0 || value.unicode_len() == 0 {
                Err(FilterError::InvalidFormat)
            } else {
                Ok(FilterCondition {
                    column: String::from_str(column),
                    operator: op,
                    value: String::from_str(value),
                })
            }
        },
    }
}

proof fn lemma_find_from_occurs(s: Seq<char>, p: Seq<char>, i: int)
    ensures
        find_from(s, p, i) matches Some(k) ==> occurs_at(s, p, k) && i <= k,
    decreases s.len() + 1 - i,
{
    if i < 0 || i + p.len() > s.len() {
    } else if occurs_at(s, p, i) {
    } else {
        lemma_find_from_occurs(s, p, i + 1);
    }
}

/// Parses one percent-encoded filter expression.
pub fn parse_filter(raw: &str) -> (r: Result<FilterCondition, FilterError>)
    ensures
        filter_result_view(r) == parse_one(raw@),
{
    match url_decode(raw) {
        None => Err(FilterError::DecodeError),
        Some(d) => parse_decoded_filter(d.as_str()),
    }
}

// ---------------------------------------------------------------- several filters

/// Pieces of `s` between `&` characters, scanning from `i` with the current
/// piece starting at `start`.
pub open spec fn pieces_from(s: Seq<char>, start: int, i: int) -> Seq<Seq<char>>
    decreases s.len() - i,
{
    if i >= s.len() {
        seq![s.subrange(start, s.len() as int)]
    } else if s[i] == '&' {
        seq![s.subrange(start, i)] + pieces_from(s, i + 1, i + 1)
    } else {
        pieces_from(s, start, i + 1)
    }
}

/// `s` split at every `&`; there is no escape for a literal `&`.
pub open spec fn split_amp(s: Seq<char>) -> Seq<Seq<char>> {
    pieces_from(s, 0, 0)
}

/// Each piece parsed as a percent-encoded filter, in order; the first piece
/// that fails decides the error.
pub open spec fn parse_all(parts: Seq<Seq<char>>) -> Result<Seq<FilterView>, FilterError>
    decreases parts.len(),
{
    if parts.len() == 0 {
        Ok(Seq::empty())
    } else {
        match parse_all(parts.drop_last()) {
            Err(e) => Err(e),
            Ok(done) => match parse_one(parts.last()) {
                Err(e) => Err(e),
                Ok(c) => Ok(done.push(c)),
            },
        }
    }
}

/// The filters that a percent-encoded, `&`-joined expression stands for: it is
/// decoded as a whole, split at `&`, and each piece is then read by
/// `parse_one`.
pub open spec fn parse_many(raw: Seq<char>) -> Result<Seq<FilterView>, FilterError> {
    match url_decoded(raw) {
        None => Err(FilterError::DecodeError),
        Some(d) => parse_all(split_amp(d)),
    }
}

pub open spec fn texts_view(v: Seq<String>) -> Seq<Seq<char>> {
    v.map_values(|t: String| t@)
}

/// Splits `s` at every `&`.
pub fn split_filters(s: &str) -> (r: Vec<String>)
    ensures
        texts_view(r@) == split_amp(s@),
{
    let n = s.unicode_len();
    let mut parts: Vec<String> = Vec::new();
    let mut start: usize = 0;
    let mut i: usize = 0;
    while i < n
        invariant
            n == s@.len(),
            start <= i <= n,
            texts_view(parts@) + pieces_from(s@, start as int, i as int) == split_amp(s@),
        decreases n - i,
    {
        if s.get_char(i) == '&' {
            let piece = String::from_str(s.substring_char(start, i));
            proof {
                let rest = pieces_from(s@, i + 1, i + 1);
                assert(texts_view(parts@.push(piece)) =~= texts_view(parts@).push(piece@));
                assert(texts_view(parts@).push(piece@) + rest =~= texts_view(parts@) + (seq![
                    piece@,
                ] + rest));
            }
            parts.push(piece);
            start = i + 1;
        }
        i = i + 1;
    }
    let last = String::from_str(s.substring_char(start, n));
    proof {
        assert(texts_view(parts@.push(last)) =~= texts_view(parts@) + seq![last@]);
    }
    parts.push(last);
    parts
}

proof fn lemma_parse_all_first_error(parts: Seq<Seq<char>>, k: int)
    requires
        0 <= k <= parts.len(),
        parse_all(parts.take(k)) is Err,
    ensures
        parse_all(parts) == parse_all(parts.take(k)),
    decreases parts.len() - k,
{
    if k == parts.len() {
        assert(parts.take(k) =~= parts);
    } else {
        assert(parts.drop_last().take(k) =~= parts.take(k));
        lemma_parse_all_first_error(parts.drop_last(), k);
    }
}

/// Parses a percent-encoded expression of one or more filters joined by `&`.
pub fn parse_multiple_filters(raw: &str) -> (r: Result<Vec<FilterCondition>, FilterError>)
    ensures
        filters_result_view(r) == parse_many(raw@),
{
    let decoded = match url_decode(raw) {
        None => return Err(FilterError::DecodeError),
        Some(d) => d,
    };
    let parts = split_filters(decoded.as_str());
    let ghost pieces = split_amp(decoded@);
    let mut conditions: Vec<FilterCondition> = Vec::new();
    let mut i: usize = 0;
    assert(pieces.take(0) =~= Seq::<Seq<char>>::empty());
    assert(filters_view(conditions@) =~= Seq::<FilterView>::empty());
    while i < parts.len()
        invariant
            url_decoded(raw@) == Some(decoded@),
            pieces == split_amp(decoded@),
            texts_view(parts@) == pieces,
            i <= parts.len(),
            parse_all(pieces.take(i as int)) == Ok::<Seq<FilterView>, FilterError>(filters_view(conditions@)),
        decreases parts.len() - i,
    {
        let ghost before = conditions@;
        assert(pieces.take(i + 1).drop_last() =~= pieces.take(i as int));
        assert(pieces.take(i + 1).last() == parts@[i as int]@);
        match parse_filter(parts[i].as_str()) {
            Err(e) => {
                proof {
                    assert(parse_all(pieces.take(i + 1)) == Err::<Seq<FilterView>, FilterError>(e));
                    lemma_parse_all_first_error(pieces, i + 1);
                }
                return Err(e);
            },
            Ok(c) => {
                conditions.push(c);
                assert(filters_view(conditions@) =~= filters_view(before).push(c@));
            },
        }
        i = i + 1;
    }
    assert(pieces.take(parts.len() as int) =~= pieces);
    Ok(conditions)
}

/// The longer operators are tried before `=`: an expression that holds `>=`,
/// `<=` or `!=` is never read as an equality.
pub proof fn lemma_longer_operators_first(s: Seq<char>)
    ensures
        parse_decoded(s) matches Ok(f) && f.operator == FilterOp::Eq ==> find_text(s, ">="@) is None
            && find_text(s, "<="@) is None && find_text(s, "!="@) is None,
{
}

} // verus!
