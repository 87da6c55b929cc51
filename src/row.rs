//! Decoding of schema-unknown columns into JSON scalars by ordered type
//! probing.
use vstd::prelude::*;
use vstd::string::*;
use crate::text::same_text;

verus! {

/// What extracting one column value as each candidate type gave, in probing
/// order. Floating-point results are carried as their IEEE-754 bits; the
/// decimal, date and date-time results as their canonical text.
#[derive(Clone, Debug)]
pub struct Probe {
    pub int4: Option<i32>,
    pub int8: Option<i64>,
    pub float8: Option<u64>,
    pub float4: Option<u32>,
    pub decimal: Option<String>,
    pub text: Option<String>,
    pub boolean: Option<bool>,
    pub date: Option<String>,
    pub datetime: Option<String>,
}

/// A decoded column value.
#[derive(Clone, Debug)]
pub enum JsonScalar {
    Null,
    /// A JSON number from an integer column.
    Int(i64),
    /// A JSON number from a 64-bit float, given by its bits.
    Float8(u64),
    /// A JSON number from a 32-bit float, given by its bits.
    Float4(u32),
    /// A JSON string.
    Text(String),
    Bool(bool),
}

/// A decoded column value as mathematical text.
pub enum ScalarView {
    Null,
    Int(int),
    Float8(u64),
    Float4(u32),
    Text(Seq<char>),
    Bool(bool),
}

impl View for JsonScalar {
    type V = ScalarView;

    open spec fn view(&self) -> ScalarView {
        match self {
            JsonScalar::Null => ScalarView::Null,
            JsonScalar::Int(v) => ScalarView::Int(*v as int),
            JsonScalar::Float8(b) => ScalarView::Float8(*b),
            JsonScalar::Float4(b) => ScalarView::Float4(*b),
            JsonScalar::Text(s) => ScalarView::Text(s@),
            JsonScalar::Bool(b) => ScalarView::Bool(*b),
        }
    }
}

impl JsonScalar {
    /// Whether this value is a JSON number.
    pub open spec fn is_number(&self) -> bool {
        self is Int || self is Float8 || self is Float4
    }
}

/// The first candidate that extracted, in the fixed order 32-bit integer,
/// 64-bit integer, 64-bit float, 32-bit float, decimal (as text), text,
/// boolean, date (as text), date-time (as text); `null` where none did.
pub open spec fn probe_value(p: Probe) -> ScalarView {
    if p.int4 is Some {
        ScalarView::Int(p.int4->0 as int)
    } else if p.int8 is Some {
        ScalarView::Int(p.int8->0 as int)
    } else if p.float8 is Some {
        ScalarView::Float8(p.float8->0)
    } else if p.float4 is Some {
        ScalarView::Float4(p.float4->0)
    } else if p.decimal is Some {
        ScalarView::Text(p.decimal->0@)
    } else if p.text is Some {
        ScalarView::Text(p.text->0@)
    } else if p.boolean is Some {
        ScalarView::Bool(p.boolean->0)
    } else if p.date is Some {
        ScalarView::Text(p.date->0@)
    } else if p.datetime is Some {
        ScalarView::Text(p.datetime->0@)
    } else {
        ScalarView::Null
    }
}

fn copy_text(s: &String) -> (r: String)
    ensures
        r@ == s@,
{
    s.clone()
}

/// Decodes one column value.
pub fn decode_value(p: &Probe) -> (r: JsonScalar)
    ensures
        r@ == probe_value(*p),
        p.int4 is Some ==> r.is_number() && r == JsonScalar::Int(p.int4->0 as i64),
        p.int4 is None && p.int8 is None && p.float8 is None && p.float4 is None
            && p.decimal is Some ==> r@ == ScalarView::Text(p.decimal->0@),
{
    match p.int4 {
        Some(v) => return JsonScalar::Int(v as i64),
        None => {},
    }
    match p.int8 {
        Some(v) => return JsonScalar::Int(v),
        None => {},
    }
    match p.float8 {
        Some(b) => return JsonScalar::Float8(b),
        None => {},
    }
    match p.float4 {
        Some(b) => return JsonScalar::Float4(b),
        None => {},
    }
    match &p.decimal {
        Some(d) => return JsonScalar::Text(copy_text(d)),
        None => {},
    }
    match &p.text {
        Some(t) => return JsonScalar::Text(copy_text(t)),
        None => {},
    }
    match p.boolean {
        Some(b) => return JsonScalar::Bool(b),
        None => {},
    }
    match &p.date {
        Some(d) => return JsonScalar::Text(copy_text(d)),
        None => {},
    }
    match &p.datetime {
        Some(d) => return JsonScalar::Text(copy_text(d)),
        None => {},
    }
    JsonScalar::Null
}

/// A row as an ordered list of `(column name, value)` entries.
pub type RowEntries = Seq<(Seq<char>, ScalarView)>;

/// Position of the entry named `k`, if any.
pub open spec fn key_index(entries: RowEntries, k: Seq<char>) -> Option<int>
    decreases entries.len(),
{
    if entries.len() == 0 {
        None
    } else if entries.last().0 == k {
        Some(entries.len() - 1)
    } else {
        key_index(entries.drop_last(), k)
    }
}

/// Sets `k` to `v`: an existing entry of that name is overwritten in place,
/// otherwise the entry is added at the end.
pub open spec fn set_entry(entries: RowEntries, k: Seq<char>, v: ScalarView) -> RowEntries {
    match key_index(entries, k) {
        Some(i) => entries.update(i, (k, v)),
        None => entries.push((k, v)),
    }
}

/// The row that the columns decode to, the columns taken in order, so that of
/// two columns with one name the later one's value stays.
pub open spec fn decoded_row(columns: Seq<(String, Probe)>) -> RowEntries
    decreases columns.len(),
{
    if columns.len() == 0 {
        Seq::empty()
    } else {
        set_entry(
            decoded_row(columns.drop_last()),
            columns.last().0@,
            probe_value(columns.last().1),
        )
    }
}

pub open spec fn row_view(row: Seq<(String, JsonScalar)>) -> RowEntries {
    row.map_values(|e: (String, JsonScalar)| (e.0@, e.1@))
}

fn find_entry(row: &Vec<(String, JsonScalar)>, k: &str) -> (r: Option<usize>)
    ensures
        r matches Some(i) ==> key_index(row_view(row@), k@) == Some(i as int) && i < row.len(),
        r is None ==> key_index(row_view(row@), k@) is None,
{
    let mut i: usize = row.len();
    assert(row_view(row@).take(i as int) =~= row_view(row@));
    while i > 0
        invariant
            i <= row.len(),
            key_index(row_view(row@), k@) == key_index(row_view(row@).take(i as int), k@),
        decreases i,
    {
        let ghost prefix = row_view(row@).take(i as int);
        assert(prefix.drop_last() =~= row_view(row@).take(i - 1));
        if same_text(row[i - 1].0.as_str(), k) {
            return Some(i - 1);
        }
        i = i - 1;
    }
    None
}

/// Decodes a row given, column by column, as its name and its probe.
pub fn decode_row(columns: &Vec<(String, Probe)>) -> (r: Vec<(String, JsonScalar)>)
    ensures
        row_view(r@) == decoded_row(columns@),
{
    let mut row: Vec<(String, JsonScalar)> = Vec::new();
    let mut i: usize = 0;
    assert(columns@.take(0) =~= Seq::<(String, Probe)>::empty());
    assert(row_view(row@) =~= Seq::<(Seq<char>, ScalarView)>::empty());
    while i < columns.len()
        invariant
            i <= columns.len(),
            row_view(row@) == decoded_row(columns@.take(i as int)),
        decreases columns.len() - i,
    {
        let ghost before = row_view(row@);
        assert(columns@.take(i + 1).drop_last() =~= columns@.take(i as int));
        assert(columns@.take(i + 1).last() == columns@[i as int]);
        let name = &columns[i].0;
        let value = decode_value(&columns[i].1);
        match find_entry(&row, name.as_str()) {
            Some(j) => {
                let ghost v = value@;
                row.set(j, (copy_text(name), value));
                assert(row_view(row@) =~= before.update(j as int, (name@, v)));
            },
            None => {
                let ghost v = value@;
                row.push((copy_text(name), value));
                assert(row_view(row@) =~= before.push((name@, v)));
            },
        }
        i = i + 1;
    }
    assert(columns@.take(columns.len() as int) =~= columns@);
    row
}

pub open spec fn opt_text_view(t: Option<String>) -> Option<Seq<char>> {
    match t {
        Some(s) => Some(s@),
        None => None,
    }
}

/// Two probes that found the same stored value.
pub open spec fn same_probe(p: Probe, q: Probe) -> bool {
    &&& p.int4 == q.int4
    &&& p.int8 == q.int8
    &&& p.float8 == q.float8
    &&& p.float4 == q.float4
    &&& opt_text_view(p.decimal) == opt_text_view(q.decimal)
    &&& opt_text_view(p.text) == opt_text_view(q.text)
    &&& p.boolean == q.boolean
    &&& opt_text_view(p.date) == opt_text_view(q.date)
    &&& opt_text_view(p.datetime) == opt_text_view(q.datetime)
}

/// Two rows with the same column names holding the same stored values.
pub open spec fn same_columns(a: Seq<(String, Probe)>, b: Seq<(String, Probe)>) -> bool {
    &&& a.len() == b.len()
    &&& forall|i: int|
        0 <= i < a.len() ==> #[trigger] a[i].0@ == b[i].0@ && same_probe(a[i].1, b[i].1)
}

/// Decoding is stable: decoding the same stored values again gives the same
/// JSON row.
pub proof fn lemma_decoding_is_stable(a: Seq<(String, Probe)>, b: Seq<(String, Probe)>)
    requires
        same_columns(a, b),
    ensures
        decoded_row(a) == decoded_row(b),
    decreases a.len(),
{
    if a.len() > 0 {
        assert(same_columns(a.drop_last(), b.drop_last())) by {
            assert forall|i: int| 0 <= i < a.drop_last().len() implies #[trigger] a.drop_last()[i].0@
                == b.drop_last()[i].0@ && same_probe(a.drop_last()[i].1, b.drop_last()[i].1) by {
                assert(a[i].0@ == b[i].0@);
            }
        }
        lemma_decoding_is_stable(a.drop_last(), b.drop_last());
        assert(a.last().0@ == b.last().0@ && same_probe(a.last().1, b.last().1)) by {
            assert(a[a.len() - 1].0@ == b[a.len() - 1].0@);
        }
    }
}

} // verus!
