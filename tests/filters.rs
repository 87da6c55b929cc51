use table_query::error::{FilterError, QueryError};
use table_query::filter::{parse_decoded_filter, parse_filter, parse_multiple_filters, split_filters, find_in, FilterOp};

#[test]
fn greater_or_equal_is_not_read_as_equality() {
    let f = parse_filter("age>=21").unwrap();
    assert_eq!(f.column, "age");
    assert_eq!(f.operator, FilterOp::Ge);
    assert_eq!(f.operator.symbol(), ">=");
    assert_eq!(f.value, "21");
}

#[test]
fn plain_equality() {
    let f = parse_filter("age=21").unwrap();
    assert_eq!(f.column, "age");
    assert_eq!(f.operator, FilterOp::Eq);
    assert_eq!(f.value, "21");
}

#[test]
fn each_operator_is_recognised() {
    for (text, op) in [
        ("a<=1", FilterOp::Le),
        ("a!=1", FilterOp::Ne),
        ("a>1", FilterOp::Gt),
        ("a<1", FilterOp::Lt),
    ] {
        assert_eq!(parse_filter(text).unwrap().operator, op, "{}", text);
    }
}

#[test]
fn longer_operator_wins_even_further_right() {
    let f = parse_decoded_filter("a=b>=c").unwrap();
    assert_eq!(f.column, "a=b");
    assert_eq!(f.operator, FilterOp::Ge);
    assert_eq!(f.value, "c");
}

#[test]
fn column_and_value_are_trimmed() {
    let f = parse_filter("%20name%20%3D%20bob%20").unwrap();
    assert_eq!(f.column, "name");
    assert_eq!(f.value, "bob");
    let g = parse_decoded_filter("\t x \u{3000}< y\n").unwrap();
    assert_eq!(g.column, "x");
    assert_eq!(g.value, "y");
}

#[test]
fn empty_side_is_invalid_format() {
    assert_eq!(parse_filter("=21").err(), Some(FilterError::InvalidFormat));
    assert_eq!(parse_filter("age>=  ").err(), Some(FilterError::InvalidFormat));
}

#[test]
fn no_operator_is_reported() {
    assert_eq!(parse_filter("age21").err(), Some(FilterError::NoOperatorFound));
}

#[test]
fn undecodable_input_is_a_decode_error() {
    assert_eq!(parse_filter("a%FF=1").err(), Some(FilterError::DecodeError));
    assert_eq!(parse_multiple_filters("a%FF=1").err(), Some(FilterError::DecodeError));
    assert_eq!(
        QueryError::InvalidFilter(FilterError::DecodeError).message(),
        "Invalid filter: Failed to decode URL"
    );
}

#[test]
fn several_encoded_filters_in_order() {
    let fs = parse_multiple_filters("age%3E21&name%3Dbob").unwrap();
    assert_eq!(fs.len(), 2);
    assert_eq!(fs[0].column, "age");
    assert_eq!(fs[0].operator, FilterOp::Gt);
    assert_eq!(fs[0].value, "21");
    assert_eq!(fs[1].column, "name");
    assert_eq!(fs[1].operator, FilterOp::Eq);
    assert_eq!(fs[1].value, "bob");
}

#[test]
fn first_bad_piece_decides_the_error() {
    assert_eq!(parse_multiple_filters("a=1&b&c=").err(), Some(FilterError::NoOperatorFound));
    assert_eq!(parse_multiple_filters("a=1&").err(), Some(FilterError::NoOperatorFound));
}

#[test]
fn splitting_keeps_empty_pieces() {
    assert_eq!(split_filters("a&&b&"), vec!["a", "", "b", ""]);
    assert_eq!(split_filters(""), vec![""]);
}

#[test]
fn find_counts_characters() {
    assert_eq!(find_in("\u{e9}t\u{e9}>=1", ">="), Some(3));
    assert_eq!(find_in("abc", "d"), None);
}
