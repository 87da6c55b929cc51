use table_query::row::{decode_row, decode_value, JsonScalar, Probe};

fn empty() -> Probe {
    Probe {
        int4: None,
        int8: None,
        float8: None,
        float4: None,
        decimal: None,
        text: None,
        boolean: None,
        date: None,
        datetime: None,
    }
}

fn is_int(v: &JsonScalar, n: i64) -> bool {
    matches!(v, JsonScalar::Int(x) if *x == n)
}

fn is_text(v: &JsonScalar, s: &str) -> bool {
    matches!(v, JsonScalar::Text(x) if x.as_str() == s)
}

#[test]
fn int4_is_a_number_even_when_text_would_do() {
    let p = Probe { int4: Some(42), text: Some("42".to_string()), ..empty() };
    assert!(is_int(&decode_value(&p), 42));
}

#[test]
fn int8_comes_after_int4() {
    let p = Probe { int8: Some(1 << 40), ..empty() };
    assert!(is_int(&decode_value(&p), 1 << 40));
}

#[test]
fn float_comes_before_text() {
    let bits = 1.5f64.to_bits();
    let p = Probe { float8: Some(bits), text: Some("1.5".to_string()), ..empty() };
    assert!(matches!(decode_value(&p), JsonScalar::Float8(b) if b == bits));
    let q = Probe { float4: Some(2.5f32.to_bits()), ..empty() };
    assert!(matches!(decode_value(&q), JsonScalar::Float4(b) if b == 2.5f32.to_bits()));
}

#[test]
fn decimal_is_a_string() {
    let p = Probe { decimal: Some("12345678901234567890.123".to_string()), ..empty() };
    assert!(is_text(&decode_value(&p), "12345678901234567890.123"));
}

#[test]
fn text_bool_date_datetime_and_null() {
    assert!(is_text(&decode_value(&Probe { text: Some("hi".to_string()), ..empty() }), "hi"));
    assert!(matches!(decode_value(&Probe { boolean: Some(true), ..empty() }), JsonScalar::Bool(true)));
    assert!(is_text(&decode_value(&Probe { date: Some("2024-01-31".to_string()), ..empty() }), "2024-01-31"));
    assert!(is_text(
        &decode_value(&Probe { datetime: Some("2024-01-31 10:00:00".to_string()), ..empty() }),
        "2024-01-31 10:00:00"
    ));
    assert!(matches!(decode_value(&empty()), JsonScalar::Null));
}

#[test]
fn later_column_of_one_name_wins() {
    let cols = vec![
        ("id".to_string(), Probe { int4: Some(1), ..empty() }),
        ("name".to_string(), Probe { text: Some("a".to_string()), ..empty() }),
        ("id".to_string(), Probe { int4: Some(2), ..empty() }),
    ];
    let row = decode_row(&cols);
    assert_eq!(row.len(), 2);
    assert_eq!(row[0].0, "id");
    assert!(is_int(&row[0].1, 2));
    assert_eq!(row[1].0, "name");
    assert!(is_text(&row[1].1, "a"));
}

#[test]
fn decoding_twice_gives_the_same_row() {
    let cols = vec![
        ("n".to_string(), Probe { decimal: Some("1.10".to_string()), ..empty() }),
        ("b".to_string(), Probe { boolean: Some(false), ..empty() }),
    ];
    let a = decode_row(&cols);
    let b = decode_row(&cols);
    assert_eq!(format!("{:?}", a), format!("{:?}", b));
}
