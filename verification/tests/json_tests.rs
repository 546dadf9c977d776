use rs_es::json::{to_json_string, Decimal, FieldBased, Json, NoOuter, ToJson};

fn options(a: i64, b: Decimal) -> Vec<(String, Json)> {
    vec![("opt_a".to_owned(), Json::Int(a)), ("opt_b".to_owned(), Json::Num(b))]
}

#[test]
fn test_simple_field_based() {
    let t = FieldBased::new("key".to_owned(), Json::Object(options(4, Decimal::new(35, 1))), NoOuter);
    let s = to_json_string(&t.to_json());
    assert_eq!("{\"key\":{\"opt_a\":4,\"opt_b\":3.5}}", s);
}

#[test]
fn test_outer_field_based() {
    let t = FieldBased::new(
        "key".to_owned(),
        Json::Object(options(8, Decimal::new(25, 1))),
        options(9, Decimal::new(15, 1)),
    );
    let s = to_json_string(&t.to_json());
    assert_eq!("{\"key\":{\"opt_a\":8,\"opt_b\":2.5},\"opt_a\":9,\"opt_b\":1.5}", s);
}

#[test]
fn decimal_is_normalised() {
    let d = Decimal::new(4200, 2);
    assert_eq!("42.0", to_json_string(&d.to_json()));
    assert_eq!("-0.05", to_json_string(&Decimal::new(-5, 2).to_json()));
    assert_eq!("7.0", to_json_string(&Decimal::whole(7).to_json()));
}

#[test]
fn small_and_large_numbers_are_written_in_exponent_form() {
    assert_eq!("1e-7", to_json_string(&Decimal::new(1, 7).to_json()));
    assert_eq!("0.00001", to_json_string(&Decimal::new(1, 5).to_json()));
    assert_eq!("1e+16", to_json_string(&Decimal::whole(10000000000000000).to_json()));
    assert_eq!("1000000000000000.0", to_json_string(&Decimal::whole(1000000000000000).to_json()));
    assert_eq!("-2.5e-8", to_json_string(&Decimal::new(-25, 9).to_json()));
}

#[test]
fn strings_are_quoted_and_escaped() {
    let j = Json::Str("a\"b\\c\n".to_owned());
    assert_eq!("\"a\\\"b\\\\c\\n\"", to_json_string(&j));
    let c = Json::Str("\u{1}\u{1f}\u{8}\u{c}\t\r\u{e9}/".to_owned());
    assert_eq!("\"\\u0001\\u001f\\b\\f\\t\\r\u{e9}/\"", to_json_string(&c));
}

#[test]
fn nested_values_are_written_compactly() {
    let j = Json::Object(vec![
        ("a".to_owned(), Json::Array(vec![Json::Null, Json::Bool(true), Json::UInt(18446744073709551615)])),
        ("b".to_owned(), Json::Object(vec![])),
        ("c".to_owned(), Json::Int(-12)),
    ]);
    assert_eq!("{\"a\":[null,true,18446744073709551615],\"b\":{},\"c\":-12}", to_json_string(&j));
}
