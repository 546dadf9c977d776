use rs_es::error::EsError;
use rs_es::json::{to_json_string, Decimal, Json, ToJson};
use rs_es::units::{Distance, DistanceType, DistanceUnit, Duration, GeoBox, JsonVal, Location, OneOrMany};

#[test]
fn durations_are_written_with_their_unit() {
    assert_eq!("1M", Duration::months(1).to_string());
    assert_eq!("2w", Duration::weeks(2).to_string());
    assert_eq!("3d", Duration::days(3).to_string());
    assert_eq!("4h", Duration::hours(4).to_string());
    assert_eq!("5m", Duration::minutes(5).to_string());
    assert_eq!("6s", Duration::seconds(6).to_string());
    assert_eq!("7ms", Duration::milliseconds(7).to_string());
}

#[test]
fn distances_are_written_as_text() {
    let d = Distance::new(Decimal::new(25, 1), DistanceUnit::Mile);
    assert_eq!("2.5mi", d.to_string());
    assert_eq!("\"2.5mi\"", to_json_string(&d.to_json()));
    assert_eq!("\"3km\"", to_json_string(&Distance::new(Decimal::whole(3), DistanceUnit::Kilometer).to_json()));
}

#[test]
fn locations_and_boxes() {
    let l = Location::LatLon(Decimal::new(515, 1), Decimal::new(-1, 1));
    assert_eq!("{\"lat\":51.5,\"lon\":-0.1}", to_json_string(&l.to_json()));
    assert_eq!("\"u10h\"", to_json_string(&Location::GeoHash("u10h".to_owned()).to_json()));
    let b = GeoBox::Corners(Location::GeoHash("a".to_owned()), Location::GeoHash("b".to_owned()));
    assert_eq!("{\"bottom_right\":\"b\",\"top_left\":\"a\"}", to_json_string(&b.to_json()));
}

#[test]
fn one_or_many() {
    let one: OneOrMany<String> = OneOrMany::One("a".to_owned());
    assert_eq!("\"a\"", to_json_string(&one.to_json()));
    let many: OneOrMany<String> = OneOrMany::Many(vec!["a".to_owned(), "b".to_owned()]);
    assert_eq!("[\"a\",\"b\"]", to_json_string(&many.to_json()));
    assert_eq!("\"sloppy_arc\"", to_json_string(&DistanceType::SloppyArc.to_json()));
}

#[test]
fn json_values_are_read_from_scalars_only() {
    let s = JsonVal::from(&Json::Str("x".to_owned())).unwrap();
    assert_eq!("\"x\"", to_json_string(&s.to_json()));
    let n = JsonVal::from(&Json::Int(-3)).unwrap();
    assert_eq!("-3", to_json_string(&n.to_json()));
    assert!(JsonVal::from(&Json::Null).is_err());
    assert!(JsonVal::from(&Json::Array(vec![])).is_err());
    match JsonVal::from(&Json::Null) {
        Err(EsError::EsError(m)) => assert_eq!("Not a JsonVal: Null", m),
        _ => panic!("expected an error"),
    }
    let a = Json::Array(vec![Json::Int(1), Json::Str("a".to_owned()), Json::Num(Decimal::new(15, 1))]);
    match JsonVal::from(&a) {
        Err(EsError::EsError(m)) => assert_eq!("Not a JsonVal: Array [Number(1), String(\"a\"), Number(1.5)]", m),
        _ => panic!("expected an error"),
    }
    let o = Json::Object(vec![("b".to_owned(), Json::Bool(true))]);
    match JsonVal::from(&o) {
        Err(EsError::EsError(m)) => assert_eq!("Not a JsonVal: Object {\"b\": Bool(true)}", m),
        _ => panic!("expected an error"),
    }
    assert_eq!("true", to_json_string(&JsonVal::from_bool(true).to_json()));
}
