use rs_es::error::EsError;
use rs_es::json::{to_json_string, Decimal, Json, ToJson};
use rs_es::operations::bulk::{ActionResult, ActionResultInner, ActionType};
use rs_es::operations::search::aggregations::bucket::{DateHistogram, Filter, Interval, Nested, Range, RangeInst};
use rs_es::operations::search::aggregations::metrics::{Cardinality, Percentiles};
use rs_es::operations::search::aggregations::{aggs_json, read_key, Aggregations, AggregationsResult};
use rs_es::operations::search::highlight::{Highlight, Setting, SettingTypes};
use rs_es::operations::ShardCountResult;
use rs_es::query::geo::{IndexedShape, Shape};
use rs_es::query::functions::{FieldValueFactor, Function, Modifier};
use rs_es::query::Query;
use rs_es::units::{Distance, DistanceUnit, GeoBox, JsonVal, Location};

fn text<T: ToJson>(t: &T) -> String {
    to_json_string(&t.to_json())
}

#[test]
fn geo_queries() {
    let shape = Query::build_geo_shape("f".to_owned())
        .with_shape(Shape::new("point".to_owned(), vec![(Decimal::whole(1), Decimal::new(-25, 1))]))
        .build();
    assert_eq!("{\"geo_shape\":{\"f\":{\"shape\":{\"type\":\"point\",\"coordinates\":[[1.0,-2.5]]}}}}", text(&shape));
    let indexed = Query::build_geo_shape("f".to_owned())
        .with_indexed_shape(IndexedShape::new("1".to_owned(), "t".to_owned(), "i".to_owned(), "p".to_owned()))
        .build();
    assert_eq!(
        "{\"geo_shape\":{\"f\":{\"indexed_shape\":{\"id\":\"1\",\"doc_type\":\"t\",\"index\":\"i\",\"path\":\"p\"}}}}",
        text(&indexed)
    );
    let distance = Query::build_geo_distance(
        "loc".to_owned(),
        Location::GeoHash("u10".to_owned()),
        Distance::new(Decimal::whole(12), DistanceUnit::Meter),
    )
    .with_coerce(true)
    .build();
    assert_eq!("{\"geo_distance\":{\"loc\":\"u10\",\"distance\":\"12m\",\"coerce\":true}}", text(&distance));
    let bbox = Query::build_geo_bounding_box(
        "loc".to_owned(),
        GeoBox::Vertices(Decimal::whole(1), Decimal::whole(2), Decimal::whole(3), Decimal::whole(4)),
    )
    .build();
    assert_eq!(
        "{\"geo_bounding_box\":{\"loc\":{\"geo_box\":{\"bottom\":3.0,\"left\":2.0,\"right\":4.0,\"top\":1.0}}}}",
        text(&bbox)
    );
}

#[test]
fn field_value_factor_function() {
    let f: Function = Function::build_field_value_factor("popularity".to_owned())
        .with_factor(Decimal::new(12, 1))
        .with_modifier(Modifier::Sqrt)
        .with_missing(JsonVal::from_i64(1))
        .build();
    assert_eq!(
        "{\"field_value_factor\":{\"field\":\"popularity\",\"factor\":1.2,\"modifier\":\"sqrt\",\"missing\":1}}",
        text(&f)
    );
    let plain: FieldValueFactor = Function::build_field_value_factor("p".to_owned());
    assert_eq!("{\"field\":\"p\"}", text(&plain));
}

#[test]
fn highlight_fields() {
    let mut h = Highlight::new();
    h.add("a".to_owned(), Setting::with_type(SettingTypes::Plain));
    h.add("b".to_owned(), Setting::with_type(SettingTypes::Plain));
    assert_eq!("{\"fields\":{\"a\":{\"type\":\"plain\"},\"b\":{\"type\":\"plain\"}}}", text(&h));
}

#[test]
fn bulk_items_are_read_by_their_key() {
    let inner = || ActionResultInner {
        index: "i".to_owned(),
        doc_type: "t".to_owned(),
        version: 1,
        status: 201,
        shards: ShardCountResult { total: 1, successful: 1, failed: 0 },
        found: None,
    };
    assert!(ActionResult::from_entry("index", inner()).is_ok());
    match ActionResult::from_entry("upsert", inner()) {
        Err(EsError::JsonError(m)) => assert_eq!("Unrecognised key: upsert", m),
        _ => panic!("expected an error"),
    }
    match ActionResult::from_entries(vec![]) {
        Err(EsError::JsonError(m)) => assert_eq!("expecting at least one field", m),
        _ => panic!("expected an error"),
    }
    match ActionResult::from_entries(vec![("index".to_owned(), inner()), ("create".to_owned(), inner())]) {
        Err(EsError::JsonError(m)) => assert_eq!("expecting exactly one field", m),
        _ => panic!("expected an error"),
    }
    match ActionResult::from_entries(vec![("delete".to_owned(), inner())]) {
        Ok(a) => assert_eq!(ActionType::Delete, a.action),
        _ => panic!("expected a result"),
    }
}

#[test]
fn a_bucket_key_must_be_there() {
    match read_key(&Json::Object(vec![])) {
        Err(EsError::EsError(m)) => assert_eq!("No 'key'", m),
        _ => panic!("expected an error"),
    }
}

#[test]
fn more_aggregations_json() {
    let q = Query::build_match_all().build();
    let aggs = Aggregations::from_vec(vec![
        ("f", Filter::new(&q).build()),
        ("n", Nested::new("path").build()),
        ("d", DateHistogram::new("when", Interval::Month).build()),
        ("c", Cardinality::field("x").with_rehash(true).build()),
        ("p", Percentiles::field("x").with_compression(100).build()),
        (
            "r",
            Range::field("x")
                .with_ranges(vec![RangeInst::new().with_to(JsonVal::from_i64(5)), RangeInst::new().with_from(JsonVal::from_i64(5))])
                .build(),
        ),
    ]);
    assert_eq!(
        "{\"f\":{\"filter\":{\"filter\":{\"match_all\":{}}}},\"n\":{\"nested\":{\"path\":\"path\"}},\"d\":{\"date_histogram\":{\"field\":\"when\",\"interval\":\"month\"}},\"c\":{\"cardinality\":{\"field\":\"x\",\"rehash\":true}},\"p\":{\"percentiles\":{\"field\":\"x\",\"compression\":100}},\"r\":{\"range\":{\"field\":\"x\",\"keyed\":true,\"ranges\":[{\"to\":5},{\"from\":5}]}}}",
        to_json_string(&aggs_json(&aggs))
    );
}

#[test]
fn sub_aggregations_need_an_object() {
    let aggs = Aggregations::from_pair(
        "n",
        Nested::new("p").build_with(Aggregations::from_pair("c", Cardinality::field("x").build())),
    );
    let raw = Json::Object(vec![("n".to_owned(), Json::Int(3))]);
    match AggregationsResult::from(&aggs, &raw) {
        Err(EsError::EsError(m)) => assert_eq!("Not an object", m),
        _ => panic!("expected an error"),
    }
}
