use rs_es::json::{to_json_string, Decimal, Json};
use rs_es::operations::search::aggregations::bucket::{Missing, Order, OrderKey, Terms};
use rs_es::operations::search::aggregations::metrics::{Min, Stats};
use rs_es::operations::search::aggregations::{aggs_json, AggregationResult, Aggregations, AggregationsResult};
use rs_es::error::EsError;
use rs_es::units::JsonVal;

fn obj(entries: Vec<(&str, Json)>) -> Json {
    Json::Object(entries.into_iter().map(|(k, v)| (k.to_owned(), v)).collect())
}

#[test]
fn test_terms_aggregation() {
    let aggs: Aggregations = Aggregations::from_pair("term_test", Terms::field("blah").with_size(5u64).build());
    assert_eq!(
        "{\"term_test\":{\"terms\":{\"field\":\"blah\",\"size\":5}}}",
        to_json_string(&aggs_json(&aggs))
    );
}

#[test]
fn test_min_aggregation() {
    let aggs: Aggregations = Aggregations::from_pair("min_test", Min::field("blah").build());
    assert_eq!("{\"min_test\":{\"min\":{\"field\":\"blah\"}}}", to_json_string(&aggs_json(&aggs)));
}

#[test]
fn bucket_aggregation_with_sub_aggregations() {
    let aggs = Aggregations::from_pair(
        "str",
        Terms::field("str_field")
            .with_order(rs_es::units::OneOrMany::One(Order::asc(OrderKey::Term)))
            .build_with(Aggregations::from_pair("int", Min::field("int_field").build())),
    );
    assert_eq!(
        "{\"str\":{\"terms\":{\"field\":\"str_field\",\"order\":{\"_term\":\"asc\"}},\"aggs\":{\"int\":{\"min\":{\"field\":\"int_field\"}}}}}",
        to_json_string(&aggs_json(&aggs))
    );
}

#[test]
fn adding_a_name_again_replaces_the_aggregation() {
    let mut aggs = Aggregations::new();
    aggs.add("a", Min::field("x").build());
    aggs.add("b", Min::field("y").build());
    aggs.add("a", Stats::field("z").build());
    assert_eq!(
        "{\"a\":{\"stats\":{\"field\":\"z\"}},\"b\":{\"min\":{\"field\":\"y\"}}}",
        to_json_string(&aggs_json(&aggs))
    );
}

#[test]
fn results_are_read_by_name_and_kind() {
    let aggs = Aggregations::from_vec(vec![
        ("min_int", Min::field("int_field").build()),
        (
            "terms",
            Terms::field("str_field").build_with(Aggregations::from_pair("m", Min::field("int_field").build())),
        ),
    ]);
    let raw = obj(vec![
        ("min_int", obj(vec![("value", Json::Int(3))])),
        (
            "terms",
            obj(vec![
                ("doc_count_error_upper_bound", Json::UInt(0)),
                ("sum_other_doc_count", Json::UInt(1)),
                (
                    "buckets",
                    Json::Array(vec![obj(vec![
                        ("key", Json::Str("abc".to_owned())),
                        ("doc_count", Json::UInt(2)),
                        ("m", obj(vec![("value", Json::Num(Decimal::new(15, 1)))])),
                    ])]),
                ),
            ]),
        ),
    ]);
    let results = AggregationsResult::from(&aggs, &raw).expect("readable");
    let min = results.get("min_int").unwrap().as_min().unwrap();
    assert!(matches!(min.value, JsonVal::Number(_)));
    let terms = results.get("terms").unwrap().as_terms().unwrap();
    assert_eq!(0, terms.doc_count_error_upper_bound);
    assert_eq!(1, terms.sum_other_doc_count);
    assert_eq!(1, terms.buckets.len());
    assert_eq!(2, terms.buckets[0].doc_count);
    let sub = terms.buckets[0].aggs_ref().unwrap();
    let m = sub.get("m").unwrap().as_min().unwrap();
    match &m.value {
        JsonVal::Number(rs_es::units::Number::Float(d)) => assert_eq!("1.5", to_json_string(&Json::Num(*d))),
        _ => panic!("not a number"),
    }
    assert!(results.get("missing").is_err());
    assert!(results.get("min_int").unwrap().as_terms().is_err());
}

#[test]
fn a_missing_result_is_an_error() {
    let aggs = Aggregations::from_pair("min_int", Min::field("int_field").build());
    let raw = obj(vec![("other", obj(vec![("value", Json::Int(3))]))]);
    match AggregationsResult::from(&aggs, &raw) {
        Err(EsError::EsError(m)) => assert_eq!("No key: min_int", m),
        _ => panic!("expected an error"),
    }
    match AggregationsResult::from(&aggs, &Json::Null) {
        Err(EsError::EsError(m)) => assert_eq!("Aggregations is not an object", m),
        _ => panic!("expected an error"),
    }
}

#[test]
fn a_metric_that_cannot_be_read_is_a_json_error() {
    let aggs = Aggregations::from_pair("min_int", Min::field("int_field").build());
    let raw = obj(vec![("min_int", obj(vec![]))]);
    match AggregationsResult::from(&aggs, &raw) {
        Err(EsError::JsonError(m)) => assert_eq!("No valid field: value", m),
        _ => panic!("expected a JSON error"),
    }
}

#[test]
fn a_missing_aggregation_without_doc_count_is_an_error() {
    let aggs = Aggregations::from_pair("m", Missing::new("f").build());
    match AggregationsResult::from(&aggs, &obj(vec![("m", obj(vec![]))])) {
        Err(EsError::EsError(m)) => assert_eq!("No valid field: doc_count", m),
        _ => panic!("expected an error"),
    }
    let ok = AggregationsResult::from(&aggs, &obj(vec![("m", obj(vec![("doc_count", Json::UInt(7))]))]));
    assert_eq!(7, ok.unwrap().get("m").unwrap().as_missing().unwrap().doc_count);
}

#[test]
fn a_bucket_without_doc_count_is_an_error() {
    let aggs = Aggregations::from_pair("t", Terms::field("f").build());
    let raw = obj(vec![(
        "t",
        obj(vec![
            ("doc_count_error_upper_bound", Json::UInt(0)),
            ("sum_other_doc_count", Json::UInt(0)),
            ("buckets", Json::Array(vec![obj(vec![("key", Json::Str("k".to_owned()))])])),
        ]),
    )]);
    match AggregationsResult::from(&aggs, &raw) {
        Err(EsError::EsError(m)) => assert_eq!("No valid field: doc_count", m),
        _ => panic!("expected an error"),
    }
}

#[test]
fn stats_results_are_read() {
    let aggs = Aggregations::from_pair("s", Stats::field("f").build());
    let raw = obj(vec![(
        "s",
        obj(vec![
            ("count", Json::UInt(4)),
            ("min", Json::Int(1)),
            ("max", Json::Int(9)),
            ("avg", Json::Num(Decimal::new(45, 1))),
            ("sum", Json::Int(18)),
        ]),
    )]);
    let results = AggregationsResult::from(&aggs, &raw).unwrap();
    match results.get("s").unwrap() {
        AggregationResult::Metrics(_) => {},
        _ => panic!("wrong kind"),
    }
    let s = results.get("s").unwrap().as_stats().unwrap();
    assert_eq!(4, s.count);
    assert_eq!("4.5", to_json_string(&Json::Num(s.avg)));
    assert_eq!("18.0", to_json_string(&Json::Num(s.sum)));
}
