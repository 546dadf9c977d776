use rs_es::json::{to_json_string, Decimal, ToJson};
use rs_es::query::full_text::SimpleQueryStringFlags;
use rs_es::query::functions::{Function, Origin, Scale};
use rs_es::query::term::{TermsQueryIn, TermsQueryLookup};
use rs_es::query::{Flags, Query};
use rs_es::units::{Distance, DistanceUnit, JsonVal, Location, OneOrMany};

fn text(q: &Query) -> String {
    to_json_string(&q.to_json())
}

#[test]
fn test_simple_query_string_flags() {
    let opts = vec![SimpleQueryStringFlags::And, SimpleQueryStringFlags::Not];
    let flags: Flags<SimpleQueryStringFlags> = Flags::from_vec(opts);
    let json = to_json_string(&flags.to_json());
    assert_eq!("\"AND|NOT\"", json);
}

#[test]
fn test_terms_query() {
    let terms_query = Query::build_terms("field_name")
        .with_values(TermsQueryIn::from_strs(&["a", "b", "c"]))
        .build();
    assert_eq!("{\"terms\":{\"field_name\":[\"a\",\"b\",\"c\"]}}", text(&terms_query));

    let values: Vec<&str> = vec!["a", "b", "c"];
    let terms_query_2 = Query::build_terms("field_name")
        .with_values(TermsQueryIn::from_strs(values.as_ref()))
        .build();
    assert_eq!("{\"terms\":{\"field_name\":[\"a\",\"b\",\"c\"]}}", text(&terms_query_2));

    let terms_query_3 = Query::build_terms("field_name")
        .with_values(TermsQueryIn::Lookup(
            TermsQueryLookup::new(JsonVal::from_i64(123), "blah.de.blah").with_index("other"),
        ))
        .build();
    assert_eq!(
        "{\"terms\":{\"field_name\":{\"id\":123,\"index\":\"other\",\"path\":\"blah.de.blah\"}}}",
        text(&terms_query_3)
    );
}

#[test]
fn test_function_score_query() {
    let function_score_query = Query::build_function_score()
        .with_function(
            Function::build_script_score("this_is_a_script".to_owned())
                .with_lang("made_up".to_owned())
                .add_param("A".to_owned(), JsonVal::from_i64(12))
                .build(),
        )
        .build();
    assert_eq!(
        "{\"function_score\":{\"functions\":[{\"script_score\":{\"lang\":\"made_up\",\"params\":{\"A\":12},\"inline\":\"this_is_a_script\"}}]}}",
        text(&function_score_query)
    );
}

#[test]
fn test_exists_query() {
    let exists_query = Query::build_exists("name").build();
    assert_eq!("{\"exists\":{\"field\":\"name\"}}", text(&exists_query));
}

#[test]
fn test_decay_query() {
    let gauss_decay_query = Function::build_decay(
        "my_field".to_owned(),
        Origin::Location(Location::LatLon(Decimal::whole(42), Decimal::whole(24))),
        Scale::Distance(Distance::new(Decimal::whole(3), DistanceUnit::Kilometer)),
    )
    .build_gauss();

    assert_eq!(
        "{\"gauss\":{\"my_field\":{\"origin\":{\"lat\":42.0,\"lon\":24.0},\"scale\":\"3km\"}}}",
        to_json_string(&gauss_decay_query.to_json())
    );
}

#[test]
fn bool_query_composes_like_its_json() {
    let query = Query::build_bool()
        .with_must(OneOrMany::Many(vec![
            Query::build_term("field_a", JsonVal::from_str("value")).build(),
            Query::build_range("field_b")
                .with_gte(JsonVal::from_i64(5))
                .with_lt(JsonVal::from_i64(10))
                .build(),
        ]))
        .build();
    assert_eq!(
        "{\"bool\":{\"must\":[{\"term\":{\"field_a\":{\"value\":\"value\"}}},{\"range\":{\"field_b\":{\"gte\":5,\"lt\":10}}}]}}",
        text(&query)
    );
}

#[test]
fn default_query_matches_everything() {
    assert_eq!("{\"match_all\":{}}", text(&Query::default()));
    let boosted = Query::build_match_all().with_boost(Decimal::new(15, 1)).build();
    assert_eq!("{\"match_all\":{\"boost\":1.5}}", text(&boosted));
}

#[test]
fn every_query_has_one_key() {
    let queries = vec![
        Query::build_exists("a").build(),
        Query::build_match_all().build(),
        Query::build_terms("t").build(),
        Query::build_geo_shape("g".to_owned()).build(),
    ];
    for q in queries.iter() {
        match q.to_json() {
            rs_es::json::Json::Object(e) => assert_eq!(1, e.len()),
            _ => panic!("not an object"),
        }
    }
}

#[test]
fn weight_and_random_score_are_plain_values() {
    let f = Function::build_weight(Decimal::new(25, 1)).build();
    assert_eq!("{\"weight\":2.5}", to_json_string(&f.to_json()));
    let g = Function::build_random_score(7).build();
    assert_eq!("{\"random_score\":7}", to_json_string(&g.to_json()));
}
