use rs_es::error::EsError;
use rs_es::operations::bulk::{Action, ActionType, BulkOperation};
use rs_es::operations::common::{Options, VersionType};
use rs_es::operations::delete::DeleteOperation;
use rs_es::operations::get::GetOperation;
use rs_es::operations::index::IndexOperation;
use rs_es::operations::mapping::{hashmap, hashmap2, MappingOperation};
use rs_es::operations::search::count::{CountQueryOperation, CountURIOperation};
use rs_es::operations::search::{
    aggs_to_read, all_sources, close_request, close_succeeded, next_from_fetched, next_from_page, next_scroll_id, scan_reply, scroll_request, Order,
    SearchQueryOperation, SearchType, SearchURIOperation, Sort, SortField, Source,
};
use rs_es::operations::{format_indexes_and_types, format_multi, is_accepted_status, ok_reply, Method};
use rs_es::query::Query;
use rs_es::units::Duration;
use rs_es::util::StrJoin;
use rs_es::json::{to_json_string, Json, ToJson};

#[test]
fn str_join_example() {
    let data = vec!["a", "b", "c", "d"];
    assert_eq!("a-b-c-d", StrJoin::join(&data, "-"));
}

#[test]
fn multiple_values_are_joined_with_commas() {
    assert_eq!("_all", format_multi(&[]));
    assert_eq!("a", format_multi(&["a"]));
    assert_eq!("a,b,c", format_multi(&["a", "b", "c"]));
    assert_eq!("idx", format_indexes_and_types(&["idx"], &[]));
    assert_eq!("_all/t1,t2", format_indexes_and_types(&[], &["t1", "t2"]));
}

#[test]
fn options_make_the_query_string() {
    let mut options = Options::new();
    assert!(options.is_empty());
    assert_eq!("", options.to_string());
    options.push("a", 1i64);
    options.push("b", "2");
    assert!(!options.is_empty());
    assert_eq!("?a=1&b=2", options.to_string());
}

#[test]
fn sort_as_option_value() {
    let sort = Sort::new(vec![
        SortField::new("a".to_owned(), Some(Order::Asc)).build(),
        SortField::new("b".to_owned(), None).build(),
    ]);
    assert_eq!("a:asc,b", sort.to_option_val().0);
    let s2 = Sort::field_orders(vec![("x".to_owned(), Order::Desc), ("y".to_owned(), Order::Asc)]);
    assert_eq!("x:desc,y:asc", s2.to_option_val().0);
    let s3 = Sort::fields(vec!["p".to_owned(), "q".to_owned()]);
    assert_eq!("p,q", s3.to_option_val().0);
}

#[test]
fn sort_is_written_as_an_array() {
    let sort = Sort::field_order("f".to_owned(), Order::Desc);
    assert_eq!("[{\"f\":{\"order\":\"desc\"}}]", to_json_string(&sort.to_json()));
}

#[test]
fn search_uri_url() {
    let indexes = ["index_name"];
    let op = SearchURIOperation::new()
        .with_indexes(&indexes)
        .with_query("field:value".to_owned())
        .with_search_type(SearchType::QueryThenFetch)
        .with_fields(&["a", "b"]);
    let r = op.request();
    assert_eq!(Method::Get, r.method);
    assert_eq!("/index_name/_search?q=field:value&search_type=query_then_fetch&fields=a,b", r.url);
    assert!(r.body.is_none());
}

#[test]
fn search_query_body_and_scan() {
    let q = Query::build_match_all().build();
    let fields = ["str_field"];
    let indexes = ["i"];
    let op = SearchQueryOperation::new()
        .with_indexes(&indexes)
        .with_query(&q)
        .with_size(10)
        .with_source(Source::include_only(&fields))
        .with_version(true);
    let r = op.request();
    assert_eq!(Method::Post, r.method);
    assert_eq!("/i/_search", r.url);
    assert_eq!(
        Some("{\"query\":{\"match_all\":{}},\"size\":10,\"_source\":{\"include\":[\"str_field\"]},\"version\":true}".to_owned()),
        r.body
    );
    let scan = op.scan(Duration::minutes(1));
    assert_eq!("/i/_search?search_type=scan&scroll=1m", scan.url);
}

#[test]
fn source_off_and_filters() {
    assert_eq!("false", to_json_string(&Source::Off.to_json()));
    let incl = ["a"];
    let excl = ["b"];
    assert_eq!(
        "{\"exclude\":[\"b\"],\"include\":[\"a\"]}",
        to_json_string(&Source::filter(&incl, &excl).to_json())
    );
    assert_eq!("{\"exclude\":[\"b\"]}", to_json_string(&Source::exclude(&excl).to_json()));
}

#[test]
fn scroll_and_close_requests() {
    let r = scroll_request("abc", &Duration::minutes(2));
    assert_eq!(Method::Post, r.method);
    assert_eq!("/_search/scroll", r.url);
    assert_eq!(Some("{\"scroll\":\"2m\",\"scroll_id\":\"abc\"}".to_owned()), r.body);
    let c = close_request("abc");
    assert_eq!(Method::Delete, c.method);
    assert_eq!("/_search/scroll?scroll_id=abc", c.url);
    assert!(close_succeeded(200));
    assert!(close_succeeded(404));
    assert!(!close_succeeded(500));
    assert_eq!("id2", next_scroll_id(Some("id2".to_owned())).unwrap());
    assert!(next_scroll_id(None).is_err());
}

#[test]
fn scan_replies_by_status() {
    let ok: Result<Result<u32, ()>, EsError> = scan_reply(200, "200 OK", "resp", || Ok(7));
    assert!(matches!(ok, Ok(Ok(7))));
    match scan_reply(404, "404 Not Found", "resp", || Ok::<u32, ()>(7)) {
        Err(EsError::EsServerError(m)) => assert_eq!("Not found: resp", m),
        _ => panic!("expected a server error"),
    }
    match scan_reply(201, "201 Created", "resp", || Ok::<u32, ()>(7)) {
        Err(EsError::EsError(m)) => assert_eq!("Unexpected status: 201 Created", m),
        _ => panic!("expected an error"),
    }
}

#[test]
fn scan_hits_come_out_in_page_order() {
    let mut page: Vec<u32> = vec![];
    assert_eq!(None, next_from_page(&mut page));
    assert_eq!(Some(1), next_from_fetched(&mut page, vec![1, 2]));
    assert_eq!(Some(2), next_from_page(&mut page));
    assert_eq!(None, next_from_page(&mut page));
    assert_eq!(None, next_from_fetched(&mut page, vec![]));
    assert!(page.is_empty());
}

#[test]
fn ok_replies_by_status() {
    assert!(matches!(ok_reply(200, "200 OK", || 5u8), Ok(5)));
    match ok_reply(404, "404 Not Found", || 5u8) {
        Err(EsError::EsError(m)) => assert_eq!("Unexpected status: 404 Not Found", m),
        _ => panic!("expected an error"),
    }
}

#[test]
fn aggregations_in_results_need_a_request() {
    assert!(!aggs_to_read(false, false).unwrap());
    assert!(aggs_to_read(true, true).unwrap());
    assert!(aggs_to_read(true, false).is_err());
}

#[test]
fn hits_need_all_their_sources() {
    assert_eq!(Some(vec![1, 2, 3]), all_sources(vec![Some(1), Some(2), Some(3)]));
    assert_eq!(None, all_sources(vec![Some(1), None, Some(3)]));
    assert_eq!(Some(Vec::<i32>::new()), all_sources(Vec::<Option<i32>>::new()));
}

#[test]
fn count_requests() {
    let indexes = ["idx"];
    let uri = CountURIOperation::new().with_indexes(&indexes).with_query("a:b".to_owned()).request();
    assert_eq!("/idx/_count?q=a:b", uri.url);
    let q = Query::build_exists("f").build();
    let body = CountQueryOperation::new().with_query(&q).request();
    assert_eq!("/_all/_count", body.url);
    assert_eq!(Some("{\"query\":{\"exists\":{\"field\":\"f\"}}}".to_owned()), body.body);
}

#[test]
fn bulk_body_has_one_line_per_header_and_document() {
    let actions = vec![
        Action::index("{\"a\":1}".to_owned()).with_id("1"),
        Action::delete("2").with_version(3),
        Action::create("{}".to_owned()).with_version_type(VersionType::External),
    ];
    let op = BulkOperation::new(&actions).with_index("idx");
    let r = op.request();
    assert_eq!("/idx/_bulk", r.url);
    assert_eq!(
        Some("{\"index\":{\"_id\":\"1\"}}\n{\"a\":1}\n{\"delete\":{\"_id\":\"2\",\"_version\":3}}\n{\"create\":{\"_version_type\":\"external\"}}\n{}\n".to_owned()),
        r.body
    );
    assert_eq!(Some(ActionType::Create), ActionType::from_key("create"));
    assert_eq!(None, ActionType::from_key("other"));
}

#[test]
fn document_requests() {
    let g = GetOperation::new("idx", "7").with_doc_type("t").request();
    assert_eq!("/idx/t/7", g.url);
    let any = GetOperation::new("index_name", "ID_VALUE").request();
    assert_eq!("/index_name/_all/ID_VALUE", any.url);
    let d = DeleteOperation::new("idx", "t", "7").with_version(2u64).request();
    assert_eq!(Method::Delete, d.method);
    assert_eq!("/idx/t/7?version=2", d.url);
    let i = IndexOperation::new("idx", "t").with_doc("{\"x\":true}".to_owned()).with_id("9").request();
    assert_eq!(Method::Put, i.method);
    assert_eq!("/idx/t/9", i.url);
    let i2 = IndexOperation::new("idx", "t").with_doc("{}".to_owned()).request();
    assert_eq!(Method::Post, i2.method);
    assert_eq!("/idx/t", i2.url);
}

#[test]
fn accepted_statuses() {
    assert!(is_accepted_status(200));
    assert!(is_accepted_status(201));
    assert!(is_accepted_status(404));
    assert!(!is_accepted_status(500));
}

#[test]
fn maps_of_one_and_two_entries() {
    let m = hashmap("a", 1);
    assert_eq!(1, m.0.len());
    let m2 = hashmap2("a", 1, "a", 2);
    assert_eq!(1, m2.0.len());
    assert_eq!(2, m2.0[0].1);
    let m3 = hashmap2("a", 1, "b", 2);
    assert_eq!(2, m3.0.len());
}

#[test]
fn mapping_steps() {
    let nothing = MappingOperation::new("idx").steps();
    assert!(nothing.is_empty());
    let with_mappings = MappingOperation::new("idx").with_mappings(Json::Object(vec![])).steps();
    assert_eq!(3, with_mappings.len());
    assert_eq!("idx/_close", with_mappings[0].request.url);
    assert_eq!(Some("{\"mappings\":{}}".to_owned()), with_mappings[1].request.body);
    assert!(with_mappings[1].must_succeed);
    assert_eq!("idx/_open", with_mappings[2].request.url);
}
