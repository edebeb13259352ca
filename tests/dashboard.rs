use icingcake::json::JsonValue;
use icingcake::order::{bytes_less, text_eq};
use icingcake::query::{get_required_parameter, parse_query, validate_table_query, ObjectType};
use icingcake::response::{
    handle_400_missing_parameter, handle_400_wrong_parameter, handle_404, handle_index,
    handle_plaintext_response, handle_static, return_500, Page, Reply, StaticAsset,
};
use icingcake::route::{decode_path_parts, route, Route};
use icingcake::row::{sort_rows, RowPart};
use icingcake::table::{
    decode_error_body, extract_row, filter_request_body, finish_table, plan_table, upstream_url,
    UpstreamRequest,
};

fn text_of(r: &Reply) -> (u16, String) {
    match r {
        Reply::Text { status, body } => (*status, body.clone()),
        other => panic!("expected a plain-text reply, got {:?}", other),
    }
}

fn row(host: &str, service: &str, output: &str, state: u8) -> RowPart {
    RowPart {
        host: host.to_string(),
        service: service.to_string(),
        output: output.to_string(),
        state,
    }
}

fn table_rows(r: Reply) -> Vec<RowPart> {
    match r {
        Reply::Html { page: Page::Table { rows } } => rows,
        other => panic!("expected a table page, got {:?}", other),
    }
}

#[test]
fn routes_root_to_index() {
    assert!(matches!(route("/"), Route::Index));
    assert!(matches!(route(""), Route::Index));
    assert!(matches!(route("///"), Route::Index));
}

#[test]
fn routes_table() {
    assert!(matches!(route("/table"), Route::Table));
    assert!(matches!(route("//table"), Route::Table));
    assert!(matches!(route("/t%61ble"), Route::Table));
    assert!(matches!(route("/table/"), Route::NotFound));
    assert!(matches!(route("/table/x"), Route::NotFound));
}

#[test]
fn routes_static_with_decoded_name() {
    match route("/static/script.js") {
        Route::Static { name } => assert_eq!(name, "script.js"),
        other => panic!("unexpected route {:?}", other),
    }
    match route("/static/a%20b") {
        Route::Static { name } => assert_eq!(name, "a b"),
        other => panic!("unexpected route {:?}", other),
    }
    assert!(matches!(route("/static"), Route::NotFound));
    assert!(matches!(route("/static/a/b"), Route::NotFound));
    assert!(matches!(route("/other"), Route::NotFound));
}

#[test]
fn decodes_path_pieces() {
    assert_eq!(decode_path_parts("/a%2Fb/c"), vec!["", "a/b", "c"]);
    assert_eq!(decode_path_parts("x"), vec!["x"]);
    assert_eq!(decode_path_parts("/%ff"), vec!["", "\u{fffd}"]);
}

#[test]
fn unknown_static_asset_is_plain_not_found() {
    let unknown = match route("/static/unknown.js") {
        Route::Static { name } => handle_static(&name),
        other => panic!("unexpected route {:?}", other),
    };
    assert_eq!(text_of(&unknown), text_of(&handle_404()));
    assert_eq!(text_of(&unknown), (404, "404 Not Found".to_string()));
    assert_eq!(unknown.content_type(), "text/plain; charset=utf-8");
}

#[test]
fn known_static_assets() {
    for (name, ct) in [
        ("script.js", "text/javascript"),
        ("script.ts", "application/typescript"),
        ("script.js.map", "application/json"),
    ] {
        let r = handle_static(name);
        assert_eq!(r.status(), 200);
        assert_eq!(r.content_type(), ct);
        match r {
            Reply::Asset { asset } => assert_eq!(asset.name(), name),
            other => panic!("unexpected reply {:?}", other),
        }
    }
    assert_eq!(StaticAsset::lookup("script.JS"), None);
}

#[test]
fn plain_replies() {
    assert_eq!(text_of(&return_500()), (500, "500 Internal Server Error".to_string()));
    let r = handle_plaintext_response(418, "teapot".to_string());
    assert_eq!(text_of(&r), (418, "teapot".to_string()));
    let idx = handle_index();
    assert!(matches!(idx, Reply::Html { page: Page::Index }));
    assert_eq!(idx.status(), 200);
    assert_eq!(idx.content_type(), "text/html; charset=utf-8");
}

#[test]
fn parameter_messages_quote_names_and_values() {
    assert_eq!(
        text_of(&handle_400_missing_parameter("objtype")),
        (400, "missing required parameter \"objtype\"".to_string())
    );
    assert_eq!(
        text_of(&handle_400_wrong_parameter("objtype", "a\"b")),
        (400, "required parameter \"objtype\" has invalid value \"a\\\"b\"".to_string())
    );
}

#[test]
fn last_occurrence_of_parameter_wins() {
    let pairs = parse_query(Some("objtype=hosts&objtype=services&filter=x"));
    assert_eq!(get_required_parameter(&pairs, "objtype").unwrap(), "services");
    let q = validate_table_query(&pairs).unwrap();
    assert_eq!(q.objtype, ObjectType::Services);
    assert_eq!(q.filter, "x");
    let req = plan_table(Some("objtype=hosts&objtype=services&filter=x")).unwrap();
    assert_eq!(req.objtype, ObjectType::Services);
    assert_eq!(req.path, "objects/services");
}

#[test]
fn missing_parameters_are_rejected() {
    for q in [None, Some(""), Some("filter=x"), Some("objtype=hosts"), Some("objtype=hosts&filte=x")] {
        let r = plan_table(q).unwrap_err();
        let (status, body) = text_of(&r);
        assert_eq!(status, 400);
        assert!(body.starts_with("missing required parameter "), "{}", body);
    }
    let r = plan_table(Some("filter=x")).unwrap_err();
    assert_eq!(text_of(&r).1, "missing required parameter \"objtype\"");
    let r = plan_table(Some("objtype=services")).unwrap_err();
    assert_eq!(text_of(&r).1, "missing required parameter \"filter\"");
    let pairs = parse_query(None);
    assert!(pairs.is_empty());
}

#[test]
fn unknown_objtype_is_rejected() {
    let r = plan_table(Some("objtype=users&filter=x")).unwrap_err();
    assert_eq!(
        text_of(&r),
        (400, "required parameter \"objtype\" has invalid value \"users\"".to_string())
    );
    let r = plan_table(Some("objtype=Hosts")).unwrap_err();
    assert_eq!(
        text_of(&r),
        (400, "required parameter \"objtype\" has invalid value \"Hosts\"".to_string())
    );
}

#[test]
fn upstream_request_carries_filter_verbatim() {
    let req = plan_table(Some("objtype=hosts&filter=host.name%3D%3D%22a+b%22")).unwrap();
    assert_eq!(req.objtype, ObjectType::Hosts);
    assert_eq!(req.path, "objects/hosts");
    assert_eq!(req.body, "{\"filter\":\"host.name==\\\"a b\\\"\"}");
    assert_eq!(filter_request_body("\"x\""), "{\"filter\":\"x\"}");
}

#[test]
fn upstream_url_joins_path() {
    let req = plan_table(Some("objtype=services&filter=true")).unwrap();
    let u = upstream_url("https://icinga.example:5665/v1/", &req).unwrap();
    assert_eq!(u, "https://icinga.example:5665/v1/objects/services");
    let base = url::Url::parse("https://icinga.example/api").unwrap();
    assert_eq!(upstream_url(base.as_str(), &req).unwrap(), "https://icinga.example/objects/services");
}

#[test]
fn unusable_base_url_is_server_error() {
    let req = UpstreamRequest {
        objtype: ObjectType::Hosts,
        path: "objects/hosts".to_string(),
        body: "{}".to_string(),
    };
    let e = upstream_url("data:text/plain,x", &req).unwrap_err();
    assert_eq!(text_of(&e), (500, "500 Internal Server Error".to_string()));
    let e = upstream_url("not a url", &req).unwrap_err();
    assert_eq!(text_of(&e).0, 500);
}

#[test]
fn sorts_by_state_descending_then_host() {
    let rows = vec![row("b", "", "", 2), row("a", "", "", 5), row("a", "", "", 2)];
    let sorted = sort_rows(rows);
    assert_eq!(sorted, vec![row("a", "", "", 5), row("a", "", "", 2), row("b", "", "", 2)]);
}

#[test]
fn sorts_by_service_then_output() {
    let rows = vec![
        row("h", "s2", "a", 1),
        row("h", "s1", "b", 1),
        row("h", "s1", "a", 1),
        row("g", "s9", "z", 1),
        row("h", "s1", "a", 1),
    ];
    let sorted = sort_rows(rows);
    assert_eq!(
        sorted,
        vec![
            row("g", "s9", "z", 1),
            row("h", "s1", "a", 1),
            row("h", "s1", "a", 1),
            row("h", "s1", "b", 1),
            row("h", "s2", "a", 1),
        ]
    );
    assert!(sort_rows(Vec::new()).is_empty());
}

#[test]
fn row_order_comparisons() {
    assert!(row("z", "", "", 3).precedes(&row("a", "", "", 2)));
    assert!(!row("a", "", "", 2).precedes(&row("a", "", "", 2)));
    assert_eq!(row("a", "", "", 2).partial_cmp(&row("b", "", "", 2)), Some(std::cmp::Ordering::Less));
    assert_eq!(row("a", "", "", 1).partial_cmp(&row("b", "", "", 2)), Some(std::cmp::Ordering::Greater));
    assert_eq!(row("a", "x", "y", 1).partial_cmp(&row("a", "x", "y", 1)), Some(std::cmp::Ordering::Equal));
    assert!(bytes_less(b"ab", b"abc"));
    assert!(!bytes_less(b"abc", b"ab"));
    assert!(bytes_less(b"Z", b"a"));
    assert!(text_eq("h\u{e9}", "h\u{e9}"));
    assert!(!text_eq("a", "b"));
}

#[test]
fn host_result_gives_one_row() {
    let body = br#"{"results":[{"attrs":{"name":"h1","state":0,"last_check_result":{"output":"OK"}}}]}"#;
    let r = finish_table(ObjectType::Hosts, 200, body);
    assert_eq!(r.status(), 200);
    assert_eq!(r.content_type(), "text/html; charset=utf-8");
    assert_eq!(table_rows(r), vec![row("h1", "", "OK", 0)]);
}

#[test]
fn service_results_are_extracted_and_sorted() {
    let body = br#"{"results":[
        {"attrs":{"name":"disk","host_name":"h2","state":1,"last_check_result":{"output":"low"}}},
        {"attrs":{"name":"ping","host_name":"h1","state":2}},
        {"attrs":{"host_name":"h3","state":"bad"}},
        {"attrs":{"name":"load","host_name":"h4","state":300,"last_check_result":{"output":7}}},
        {"attrs":{"name":"cpu","host_name":"h5","state":-1}},
        {"nothing":true}
    ]}"#;
    let r = finish_table(ObjectType::Services, 200, body);
    assert_eq!(
        table_rows(r),
        vec![
            row("h4", "load", "", 6),
            row("", "", "", 5),
            row("h3", "", "", 5),
            row("h5", "cpu", "", 5),
            row("h1", "ping", "", 2),
            row("h2", "disk", "low", 1),
        ]
    );
}

#[test]
fn empty_results_give_empty_table() {
    let r = finish_table(ObjectType::Hosts, 200, br#"{"results":[]}"#);
    assert!(table_rows(r).is_empty());
}

#[test]
fn results_object_is_server_error() {
    let body = br#"{"results":{"attrs":{"name":"h1","state":0}}}"#;
    let r = finish_table(ObjectType::Hosts, 200, body);
    assert_eq!(text_of(&r), (500, "500 Internal Server Error".to_string()));
    let r = finish_table(ObjectType::Hosts, 200, br#"{"other":[]}"#);
    assert_eq!(text_of(&r).0, 500);
    let r = finish_table(ObjectType::Hosts, 200, br#"[1,2]"#);
    assert_eq!(text_of(&r).0, 500);
}

#[test]
fn invalid_json_is_server_error() {
    let r = finish_table(ObjectType::Services, 200, b"not json");
    assert_eq!(text_of(&r), (500, "500 Internal Server Error".to_string()));
}

#[test]
fn upstream_error_is_shown_with_outer_200() {
    let r = finish_table(ObjectType::Hosts, 404, br#"{"error":"not found"}"#);
    assert_eq!(r.status(), 200);
    assert_eq!(r.content_type(), "text/html; charset=utf-8");
    match r {
        Reply::Html { page: Page::UpstreamError { status_code, error_text } } => {
            assert_eq!(status_code, 404);
            assert_eq!(error_text, "{\"error\":\"not found\"}");
        }
        other => panic!("unexpected reply {:?}", other),
    }
}

#[test]
fn error_body_decoding_falls_back_to_latin1() {
    assert_eq!(decode_error_body(b"plain"), "plain");
    assert_eq!(decode_error_body("h\u{e9}".as_bytes()), "h\u{e9}");
    assert_eq!(decode_error_body(&[0x66, 0xff, 0xe9]), "f\u{ff}\u{e9}");
    assert_eq!(decode_error_body(&[]), "");
    let r = finish_table(ObjectType::Hosts, 500, &[0xc3]);
    match r {
        Reply::Html { page: Page::UpstreamError { status_code, error_text } } => {
            assert_eq!(status_code, 500);
            assert_eq!(error_text, "\u{c3}");
        }
        other => panic!("unexpected reply {:?}", other),
    }
}

#[test]
fn extract_row_defaults() {
    let doc = br#"{"results":[{"attrs":{"name":"x","state":7}},{"attrs":{"name":"y","state":6}}]}"#;
    assert_eq!(
        table_rows(finish_table(ObjectType::Hosts, 200, doc)),
        vec![row("x", "", "", 6), row("y", "", "", 6)]
    );
}

#[test]
fn extract_row_from_built_document() {
    let item = JsonValue::Object(vec![(
        "attrs".to_string(),
        JsonValue::Object(vec![
            ("host_name".to_string(), JsonValue::Str("web".to_string())),
            ("name".to_string(), JsonValue::Str("http".to_string())),
            ("state".to_string(), JsonValue::Number { as_u64: Some(3) }),
            (
                "last_check_result".to_string(),
                JsonValue::Object(vec![("output".to_string(), JsonValue::Str("slow".to_string()))]),
            ),
        ]),
    )]);
    assert_eq!(extract_row(ObjectType::Services, &item), row("web", "http", "slow", 3));
    assert_eq!(extract_row(ObjectType::Hosts, &item), row("http", "", "slow", 3));
    assert_eq!(extract_row(ObjectType::Hosts, &JsonValue::Null), row("", "", "", 5));
}

#[test]
fn object_type_names() {
    assert_eq!(ObjectType::from_name("hosts"), Some(ObjectType::Hosts));
    assert_eq!(ObjectType::from_name("services"), Some(ObjectType::Services));
    assert_eq!(ObjectType::from_name("host"), None);
    assert_eq!(ObjectType::Hosts.name(), "hosts");
    assert_eq!(ObjectType::Services.name(), "services");
}

#[test]
fn query_pairs_are_decoded_in_order() {
    let pairs = parse_query(Some("a=1&b=x+y&a=%32&&c"));
    let expected: Vec<(String, String)> = vec![
        ("a".to_string(), "1".to_string()),
        ("b".to_string(), "x y".to_string()),
        ("a".to_string(), "2".to_string()),
        ("c".to_string(), String::new()),
    ];
    assert_eq!(pairs, expected);
    assert_eq!(get_required_parameter(&pairs, "a").unwrap(), "2");
    assert_eq!(get_required_parameter(&pairs, "c").unwrap(), "");
    let missing = get_required_parameter(&pairs, "d").unwrap_err();
    assert_eq!(text_of(&missing), (400, "missing required parameter \"d\"".to_string()));
}

#[test]
fn leading_slashes_and_plain_pieces() {
    assert!(matches!(route("////table"), Route::Table));
    assert!(matches!(route("///static/script.ts"), Route::Static { .. }));
    assert_eq!(decode_path_parts("/a/b//c").join("/"), "/a/b//c");
}

#[test]
fn request_body_for_plain_filter() {
    let req = plan_table(Some("objtype=hosts&objtype=services&filter=x")).unwrap();
    assert_eq!(req.body, "{\"filter\":\"x\"}");
}

#[test]
fn request_body_escapes_control_characters() {
    let req = plan_table(Some("objtype=hosts&filter=a%09b%01%22%5C%C3%A9")).unwrap();
    assert_eq!(req.body, "{\"filter\":\"a\\tb\\u0001\\\"\\\\\u{e9}\"}");
}

#[test]
fn plaintext_status_outside_http_range_falls_back_to_500() {
    for status in [0u16, 42, 99, 1000, u16::MAX] {
        let r = handle_plaintext_response(status, "body".to_string());
        assert_eq!(text_of(&r), (500, "500 Internal Server Error".to_string()));
        assert_eq!(r.content_type(), "text/plain; charset=utf-8");
    }
    assert_eq!(text_of(&handle_plaintext_response(100, "a".to_string())), (100, "a".to_string()));
    assert_eq!(text_of(&handle_plaintext_response(999, "b".to_string())), (999, "b".to_string()));
}
