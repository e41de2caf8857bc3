use substrate_bridge::{
    build_request, finish, interpret_reply, BodyField, CaptureParams, Command, CommandError,
    DailyAppendParams, DailyOpenParams, Endpoint, Exchange, FieldValue, InboxParams,
    ItemUpdateParams, Method, PromoteParams, Request, SearchParams, ValidateParams,
    DEFAULT_API_BASE, TOKEN_HEADER,
};

fn endpoint(token: Option<&str>) -> Endpoint {
    Endpoint::resolve(None, token.map(|t| t.to_string()))
}

fn pairs(v: &[(&'static str, String)]) -> Vec<(String, String)> {
    v.iter().map(|(k, v)| (k.to_string(), v.clone())).collect()
}

fn expect(v: &[(&str, &str)]) -> Vec<(String, String)> {
    v.iter().map(|(k, v)| (k.to_string(), v.to_string())).collect()
}

fn keys(body: &Option<Vec<BodyField>>) -> Vec<&'static str> {
    body.as_ref().expect("a body").iter().map(|f| f.key).collect()
}

fn empty_inbox() -> InboxParams {
    InboxParams { limit: None, offset: None, sort: None, status: None, privacy: None }
}

fn all_commands() -> Vec<Command> {
    vec![
        Command::ListInbox(empty_inbox()),
        Command::GetItem("notes/a.md".to_string()),
        Command::Search(SearchParams {
            query: "foo".to_string(),
            limit: None,
            offset: None,
            status: None,
            privacy: None,
        }),
        Command::CaptureNote(CaptureParams {
            title: "T".to_string(),
            body: None,
            tags: None,
            privacy: None,
        }),
        Command::PromoteNote(PromoteParams { path: "p.md".to_string(), status: None }),
        Command::ValidateNote(ValidateParams {
            frontmatter: serde_json::Value::Null,
            body: None,
            path: None,
        }),
        Command::UpdateItem(ItemUpdateParams {
            path: "p.md".to_string(),
            frontmatter: serde_json::Value::Null,
            body: None,
            validate_only: None,
        }),
        Command::OpenDailyNote(DailyOpenParams { date: None }),
        Command::AppendDailyNote(DailyAppendParams { text: "x".to_string(), date: None }),
    ]
}

fn message(r: Result<substrate_bridge::Payload, CommandError>) -> String {
    match r {
        Ok(p) => panic!("expected an error, got {}", p.text),
        Err(e) => e.message,
    }
}

#[test]
fn success_body_passes_through_unchanged() {
    let body = "{\"ok\": true}".to_string();
    let p = finish(Exchange::Replied { status: 200, body: body.clone() }).expect("success");
    assert_eq!(p.text, body);
    let mut expected = serde_json::Map::new();
    expected.insert("ok".to_string(), serde_json::Value::Bool(true));
    assert_eq!(p.value, serde_json::Value::Object(expected));
}

#[test]
fn failure_status_reports_raw_body() {
    let r = finish(Exchange::Replied { status: 500, body: "boom".to_string() });
    assert_eq!(message(r), "api error: boom");
}

#[test]
fn failure_status_with_empty_body() {
    let r = finish(Exchange::Replied { status: 404, body: String::new() });
    assert_eq!(message(r), "api error: ");
}

#[test]
fn failure_status_with_json_body_is_still_an_error() {
    let r = finish(Exchange::Replied { status: 400, body: "{\"ok\": false}".to_string() });
    assert_eq!(message(r), "api error: {\"ok\": false}");
}

#[test]
fn connection_failure_is_unreachable() {
    assert_eq!(message(finish(Exchange::Unreachable)), "api unreachable");
}

#[test]
fn non_json_success_is_invalid() {
    let r = finish(Exchange::Replied { status: 200, body: "not json".to_string() });
    assert_eq!(message(r), "invalid api response");
}

#[test]
fn success_range_bounds() {
    assert!(finish(Exchange::Replied { status: 299, body: "[]".to_string() }).is_ok());
    assert!(finish(Exchange::Replied { status: 204, body: "1".to_string() }).is_ok());
    assert_eq!(
        message(finish(Exchange::Replied { status: 300, body: "[]".to_string() })),
        "api error: []"
    );
    assert_eq!(
        message(finish(Exchange::Replied { status: 199, body: "[]".to_string() })),
        "api error: []"
    );
}

#[test]
fn interpret_reply_uses_given_document() {
    let p = interpret_reply(201, "3".to_string(), Some(serde_json::Value::from(3))).expect("ok");
    assert_eq!(p.text, "3");
    assert_eq!(p.value, serde_json::Value::from(3));
    let r = interpret_reply(200, "3".to_string(), None);
    assert_eq!(message(r), "invalid api response");
    let r = interpret_reply(503, "down".to_string(), Some(serde_json::Value::Null));
    assert_eq!(message(r), "api error: down");
}

#[test]
fn command_error_keeps_message() {
    assert_eq!(CommandError::new("api unreachable").message, "api unreachable");
    assert_eq!(CommandError::new("").message, "");
}

#[test]
fn endpoint_defaults_and_overrides() {
    let e = Endpoint::resolve(None, None);
    assert_eq!(e.api_base, "http://127.0.0.1:8123");
    assert_eq!(e.api_base, DEFAULT_API_BASE);
    assert_eq!(e.auth_token, None);
    let e = Endpoint::resolve(Some("http://h:1".to_string()), Some("tok".to_string()));
    assert_eq!(e.api_base, "http://h:1");
    assert_eq!(e.auth_token, Some("tok".to_string()));
}

#[test]
fn inbox_defaults() {
    let r = build_request(&endpoint(None), Command::ListInbox(empty_inbox()));
    assert_eq!(r.method, Method::Get);
    assert_eq!(r.url, "http://127.0.0.1:8123/api/inbox");
    assert_eq!(
        pairs(&r.query),
        expect(&[("limit", "20"), ("offset", "0"), ("sort", "updated_desc")])
    );
    assert!(r.body.is_none());
}

#[test]
fn inbox_given_values() {
    let p = InboxParams {
        limit: Some(4294967295),
        offset: Some(105),
        sort: Some(String::new()),
        status: Some("draft".to_string()),
        privacy: Some("private".to_string()),
    };
    let r = build_request(&endpoint(None), Command::ListInbox(p));
    assert_eq!(
        pairs(&r.query),
        expect(&[
            ("limit", "4294967295"),
            ("offset", "105"),
            ("sort", ""),
            ("status", "draft"),
            ("privacy", "private"),
        ])
    );
}

#[test]
fn search_defaults() {
    let p = SearchParams {
        query: "foo".to_string(),
        limit: None,
        offset: None,
        status: None,
        privacy: None,
    };
    let r = build_request(&endpoint(None), Command::Search(p));
    assert_eq!(r.method, Method::Get);
    assert_eq!(r.url, "http://127.0.0.1:8123/api/search");
    assert_eq!(pairs(&r.query), expect(&[("q", "foo"), ("limit", "20"), ("offset", "0")]));
}

#[test]
fn search_keeps_empty_status() {
    let p = SearchParams {
        query: "a b".to_string(),
        limit: Some(5),
        offset: Some(10),
        status: Some(String::new()),
        privacy: None,
    };
    let r = build_request(&endpoint(None), Command::Search(p));
    assert_eq!(
        pairs(&r.query),
        expect(&[("q", "a b"), ("limit", "5"), ("offset", "10"), ("status", "")])
    );
}

#[test]
fn item_view_query() {
    let r = build_request(&endpoint(None), Command::GetItem("notes/a.md".to_string()));
    assert_eq!(r.method, Method::Get);
    assert_eq!(r.url, "http://127.0.0.1:8123/api/item");
    assert_eq!(pairs(&r.query), expect(&[("path", "notes/a.md")]));
}

#[test]
fn daily_open_empty_date_same_as_none() {
    let e = endpoint(None);
    let a = build_request(&e, Command::OpenDailyNote(DailyOpenParams { date: Some(String::new()) }));
    let b = build_request(&e, Command::OpenDailyNote(DailyOpenParams { date: None }));
    assert_eq!(a.url, "http://127.0.0.1:8123/api/daily/open");
    assert_eq!(a.url, b.url);
    assert!(a.query.is_empty() && b.query.is_empty());
    assert_eq!(a.method, Method::Get);
    assert_eq!(a.method, b.method);
}

#[test]
fn daily_open_with_date() {
    let r = build_request(
        &endpoint(None),
        Command::OpenDailyNote(DailyOpenParams { date: Some("2024-01-31".to_string()) }),
    );
    assert_eq!(r.url, "http://127.0.0.1:8123/api/daily/open?date=2024-01-31");
    assert!(r.query.is_empty());
}

#[test]
fn token_header_on_every_command() {
    for c in all_commands() {
        let r: Request = build_request(&endpoint(Some("s3cret")), c);
        assert_eq!(pairs(&r.headers), expect(&[("X-Substrate-Token", "s3cret")]));
        assert_eq!(r.headers[0].0, TOKEN_HEADER);
    }
    for c in all_commands() {
        let r = build_request(&endpoint(None), c);
        assert!(r.headers.is_empty());
    }
}

#[test]
fn methods_and_paths() {
    let expected = [
        (Method::Get, "/api/inbox"),
        (Method::Get, "/api/item"),
        (Method::Get, "/api/search"),
        (Method::Post, "/api/capture"),
        (Method::Post, "/api/promote"),
        (Method::Post, "/api/validate"),
        (Method::Post, "/api/item/update"),
        (Method::Get, "/api/daily/open"),
        (Method::Post, "/api/daily/append"),
    ];
    let e = Endpoint::resolve(Some("http://10.0.0.2:9".to_string()), None);
    for (c, (m, path)) in all_commands().into_iter().zip(expected.iter()) {
        let r = build_request(&e, c);
        assert_eq!(r.method, *m);
        assert_eq!(r.url, format!("http://10.0.0.2:9{}", path));
        assert_eq!(r.body.is_some(), *m == Method::Post);
        if *m == Method::Post {
            assert!(r.query.is_empty());
        }
    }
}

#[test]
fn capture_title_only() {
    let p = CaptureParams { title: "T".to_string(), body: None, tags: None, privacy: None };
    let r = build_request(&endpoint(None), Command::CaptureNote(p));
    assert_eq!(r.method, Method::Post);
    assert_eq!(keys(&r.body), vec!["title"]);
    match &r.body.as_ref().unwrap()[0].value {
        FieldValue::Text(t) => assert_eq!(t, "T"),
        other => panic!("unexpected {:?}", other),
    }
}

#[test]
fn capture_all_fields() {
    let p = CaptureParams {
        title: "T".to_string(),
        body: Some(String::new()),
        tags: Some(vec!["a".to_string(), "b".to_string()]),
        privacy: Some("public".to_string()),
    };
    let r = build_request(&endpoint(None), Command::CaptureNote(p));
    assert_eq!(keys(&r.body), vec!["title", "body", "tags", "privacy"]);
    let body = r.body.unwrap();
    match &body[1].value {
        FieldValue::Text(t) => assert_eq!(t, ""),
        other => panic!("unexpected {:?}", other),
    }
    match &body[2].value {
        FieldValue::Texts(t) => assert_eq!(t, &vec!["a".to_string(), "b".to_string()]),
        other => panic!("unexpected {:?}", other),
    }
}

#[test]
fn promote_and_append_bodies() {
    let r = build_request(
        &endpoint(None),
        Command::PromoteNote(PromoteParams { path: "p.md".to_string(), status: None }),
    );
    assert_eq!(keys(&r.body), vec!["path"]);
    let r = build_request(
        &endpoint(None),
        Command::PromoteNote(PromoteParams {
            path: "p.md".to_string(),
            status: Some("published".to_string()),
        }),
    );
    assert_eq!(keys(&r.body), vec!["path", "status"]);
    let r = build_request(
        &endpoint(None),
        Command::AppendDailyNote(DailyAppendParams {
            text: "hi".to_string(),
            date: Some(String::new()),
        }),
    );
    assert_eq!(keys(&r.body), vec!["text", "date"]);
}

#[test]
fn validate_and_update_bodies() {
    let fm = serde_json::Value::from("x");
    let r = build_request(
        &endpoint(None),
        Command::ValidateNote(ValidateParams {
            frontmatter: fm.clone(),
            body: None,
            path: Some("a.md".to_string()),
        }),
    );
    assert_eq!(keys(&r.body), vec!["frontmatter", "path"]);
    match &r.body.as_ref().unwrap()[0].value {
        FieldValue::Structured(v) => assert_eq!(v, &fm),
        other => panic!("unexpected {:?}", other),
    }
    let r = build_request(
        &endpoint(None),
        Command::UpdateItem(ItemUpdateParams {
            path: "a.md".to_string(),
            frontmatter: fm,
            body: Some("b".to_string()),
            validate_only: Some(false),
        }),
    );
    assert_eq!(keys(&r.body), vec!["path", "frontmatter", "body", "validate_only"]);
    match &r.body.as_ref().unwrap()[3].value {
        FieldValue::Flag(b) => assert!(!b),
        other => panic!("unexpected {:?}", other),
    }
}
