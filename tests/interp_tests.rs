use nexa_cli::interp::{
    create_action, query_action, update_action, vector_action, Action, ArgHint, CommandError, ReplyKind,
    Request, Session,
};
use nexa_cli::render::{render_reply, Hit, Rendered};
use nexa_cli::value::{Json, JsonNumber};

fn s(x: &str) -> Json {
    Json::Str(x.to_string())
}

fn u(n: u64) -> Json {
    Json::Number(JsonNumber::PosInt(n))
}

fn f(x: &str) -> Json {
    Json::Number(JsonNumber::Float(x.to_string()))
}

fn obj(fields: Vec<(&str, Json)>) -> Json {
    Json::Object(fields.into_iter().map(|(k, v)| (k.to_string(), v)).collect())
}

fn in_movies() -> Session {
    let mut ses = Session::new();
    assert_eq!(ses.handle_line("use movies"), Action::Switched("movies".to_string()));
    ses
}

#[test]
fn create_builds_collection_and_data() {
    let mut ses = in_movies();
    let a = ses.handle_line(r#"create {"title": "The Matrix", "year": 1999}"#);
    assert_eq!(
        a,
        Action::Send(Request {
            msg_type: 0x02,
            body: obj(vec![
                ("collection", s("movies")),
                ("data", obj(vec![("title", s("The Matrix")), ("year", u(1999))])),
            ]),
            kind: ReplyKind::Created,
        })
    );
}

#[test]
fn create_reply_shows_document_id() {
    let cur = Some("movies".to_string());
    let reply = obj(vec![("document_id", s("doc_abc123"))]);
    let r = render_reply(ReplyKind::Created, &cur, obj(vec![("document_id", s("doc_abc123"))]));
    assert_eq!(r, Rendered::Created { id: "doc_abc123".to_string(), result: reply });
    let r = render_reply(ReplyKind::Created, &cur, obj(vec![]));
    assert_eq!(r, Rendered::Created { id: "N/A".to_string(), result: obj(vec![]) });
}

#[test]
fn count_sends_query_with_zero_limit() {
    let mut ses = in_movies();
    let a = ses.handle_line(r#"count {"status":"active"}"#);
    assert_eq!(
        a,
        Action::Send(Request {
            msg_type: 0x06,
            body: obj(vec![
                ("collection", s("movies")),
                ("filters", obj(vec![("status", s("active"))])),
                ("limit", u(0)),
            ]),
            kind: ReplyKind::Count,
        })
    );
}

#[test]
fn count_reply_shows_count_and_ignores_documents() {
    let cur = Some("movies".to_string());
    assert_eq!(render_reply(ReplyKind::Count, &cur, obj(vec![("count", u(0))])), Rendered::Count(0));
    let reply = obj(vec![("count", u(7)), ("documents", Json::Array(vec![s("x")]))]);
    assert_eq!(render_reply(ReplyKind::Count, &cur, reply), Rendered::Count(7));
    let reply = obj(vec![("documents", Json::Array(vec![]))]);
    assert_eq!(render_reply(ReplyKind::Count, &cur, reply), Rendered::CountMissing);
}

#[test]
fn vector_search_parses_vector_limit_and_dimensions() {
    let mut ses = in_movies();
    let a = ses.handle_line("vector_search [0.1, 0.95, 0.1, 0.8] 3 4");
    let body = |limit: u64, dims: u64| {
        obj(vec![
            ("collection", s("movies")),
            ("vector", Json::Array(vec![f("0.1"), f("0.95"), f("0.1"), f("0.8")])),
            ("limit", u(limit)),
            ("dimensions", u(dims)),
        ])
    };
    assert_eq!(a, Action::Send(Request { msg_type: 0x07, body: body(3, 4), kind: ReplyKind::Similar }));
    let a = ses.handle_line("vector_search [0.1, 0.95, 0.1, 0.8]");
    assert_eq!(a, Action::Send(Request { msg_type: 0x07, body: body(10, 4), kind: ReplyKind::Similar }));
    let a = ses.handle_line("vector_search [0.1, 0.95, 0.1, 0.8] 5");
    assert_eq!(a, Action::Send(Request { msg_type: 0x07, body: body(5, 4), kind: ReplyKind::Similar }));
    let a = ses.handle_line("vector_search [0.1, 0.95, 0.1, 0.8] x +2");
    assert_eq!(a, Action::Send(Request { msg_type: 0x07, body: body(10, 2), kind: ReplyKind::Similar }));
}

#[test]
fn vector_search_errors() {
    let mut ses = in_movies();
    assert_eq!(ses.handle_line("vector_search"), Action::Fail(CommandError::MissingArgument(ArgHint::Vector)));
    assert_eq!(ses.handle_line("vector_search [0.1, 0.2"), Action::Fail(CommandError::ValueParse));
    assert_eq!(ses.handle_line(r#"vector_search ["a"]"#), Action::Fail(CommandError::ValueParse));
}

#[test]
fn vector_search_reply_lists_hits() {
    let cur = Some("movies".to_string());
    let reply = obj(vec![(
        "results",
        Json::Array(vec![
            obj(vec![("document", obj(vec![("t", s("a"))])), ("similarity", f("0.9876"))]),
            obj(vec![("other", Json::Null)]),
        ]),
    )]);
    assert_eq!(
        render_reply(ReplyKind::Similar, &cur, reply),
        Rendered::Hits(vec![
            Hit { similarity: Some(f("0.9876")), document: Some(obj(vec![("t", s("a"))])) },
            Hit { similarity: None, document: None },
        ])
    );
    assert_eq!(render_reply(ReplyKind::Similar, &cur, obj(vec![])), Rendered::NoSimilar);
}

#[test]
fn commands_need_a_collection() {
    let mut ses = Session::new();
    for line in [
        r#"create {"a": 1}"#,
        "query",
        r#"update doc_1 {"a": 2}"#,
        "delete doc_1",
        "count",
        "vector_search [1.0]",
        "CREATE {}",
    ] {
        assert_eq!(ses.handle_line(line), Action::Fail(CommandError::NoCollectionSelected));
    }
    assert_eq!(ses.current_collection, None);
}

#[test]
fn collections_marks_selected_only_when_listed() {
    let mut ses = in_movies();
    let a = ses.handle_line("collections");
    assert_eq!(a, Action::Send(Request { msg_type: 0x20, body: obj(vec![]), kind: ReplyKind::Collections }));
    let listed = obj(vec![("collections", Json::Array(vec![s("books"), s("movies"), u(3)]))]);
    assert_eq!(
        render_reply(ReplyKind::Collections, &ses.current_collection, listed),
        Rendered::Collections(vec![
            (false, "books".to_string()),
            (true, "movies".to_string()),
            (false, "unknown".to_string()),
        ])
    );
    let unlisted = obj(vec![("collections", Json::Array(vec![s("books")]))]);
    assert_eq!(
        render_reply(ReplyKind::Collections, &ses.current_collection, unlisted),
        Rendered::Collections(vec![(false, "books".to_string())])
    );
    let empty = obj(vec![("collections", Json::Array(vec![]))]);
    assert_eq!(render_reply(ReplyKind::Collections, &ses.current_collection, empty), Rendered::NoCollections);
}

#[test]
fn query_defaults_to_empty_filter() {
    let mut ses = in_movies();
    let expect = |filters: Json| {
        Action::Send(Request {
            msg_type: 0x06,
            body: obj(vec![("collection", s("movies")), ("filters", filters), ("limit", u(100))]),
            kind: ReplyKind::Documents,
        })
    };
    assert_eq!(ses.handle_line("query"), expect(obj(vec![])));
    assert_eq!(ses.handle_line("  query   "), expect(obj(vec![])));
    assert_eq!(
        ses.handle_line(r#"query {"year": {"$gte": 2000}}"#),
        expect(obj(vec![("year", obj(vec![("$gte", u(2000))]))]))
    );
    assert_eq!(ses.handle_line("query {year"), Action::Fail(CommandError::ValueParse));
}

#[test]
fn query_reply_lists_documents() {
    let cur = Some("movies".to_string());
    let reply = obj(vec![("documents", Json::Array(vec![obj(vec![("a", u(1))])]))]);
    assert_eq!(
        render_reply(ReplyKind::Documents, &cur, reply),
        Rendered::Documents(vec![obj(vec![("a", u(1))])])
    );
    assert_eq!(render_reply(ReplyKind::Documents, &cur, obj(vec![])), Rendered::NoDocuments);
}

#[test]
fn update_and_delete_requests() {
    let mut ses = in_movies();
    assert_eq!(
        ses.handle_line(r#"update doc_abc123 {"year": 2000}"#),
        Action::Send(Request {
            msg_type: 0x04,
            body: obj(vec![
                ("collection", s("movies")),
                ("document_id", s("doc_abc123")),
                ("data", obj(vec![("year", u(2000))])),
            ]),
            kind: ReplyKind::Updated("doc_abc123".to_string()),
        })
    );
    assert_eq!(ses.handle_line("update doc_abc123"), Action::Fail(CommandError::MissingArgument(ArgHint::IdAndJson)));
    assert_eq!(
        ses.handle_line("delete doc_abc123"),
        Action::Send(Request {
            msg_type: 0x05,
            body: obj(vec![("collection", s("movies")), ("document_id", s("doc_abc123"))]),
            kind: ReplyKind::Deleted("doc_abc123".to_string()),
        })
    );
    assert_eq!(ses.handle_line("delete"), Action::Fail(CommandError::MissingArgument(ArgHint::DocumentId)));
    let cur = Some("movies".to_string());
    assert_eq!(
        render_reply(ReplyKind::Deleted("doc_abc123".to_string()), &cur, Json::Null),
        Rendered::Deleted("doc_abc123".to_string())
    );
}

#[test]
fn local_commands() {
    let mut ses = Session::new();
    assert_eq!(ses.handle_line(""), Action::Nothing);
    assert_eq!(ses.handle_line("   \t "), Action::Nothing);
    assert_eq!(ses.handle_line("exit"), Action::Exit);
    assert_eq!(ses.handle_line("QUIT"), Action::Exit);
    assert_eq!(ses.handle_line("Help"), Action::Help);
    assert_eq!(ses.handle_line("use"), Action::Fail(CommandError::MissingArgument(ArgHint::CollectionName)));
    assert_eq!(ses.current_collection, None);
    assert_eq!(ses.handle_line("  USE   books  "), Action::Switched("books".to_string()));
    assert_eq!(ses.current_collection, Some("books".to_string()));
    assert_eq!(ses.handle_line("frobnicate x"), Action::Fail(CommandError::UnknownCommand("frobnicate".to_string())));
    assert_eq!(ses.current_collection, Some("books".to_string()));
}

#[test]
fn create_errors() {
    let mut ses = in_movies();
    assert_eq!(ses.handle_line("create"), Action::Fail(CommandError::MissingArgument(ArgHint::JsonData)));
    assert_eq!(ses.handle_line("create {not json}"), Action::Fail(CommandError::ValueParse));
}

#[test]
fn use_takes_exactly_one_name() {
    let mut ses = in_movies();
    assert_eq!(ses.handle_line("use a b"), Action::Fail(CommandError::ExtraArgument(ArgHint::CollectionName)));
    assert_eq!(ses.current_collection, Some("movies".to_string()));
}

#[test]
fn delete_takes_exactly_one_id() {
    let mut ses = in_movies();
    assert_eq!(ses.handle_line("delete a b"), Action::Fail(CommandError::ExtraArgument(ArgHint::DocumentId)));
}

#[test]
fn collections_takes_no_argument() {
    let mut ses = in_movies();
    assert_eq!(ses.handle_line("collections x"), Action::Fail(CommandError::ExtraArgument(ArgHint::NoArgument)));
}

#[test]
fn run_command_takes_the_lowered_word() {
    let mut ses = Session::new();
    assert_eq!(ses.run_command("use", "USE books"), Action::Switched("books".to_string()));
    assert_eq!(ses.run_command("nope", "NOPE"), Action::Fail(CommandError::UnknownCommand("nope".to_string())));
    assert_eq!(ses.current_collection, Some("books".to_string()));
}

#[test]
fn request_builders_on_parsed_values() {
    let c = "movies".to_string();
    assert_eq!(create_action(&c, None), Action::Fail(CommandError::ValueParse));
    assert_eq!(
        create_action(&c, Some(u(1))),
        Action::Send(Request {
            msg_type: 0x02,
            body: obj(vec![("collection", s("movies")), ("data", u(1))]),
            kind: ReplyKind::Created,
        })
    );
    assert_eq!(
        query_action(&c, true, None, false),
        Action::Send(Request {
            msg_type: 0x06,
            body: obj(vec![("collection", s("movies")), ("filters", obj(vec![])), ("limit", u(0))]),
            kind: ReplyKind::Count,
        })
    );
    assert_eq!(query_action(&c, false, None, true), Action::Fail(CommandError::ValueParse));
    assert_eq!(update_action(&c, "d1".to_string(), None), Action::Fail(CommandError::ValueParse));
    assert_eq!(
        vector_action(&c, Some(Json::Array(vec![u(1), u(2)])), " 7"),
        Action::Send(Request {
            msg_type: 0x07,
            body: obj(vec![
                ("collection", s("movies")),
                ("vector", Json::Array(vec![u(1), u(2)])),
                ("limit", u(7)),
                ("dimensions", u(2)),
            ]),
            kind: ReplyKind::Similar,
        })
    );
    assert_eq!(vector_action(&c, Some(s("x")), ""), Action::Fail(CommandError::ValueParse));
}
