use std::time::Duration;
use trino_codegen::client::{
    basic_authorization, basic_authorization_for, first_step, page_of, search_step, Client,
    ClientBuilder, QueryResults, RowStream, SearchStep,
};
use trino_codegen::json::{parse_json, Json};

fn json(text: &str) -> Json {
    parse_json(text).unwrap()
}

fn page(next_uri: Option<&str>, data: Option<&str>) -> QueryResults<Json> {
    QueryResults {
        next_uri: next_uri.map(|uri| uri.to_string()),
        data: data.map(|rows| match json(rows) {
            Json::Array(rows) => rows,
            other => panic!("{other:?}"),
        }),
    }
}

#[test]
fn a_builder_collects_the_settings() {
    let client = ClientBuilder::new()
        .base_url("http://localhost")
        .port(8080)
        .user("user")
        .build();
    assert_eq!(client.base_url, "http://localhost");
    assert_eq!(client.port, 8080);
    assert_eq!(client.user, Some("user".to_string()));
    assert_eq!(client.authorization, None);
    assert_eq!(client.timeout, None);
}

#[test]
fn a_later_setting_replaces_an_earlier_one() {
    let client = ClientBuilder::new()
        .port(1)
        .base_url("http://a")
        .base_url("http://b")
        .port(2)
        .timeout(Duration::from_secs(1))
        .timeout(Duration::from_millis(2500))
        .build();
    assert_eq!(client.base_url, "http://b");
    assert_eq!(client.port, 2);
    assert_eq!(client.user, None);
    assert_eq!(client.timeout, Some(Duration::from_millis(2500)));
}

#[test]
fn user_and_password_make_the_authorization() {
    let client = ClientBuilder::new()
        .base_url("https://trino.example")
        .port(443)
        .user("Aladdin")
        .password("open sesame")
        .build();
    assert_eq!(client.authorization, Some("Basic QWxhZGRpbjpvcGVuIHNlc2FtZQ==".to_string()));
    assert_eq!(client.user, Some("Aladdin".to_string()));
    let without_user =
        ClientBuilder::new().base_url("u").port(1).password("open sesame").build();
    assert_eq!(without_user.authorization, None);
    assert_eq!(basic_authorization("Aladdin", "open sesame"), "Basic QWxhZGRpbjpvcGVuIHNlc2FtZQ==");
    assert_eq!(basic_authorization("", ""), "Basic Og==");
    assert_eq!(basic_authorization_for("abc"), "Basic abc");
}

#[test]
fn completeness_of_a_builder() {
    assert!(!ClientBuilder::new().is_complete());
    assert!(!ClientBuilder::new().base_url("u").is_complete());
    assert!(!ClientBuilder::new().port(1).user("u").password("p").is_complete());
    assert!(ClientBuilder::new().port(1).base_url("u").is_complete());
    assert!(ClientBuilder::new().base_url("u").has_base_url());
    assert!(!ClientBuilder::new().base_url("u").has_port());
    assert!(ClientBuilder::new().port(1).has_port());
    assert!(!ClientBuilder::new().port(1).has_base_url());
}

#[test]
fn plain_settings() {
    let client = Client::new("http://localhost", 8080, Some("user"));
    assert_eq!(client, ClientBuilder::new().user("user").port(8080).base_url("http://localhost").build());
    assert_eq!(client.base_url, "http://localhost");
    assert_eq!(client.port, 8080);
    assert_eq!(client.user, Some("user".to_string()));
    assert_eq!(client.authorization, None);
    assert_eq!(client.timeout, None);
    assert_eq!(Client::new("x", 0, None).user, None);
}

#[test]
fn the_statement_address() {
    assert_eq!(
        Client::new("http://localhost", 8080, None).statement_url(),
        "http://localhost:8080/v1/statement"
    );
    assert_eq!(Client::new("h", 0, None).statement_url(), "h:0/v1/statement");
    assert_eq!(Client::new("", 4294967295, None).statement_url(), ":4294967295/v1/statement");
}

#[test]
fn the_statement_headers() {
    assert_eq!(Client::new("h", 1, None).statement_headers(), vec![]);
    assert_eq!(
        Client::new("h", 1, Some("user")).statement_headers(),
        vec![("X-Trino-User".to_string(), "user".to_string())]
    );
    let client = ClientBuilder::new().base_url("h").port(1).user("u").password("p").build();
    assert_eq!(
        client.statement_headers(),
        vec![
            ("X-Trino-User".to_string(), "u".to_string()),
            ("Authorization".to_string(), "Basic dTpw".to_string()),
        ]
    );
}

#[test]
fn rows_are_gathered_page_by_page() {
    let mut stream = RowStream::begin(page(Some("uri/1"), Some("[[0]]")));
    assert_eq!(stream.rows, vec![]);
    assert_eq!(stream.pending(), Some(&"uri/1".to_string()));
    stream.accept(page(Some("uri/2"), None));
    assert_eq!(stream.rows, vec![]);
    assert_eq!(stream.pending(), Some(&"uri/2".to_string()));
    stream.accept(page(Some("uri/3"), Some("[[1, \"a\"], [2, \"b\"]]")));
    assert_eq!(stream.rows, vec![json("[1, \"a\"]"), json("[2, \"b\"]")]);
    stream.accept(page(Some("uri/4"), Some("[]")));
    stream.accept(page(None, Some("[[3, \"c\"]]")));
    assert_eq!(stream.pending(), None);
    assert_eq!(
        stream.finish(),
        vec![json("[1, \"a\"]"), json("[2, \"b\"]"), json("[3, \"c\"]")]
    );
}

#[test]
fn an_answer_without_pages_has_no_rows() {
    let stream: RowStream<Json> = RowStream::begin(page(None, Some("[[1]]")));
    assert_eq!(stream.pending(), None);
    assert_eq!(stream.finish(), vec![]);
}

#[test]
fn rows_of_any_kind_are_gathered() {
    let mut stream = RowStream::begin(QueryResults { next_uri: Some("n".to_string()), data: None });
    stream.accept(QueryResults { next_uri: None, data: Some(vec![1u8, 2, 3]) });
    assert_eq!(stream.finish(), vec![1, 2, 3]);
}

#[test]
fn the_search_for_a_document() {
    assert_eq!(
        search_step(&page(Some("next"), Some("[[\"{\\\"id\\\": 1}\"]]"))),
        SearchStep::Found("{\"id\": 1}".to_string())
    );
    assert_eq!(
        search_step(&page(None, Some("[[1], [\"last\", 2]]"))),
        SearchStep::Found("last".to_string())
    );
    assert_eq!(search_step(&page(Some("next"), None)), SearchStep::Follow("next".to_string()));
    assert_eq!(search_step(&page(Some("next"), Some("[]"))), SearchStep::Follow("next".to_string()));
    assert_eq!(
        search_step(&page(Some("next"), Some("[[\"x\"], 5]"))),
        SearchStep::Follow("next".to_string())
    );
    assert_eq!(search_step(&page(None, None)), SearchStep::Exhausted);
    assert_eq!(search_step(&page(None, Some("[{}]"))), SearchStep::Exhausted);
    assert_eq!(search_step(&page(Some("next"), Some("[[]]"))), SearchStep::Malformed);
    assert_eq!(search_step(&page(Some("next"), Some("[[1]]"))), SearchStep::Malformed);
    assert_eq!(search_step(&page(None, Some("[[null, \"x\"]]"))), SearchStep::Malformed);
}

#[test]
fn the_first_answer_holds_no_document() {
    assert_eq!(
        first_step(&page(Some("next"), Some("[[\"x\"]]"))),
        SearchStep::Follow("next".to_string())
    );
    assert_eq!(first_step(&page(None, Some("[[\"x\"]]"))), SearchStep::Exhausted);
}

#[test]
fn pages_are_read_from_documents() {
    let read = page_of(&json(r#"{"id": "q1", "nextUri": "http://h/2", "data": [[1], [2]]}"#));
    assert_eq!(read, Some(page(Some("http://h/2"), Some("[[1], [2]]"))));
    let last = page_of(&json(r#"{"id": "q1"}"#)).unwrap();
    assert_eq!(last.next_uri, None);
    assert_eq!(last.data, None);
    let nulls = page_of(&json(r#"{"nextUri": null, "data": null}"#)).unwrap();
    assert_eq!(nulls.next_uri, None);
    assert_eq!(nulls.data, None);
    assert!(page_of(&json("[]")).is_none());
    assert!(page_of(&json("null")).is_none());
    assert!(page_of(&json(r#"{"nextUri": 5}"#)).is_none());
    assert!(page_of(&json(r#"{"data": {}}"#)).is_none());
}

#[test]
fn settings_of_an_environment() {
    let client = ClientBuilder::from_environment(Some("http://trino"), "8080", Some("u"), Some("p"))
        .unwrap()
        .build();
    assert_eq!(client.base_url, "http://trino");
    assert_eq!(client.port, 8080);
    assert_eq!(client.user, Some("u".to_string()));
    assert_eq!(client.authorization, Some("Basic dTpw".to_string()));
    assert_eq!(client.timeout, None);
    let bare = ClientBuilder::from_environment(None, "+443", None, None).unwrap();
    assert!(bare.has_port());
    assert!(!bare.has_base_url());
    assert_eq!(bare.base_url("h").build().port, 443);
    for port in ["", "+", "-1", "80 ", " 80", "8o", "4294967296", "0x50", "8.0"] {
        assert!(ClientBuilder::from_environment(None, port, None, None).is_none());
    }
    assert!(ClientBuilder::from_environment(None, "4294967295", None, None).is_some());
    assert!(ClientBuilder::from_environment(None, "0", None, None).is_some());
    assert!(ClientBuilder::from_environment(None, "00080", None, None).is_some());
}
