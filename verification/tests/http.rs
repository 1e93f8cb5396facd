use mcp_atlassian::atlassian::auth::AtlassianAuth;
use mcp_atlassian::atlassian::error::AtlassianError;
use mcp_atlassian::atlassian::http::{
    is_success, join_paths, read_decoded, AtlassianHttpClient, HttpReply, Method,
};
use mcp_atlassian::json::Json;

fn client() -> AtlassianHttpClient {
    AtlassianHttpClient::new(
        "https://jira.example/base/",
        AtlassianAuth::Pat { personal_token: "test-pat-value".to_string() },
        75,
        true,
    )
    .unwrap()
}

fn answered(status: u16, body: &str) -> HttpReply {
    HttpReply::Answered {
        status,
        text: Some(body.to_string()),
        body: Ok(body.as_bytes().to_vec()),
    }
}

#[test]
fn joins_api_paths_under_base_url() {
    let client = client();

    assert_eq!(
        client.join_api_path("/rest/api/2/issue/ABC-1"),
        "https://jira.example/base/rest/api/2/issue/ABC-1"
    );
}

#[test]
fn request_helpers_apply_auth_header() {
    let expected_header = format!("Bearer {}", "test-pat-value");
    let request = client()
        .post_json("/rest/api/2/comment", Json::single("body", Json::text("hello")))
        .unwrap();
    let header = request.auth.bearer_header();

    assert!(header.is_some());
    assert!(header.is_some_and(|value| value == expected_header));
}

#[test]
fn paths_join_with_one_slash() {
    assert_eq!(join_paths("/", "/a"), "/a");
    assert_eq!(join_paths("", "a"), "/a");
    assert_eq!(join_paths("/base//", "//a/b/"), "/base/a/b/");
    assert_eq!(join_paths("/base", ""), "/base/");
}

#[test]
fn joined_urls_keep_the_query_and_encode_the_path() {
    let client = AtlassianHttpClient::new(
        "HTTPS://Jira.Example:443?x=1",
        AtlassianAuth::Basic { username: "u".to_string(), api_token: "t".to_string() },
        5,
        false,
    )
    .unwrap();
    assert_eq!(client.join_api_path("a b"), "https://jira.example/a%20b?x=1");
    assert_eq!(client.timeout_seconds(), 5);
    assert!(!client.ssl_verify());
    assert_eq!(client.get("x").unwrap().auth.bearer_header(), None);
    let copy = client.clone();
    assert_eq!(copy.join_api_path("a b"), client.join_api_path("a b"));
    assert_eq!(client.join_fitting_api_path("a b"), Some(client.join_api_path("a b")));
}

#[test]
fn requests_carry_method_url_and_body() {
    let client = client();
    let get = client.get("x").unwrap();
    assert_eq!(get.method, Method::Get);
    assert_eq!(get.url, "https://jira.example/base/x");
    assert!(get.query.is_empty());
    assert!(get.body.is_none());
    let post = client.post_json("x", Json::Null).unwrap();
    assert_eq!(post.method, Method::Post);
    assert_eq!(post.body, Some(Json::Null));
    let put = client.put_json("x", Json::text("a")).unwrap();
    assert_eq!(put.method, Method::Put);
    assert_eq!(put.body, Some(Json::text("a")));
}

#[test]
fn a_base_url_must_be_a_url() {
    let error = AtlassianHttpClient::new(
        "not a url",
        AtlassianAuth::Pat { personal_token: "x".to_string() },
        75,
        true,
    )
    .unwrap_err();
    assert_eq!(
        error,
        AtlassianError::InvalidBaseUrl { message: "relative URL without a base".to_string() }
    );
    assert_eq!(error.shown(), "invalid base URL: relative URL without a base");
}

#[test]
fn success_is_two_hundred_and_above() {
    assert!(!is_success(199));
    assert!(is_success(200));
    assert!(is_success(299));
    assert!(!is_success(300));
}

#[test]
fn replies_are_read_as_json() {
    let client = client();
    assert_eq!(client.send_json(answered(200, "[true]")), Ok(Json::Array(vec![Json::Bool(true)])));
    let error = client.send_json(answered(200, "not-json")).unwrap_err();
    assert!(matches!(error, AtlassianError::JsonDecode { .. }));
    assert!(error.shown().contains("JSON decode error"));
    assert!(client.send_json(answered(200, "")).is_err());
    assert_eq!(
        client.send_json(HttpReply::Unsent { message: "refused".to_string() }),
        Err(AtlassianError::Transport { message: "refused".to_string() })
    );
    assert_eq!(
        client.send_json(HttpReply::Answered {
            status: 200,
            text: None,
            body: Err("cut off".to_string()),
        }),
        Err(AtlassianError::JsonDecode { message: "cut off".to_string() })
    );
}

#[test]
fn refused_replies_keep_their_status_and_text() {
    let client = client();
    let reply = || HttpReply::Answered {
        status: 404,
        text: Some("missing".to_string()),
        body: Ok(Vec::new()),
    };
    let expected =
        AtlassianError::HttpStatus { status: 404, message: "missing".to_string() };
    let error = client.send_json(reply()).unwrap_err();
    assert_eq!(error, expected);
    assert_eq!(error.shown(), "HTTP 404: missing");
    assert!(!error.shown().contains("test-pat-value"));
    assert_eq!(client.send_json_value_or_null(reply()).unwrap_err(), expected);
    let unread = HttpReply::Answered { status: 500, text: None, body: Ok(Vec::new()) };
    assert_eq!(
        client.send_json(unread).unwrap_err().shown(),
        "HTTP 500: failed to read error response"
    );
}

#[test]
fn empty_replies_are_null_where_that_is_allowed() {
    let client = client();
    assert_eq!(client.send_json_value_or_null(answered(204, "")), Ok(Json::Null));
    assert_eq!(client.send_json_value_or_null(answered(200, "\"x\"")), Ok(Json::text("x")));
    assert!(matches!(
        client.send_json_value_or_null(answered(200, "{")),
        Err(AtlassianError::JsonDecode { .. })
    ));
    assert_eq!(
        client.send_json_value_or_null(HttpReply::Answered {
            status: 200,
            text: None,
            body: Err("cut off".to_string()),
        }),
        Err(AtlassianError::Transport { message: "cut off".to_string() })
    );
    assert_eq!(
        client.send_json_value_or_null(HttpReply::Unsent { message: "x".to_string() }),
        Err(AtlassianError::Transport { message: "x".to_string() })
    );
}

#[test]
fn errors_are_shown_with_their_kind() {
    let shown = |error: AtlassianError| error.shown();
    assert_eq!(shown(AtlassianError::invalid_input("a".to_string())), "invalid input: a");
    assert_eq!(
        shown(AtlassianError::unexpected_shape("b".to_string())),
        "unexpected response shape: b"
    );
    assert_eq!(
        shown(AtlassianError::Transport { message: "c".to_string() }),
        "transport error: c"
    );
}

#[test]
fn the_base_url_is_read_from_its_text_each_time() {
    let base = |text: &str| {
        AtlassianHttpClient::new(
            text,
            AtlassianAuth::Pat { personal_token: "x".to_string() },
            75,
            true,
        )
        .unwrap()
    };
    assert_eq!(base("mailto:a").join_api_path("b?c"), "mailto:a/b?c");
    assert_eq!(base("mailto:b?c").join_api_path("x"), "mailto:b/x?c");
    assert_eq!(base("https://h/é").join_api_path("ü#"), "https://h/%C3%A9/%C3%BC%23");
    assert_eq!(base("https://h/a/../b").join_api_path("c"), "https://h/b/c");
}

#[test]
fn what_was_decoded_is_handed_on() {
    assert_eq!(read_decoded(Ok(Json::Null)), Ok(Json::Null));
    assert_eq!(
        read_decoded(Err("bad".to_string())),
        Err(AtlassianError::JsonDecode { message: "bad".to_string() })
    );
}
