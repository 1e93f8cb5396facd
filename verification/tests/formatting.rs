use mcp_atlassian::atlassian::auth::AtlassianAuth;
use mcp_atlassian::atlassian::error::AtlassianError;
use mcp_atlassian::jira::config::{JiraConfig, JiraDeployment};
use mcp_atlassian::jira::formatting::{
    cloud_adf_body, collect_adf_text, comment_body_for_deployment, ensure_issue_allowed,
    escape_jql_string, extract_adf_text, inject_project_filter, issue_project_key,
    merge_optional_objects, object_list_of_parsed, object_of_parsed, parse_optional_object,
    parse_optional_string_list, parse_required_object, parse_required_object_list,
    parse_required_string_list, safe_path_segment,
};
use mcp_atlassian::json::Json;
use mcp_atlassian::json_codec::parse_json;
use mcp_atlassian::string_set::StringSet;
use serde_json::Value;

fn json(text: &str) -> Json {
    parse_json(text).unwrap()
}

fn value(text: &str) -> Value {
    serde_json::from_str(text).unwrap()
}

fn to_value(json: &Json) -> Value {
    match json {
        Json::Null => Value::Null,
        Json::Bool(b) => Value::Bool(*b),
        Json::Number(text) => serde_json::from_str(text).unwrap(),
        Json::Text(text) => Value::String(text.clone()),
        Json::Array(items) => Value::Array(items.iter().map(to_value).collect()),
        Json::Object(entries) => {
            let mut map = serde_json::Map::new();
            for (key, member) in entries {
                map.insert(key.clone(), to_value(member));
            }
            Value::Object(map)
        }
    }
}

fn texts(items: &[&str]) -> Vec<String> {
    items.iter().map(|item| item.to_string()).collect()
}

fn config(projects: &[&str]) -> JiraConfig {
    JiraConfig {
        base_url: "https://jira.example".to_string(),
        deployment: JiraDeployment::ServerDataCenter,
        auth: AtlassianAuth::Pat { personal_token: "test-pat-value".to_string() },
        ssl_verify: true,
        projects_filter: StringSet::from_texts(&texts(projects)),
        timeout_seconds: 75,
    }
}

fn message(error: AtlassianError) -> String {
    match error {
        AtlassianError::InvalidInput { message } => message,
        other => panic!("unexpected {:?}", other),
    }
}

#[test]
fn extracts_minimal_adf_text() {
    let body = json(
        r#"{
            "type": "doc",
            "content": [
                {"type": "paragraph", "content": [{"type": "text", "text": "Hello"}]},
                {"type": "paragraph", "content": [{"type": "text", "text": " world"}]}
            ]
        }"#,
    );

    assert_eq!(extract_adf_text(&body), "Hello world");
}

#[test]
fn builds_minimal_cloud_adf_body() {
    let body = to_value(&cloud_adf_body("Hello"));

    assert_eq!(body["version"], 1);
    assert_eq!(body["content"][0]["content"][0]["text"], "Hello");
}

#[test]
fn parses_json_object_from_string() {
    let parsed = parse_optional_object(
        Some(Json::Text(r#"{"type":"role"}"#.to_string())),
        "visibility",
    )
    .unwrap()
    .unwrap();

    assert_eq!(to_value(&parsed)["type"], "role");
}

#[test]
fn injects_project_filter_without_mutating_original_jql() {
    let jql = inject_project_filter("status = Done", &["ABC".to_string(), "XYZ".to_string()]);

    assert_eq!(jql, "(project in (\"ABC\", \"XYZ\")) AND (status = Done)");
}

#[test]
fn adf_text_takes_plain_text_and_skips_what_is_no_text() {
    assert_eq!(extract_adf_text(&json(r#""  plain ""#)), "plain");
    assert_eq!(extract_adf_text(&json("17")), "");
    assert_eq!(extract_adf_text(&json(r#"[{"type": "text", "text": 3}, "a", null, "b"]"#)), "ab");
    assert_eq!(
        extract_adf_text(&json(r#"{"type": "text", "text": "a", "content": ["b", "c"]}"#)),
        "abc"
    );
    assert_eq!(extract_adf_text(&json(r#"{"type": "mention", "text": "a"}"#)), "");
}

#[test]
fn comment_bodies_read_back_as_their_text() {
    for deployment in [JiraDeployment::Cloud, JiraDeployment::ServerDataCenter] {
        let body = comment_body_for_deployment(deployment, "  a\n\"b\" ");
        assert_eq!(extract_adf_text(&body), "a\n\"b\"");
    }
    assert_eq!(
        to_value(&comment_body_for_deployment(JiraDeployment::ServerDataCenter, "x")),
        value(r#""x""#)
    );
    assert_eq!(
        to_value(&cloud_adf_body("x")),
        value(
            r#"{"version": 1, "type": "doc", "content": [
                {"type": "paragraph", "content": [{"type": "text", "text": "x"}]}
            ]}"#
        )
    );
}

#[test]
fn object_arguments_come_as_objects_or_as_text() {
    assert!(parse_optional_object(None, "fields").unwrap().is_none());
    let object = parse_required_object(json(r#"{"a": 1}"#), "fields").unwrap();
    assert_eq!(to_value(&object), value(r#"{"a": 1}"#));
    for refused in [r#""[1]""#, r#""not json""#, "[1]", "null", "7", "true"] {
        let error = parse_required_object(json(refused), "fields").unwrap_err();
        assert_eq!(message(error), "fields must be a JSON object");
    }
    assert!(object_of_parsed(Some(json("{}")), "x").is_ok());
    assert_eq!(
        message(object_of_parsed(None, "x").unwrap_err()),
        "x must be a JSON object"
    );
    assert!(object_of_parsed(Some(json("[]")), "x").is_err());
}

#[test]
fn string_lists_are_trimmed_and_never_blank() {
    assert_eq!(parse_optional_string_list(None, "fields").unwrap(), None);
    assert_eq!(
        parse_required_string_list(json(r#"" a ,, b,　c　, ""#), "fields").unwrap(),
        texts(&["a", "b", "c"])
    );
    assert_eq!(
        parse_required_string_list(json(r#"[" a ", "b,c"]"#), "fields").unwrap(),
        texts(&["a", "b,c"])
    );
    assert_eq!(
        parse_required_string_list(json(r#""""#), "fields").unwrap(),
        Vec::<String>::new()
    );
    for refused in [r#"["a", " "]"#, r#"["a", 1]"#, "{}", "null", "1"] {
        let error = parse_required_string_list(json(refused), "fields").unwrap_err();
        assert_eq!(message(error), "fields must be a string or array of strings");
    }
}

#[test]
fn object_lists_hold_objects_only() {
    assert_eq!(parse_required_object_list(json(r#"[{"a": 1}, {}]"#), "issues").unwrap().len(), 2);
    assert_eq!(
        parse_required_object_list(json(r#""[{\"a\": 1}]""#), "issues").unwrap().len(),
        1
    );
    assert_eq!(
        message(parse_required_object_list(json(r#"[{}, 1]"#), "issues").unwrap_err()),
        "issues must contain only JSON objects"
    );
    for refused in ["{}", r#""{}""#, r#""nope""#, "null"] {
        assert_eq!(
            message(parse_required_object_list(json(refused), "issues").unwrap_err()),
            "issues must be a JSON array"
        );
    }
    assert!(object_list_of_parsed(Some(json("[{}]")), "x").is_ok());
    assert_eq!(message(object_list_of_parsed(None, "x").unwrap_err()), "x must be a JSON array");
}

#[test]
fn merged_objects_take_the_additional_members() {
    let merged = merge_optional_objects(
        json(r#"{"a": 1, "b": 2}"#),
        Some(json(r#"{"b": 3, "c": 4}"#)),
        "additional_fields",
    )
    .unwrap();
    assert_eq!(to_value(&merged), value(r#"{"a": 1, "b": 3, "c": 4}"#));
    let same = merge_optional_objects(json(r#"{"a": 1}"#), None, "additional_fields").unwrap();
    assert_eq!(to_value(&same), value(r#"{"a": 1}"#));
    assert_eq!(
        message(merge_optional_objects(json("{}"), Some(json("[]")), "x").unwrap_err()),
        "x must be a JSON object"
    );
}

#[test]
fn issues_outside_the_filter_are_refused() {
    assert_eq!(issue_project_key("ABC-1-2"), Some("ABC"));
    assert_eq!(issue_project_key("ABC1"), None);
    assert!(ensure_issue_allowed("anything", &config(&[])).is_ok());
    assert!(ensure_issue_allowed("ABC-1", &config(&["XYZ", "ABC"])).is_ok());
    assert_eq!(
        message(ensure_issue_allowed("DEF-1", &config(&["XYZ", "ABC"])).unwrap_err()),
        "issue `DEF-1` is outside the configured Jira project filter"
    );
    assert_eq!(
        message(ensure_issue_allowed("ABC1", &config(&["ABC"])).unwrap_err()),
        "issue_key must include a project key prefix"
    );
}

#[test]
fn project_filters_narrow_and_escape() {
    assert_eq!(inject_project_filter(" a ", &[]), " a ");
    assert_eq!(inject_project_filter("", &texts(&["ABC"])), "project = \"ABC\"");
    assert_eq!(inject_project_filter(" \t", &texts(&["A", "B"])), "project in (\"A\", \"B\")");
    assert_eq!(
        inject_project_filter("x = 1", &texts(&["a\\\"b"])),
        "(project = \"a\\\\\\\"b\") AND (x = 1)"
    );
}

#[test]
fn path_segments_are_one_segment() {
    assert_eq!(safe_path_segment("  ABC-1 ", "issue_key").unwrap(), "ABC-1");
    assert_eq!(safe_path_segment("ABC-1", "issue_key").unwrap(), "ABC-1");
    for refused in ["", "  ", "a/b", "a?b", "a#b"] {
        assert_eq!(
            message(safe_path_segment(refused, "issue_key").unwrap_err()),
            "issue_key must be a non-empty path segment"
        );
    }
}

#[test]
fn an_object_and_its_text_are_the_same_argument() {
    for text in [r#"{}"#, r#"{"a": "x\"y", "b": [1, true, null], "c": {"d": -2}}"#] {
        let object = value(text);
        let written = Json::Text(object.to_string());
        let from_text = parse_optional_object(Some(written), "f").unwrap().unwrap();
        let from_object = parse_optional_object(Some(json(text)), "f").unwrap().unwrap();
        assert_eq!(to_value(&from_text), object);
        assert_eq!(to_value(&from_object), object);
    }
}

#[test]
fn document_texts_are_collected_in_order() {
    let mut collected = "start:".to_string();
    collect_adf_text(
        &json(r#"["a", null, 7, true, {"type": "rule"}, {"type": "text", "text": "b", "content": ["c"]}]"#),
        &mut collected,
    );
    assert_eq!(collected, "start:abc");
}

#[test]
fn escaped_jql_strings_differ_and_grow() {
    assert_eq!(escape_jql_string(""), "");
    assert_eq!(escape_jql_string("ABC"), "ABC");
    assert_eq!(escape_jql_string(r#"a"b\c"#), r#"a\"b\\c"#);
    let values = [r#"\""#, r#"""#, r#"\"#, r#"\\"#, r#""\"#, "x"];
    for left in values {
        let marks = left.chars().filter(|c| *c == '\\' || *c == '"').count();
        assert_eq!(escape_jql_string(left).len(), left.len() + marks);
        for right in values {
            assert_eq!(escape_jql_string(left) == escape_jql_string(right), left == right);
        }
    }
}
