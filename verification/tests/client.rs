use mcp_atlassian::atlassian::auth::AtlassianAuth;
use mcp_atlassian::atlassian::error::AtlassianError;
use mcp_atlassian::atlassian::http::{HttpReply, Method};
use mcp_atlassian::jira::client::{
    extract_createmeta_options, FieldOptionsRequest, GetIssueRequest, JiraClient, SearchRequest,
    DEFAULT_LIMIT,
};
use mcp_atlassian::jira::config::{JiraConfig, JiraDeployment};
use mcp_atlassian::jira::models::{read_fields, JiraFieldOption};
use mcp_atlassian::json::Json;
use mcp_atlassian::json_codec::parse_json;
use mcp_atlassian::string_set::StringSet;
use serde_json::Value;

fn json(text: &str) -> Json {
    parse_json(text).unwrap()
}

fn value(text: &str) -> Value {
    serde_json::from_str(text).unwrap()
}

fn to_value(json: &Json) -> Value {
    match json {
        Json::Null => Value::Null,
        Json::Bool(b) => Value::Bool(*b),
        Json::Number(text) => serde_json::from_str(text).unwrap(),
        Json::Text(text) => Value::String(text.clone()),
        Json::Array(items) => Value::Array(items.iter().map(to_value).collect()),
        Json::Object(entries) => {
            let mut map = serde_json::Map::new();
            for (key, member) in entries {
                map.insert(key.clone(), to_value(member));
            }
            Value::Object(map)
        }
    }
}

fn texts(items: &[&str]) -> Vec<String> {
    items.iter().map(|item| item.to_string()).collect()
}

fn config(deployment: JiraDeployment, projects: &[&str]) -> JiraConfig {
    JiraConfig {
        base_url: "https://jira.example".to_string(),
        deployment,
        auth: match deployment {
            JiraDeployment::Cloud => AtlassianAuth::Basic {
                username: "user@example.com".to_string(),
                api_token: "test-api-token".to_string(),
            },
            JiraDeployment::ServerDataCenter => AtlassianAuth::Pat {
                personal_token: "test-pat-value".to_string(),
            },
        },
        ssl_verify: true,
        projects_filter: StringSet::from_texts(&texts(projects)),
        timeout_seconds: 75,
    }
}

fn server() -> JiraClient {
    JiraClient::new(config(JiraDeployment::ServerDataCenter, &[])).unwrap()
}

fn cloud() -> JiraClient {
    JiraClient::new(config(JiraDeployment::Cloud, &[])).unwrap()
}

fn filtered(projects: &[&str]) -> JiraClient {
    JiraClient::new(config(JiraDeployment::ServerDataCenter, projects)).unwrap()
}

fn pairs(query: &[(String, String)]) -> Vec<(&str, &str)> {
    query.iter().map(|(key, value)| (key.as_str(), value.as_str())).collect()
}

#[test]
fn reading_an_issue_uses_the_second_api_and_the_token() {
    let request = server()
        .get_issue(GetIssueRequest {
            issue_key: " ABC-1 ".to_string(),
            fields: Some(texts(&["summary", "status"])),
            ..Default::default()
        })
        .unwrap();

    assert_eq!(request.method, Method::Get);
    assert_eq!(request.url, "https://jira.example/rest/api/2/issue/ABC-1");
    assert_eq!(pairs(&request.query), vec![("fields", "summary,status")]);
    assert!(request.body.is_none());
    assert_eq!(request.auth.bearer_header().unwrap(), "Bearer test-pat-value");
}

#[test]
fn reading_an_issue_passes_all_parameters_in_order() {
    let request = server()
        .get_issue(GetIssueRequest {
            issue_key: "ABC-1".to_string(),
            fields: Some(texts(&["a"])),
            expand: Some(texts(&["b", "c"])),
            comment_limit: Some(20),
            properties: Some(texts(&[])),
            update_history: Some(false),
        })
        .unwrap();

    assert_eq!(
        pairs(&request.query),
        vec![
            ("fields", "a"),
            ("expand", "b,c"),
            ("properties", ""),
            ("updateHistory", "false"),
            ("commentLimit", "20"),
        ]
    );
}

#[test]
fn cloud_search_posts_to_the_third_api() {
    let request = cloud()
        .search(SearchRequest {
            jql: "status = Done".to_string(),
            limit: Some(10),
            projects_filter: Some(texts(&["ABC"])),
            page_token: Some("token".to_string()),
            ..Default::default()
        })
        .unwrap();

    assert_eq!(request.method, Method::Post);
    assert_eq!(request.url, "https://jira.example/rest/api/3/search/jql");
    assert_eq!(
        request.auth,
        AtlassianAuth::Basic {
            username: "user@example.com".to_string(),
            api_token: "test-api-token".to_string(),
        }
    );
    assert_eq!(
        to_value(&request.body.unwrap()),
        value(
            r#"{"jql": "(project = \"ABC\") AND (status = Done)", "maxResults": 10,
                "nextPageToken": "token"}"#
        )
    );
}

#[test]
fn cloud_search_lists_fields_and_expansions() {
    let request = cloud()
        .search(SearchRequest {
            jql: "x = 1".to_string(),
            fields: Some(texts(&["a", "b"])),
            expand: Some(texts(&["c", "d"])),
            ..Default::default()
        })
        .unwrap();

    assert_eq!(
        to_value(&request.body.unwrap()),
        value(r#"{"jql": "x = 1", "maxResults": 50, "fields": ["a", "b"], "expand": "c,d"}"#)
    );
}

#[test]
fn server_search_posts_to_the_second_api() {
    let request = server()
        .search(SearchRequest {
            jql: "project = ABC".to_string(),
            start_at: Some(20),
            ..Default::default()
        })
        .unwrap();

    assert_eq!(request.url, "https://jira.example/rest/api/2/search");
    assert_eq!(
        to_value(&request.body.unwrap()),
        value(
            r#"{"jql": "project = ABC", "startAt": 20, "maxResults": 50, "fields": [],
                "expand": ""}"#
        )
    );
    assert_eq!(DEFAULT_LIMIT, 50);
}

#[test]
fn searches_stay_within_the_configured_projects() {
    let jql = |client: &JiraClient, projects: Option<Vec<String>>| {
        client
            .search(SearchRequest {
                jql: "x = 1".to_string(),
                projects_filter: projects,
                ..Default::default()
            })
            .map(|request| to_value(&request.body.unwrap())["jql"].as_str().unwrap().to_string())
    };
    let client = filtered(&["B", "A"]);
    assert_eq!(jql(&client, None).unwrap(), "(project in (\"A\", \"B\")) AND (x = 1)");
    assert_eq!(jql(&client, Some(texts(&[]))).unwrap(), "(project in (\"A\", \"B\")) AND (x = 1)");
    assert_eq!(
        jql(&client, Some(texts(&["C", "B"]))).unwrap(),
        "(project = \"B\") AND (x = 1)"
    );
    assert_eq!(
        jql(&client, Some(texts(&["C"]))).unwrap_err(),
        AtlassianError::InvalidInput {
            message: "projects_filter does not overlap with configured Jira project filter"
                .to_string(),
        }
    );
    assert_eq!(
        jql(&server(), Some(texts(&["C", "B"]))).unwrap(),
        "(project in (\"C\", \"B\")) AND (x = 1)"
    );
}

#[test]
fn issues_of_a_project_are_searched_by_its_key() {
    let request = server().get_project_issues("ABC".to_string(), Some(5), Some(10)).unwrap();

    assert_eq!(request.url, "https://jira.example/rest/api/2/search");
    let body = to_value(&request.body.unwrap());
    assert_eq!(body["jql"], "project = \"ABC\"");
    assert_eq!(body["maxResults"], 5);
    assert_eq!(body["startAt"], 10);
    let quoted = server().get_project_issues("A\"B".to_string(), None, None).unwrap();
    assert_eq!(to_value(&quoted.body.unwrap())["jql"], "project = \"A\\\"B\"");
    assert!(server().get_project_issues("A/B".to_string(), None, None).is_err());
}

#[test]
fn fields_are_searched_whatever_the_case_of_letters() {
    let client = server();
    assert_eq!(client.search_fields().unwrap().url, "https://jira.example/rest/api/2/field");
    let reply = || {
        json(
            r#"[
                {"id": "summary", "name": "Summary"},
                {"id": "customfield_10001", "name": "Customer Impact",
                 "schema": {"type": "string"}},
                {"id": "f3", "name": "Other", "key": "CUSTOMERS"}
            ]"#,
        )
    };
    let found = client
        .read_fields_reply(Some("CUSTOMER".to_string()), Some(1), reply())
        .unwrap();
    assert_eq!(
        to_value(&found),
        value(
            r#"[{"id": "customfield_10001", "name": "Customer Impact",
                 "schema": {"type": "string"}}]"#
        )
    );
    let ids = |keyword: Option<&str>, limit: Option<u64>| -> Vec<String> {
        let found = client
            .read_fields_reply(keyword.map(|text| text.to_string()), limit, reply())
            .unwrap();
        to_value(&found)
            .as_array()
            .unwrap()
            .iter()
            .map(|field| field["id"].as_str().unwrap().to_string())
            .collect()
    };
    assert_eq!(ids(Some("customer"), None), texts(&["customfield_10001", "f3"]));
    assert_eq!(ids(None, None), texts(&["summary", "customfield_10001", "f3"]));
    assert_eq!(ids(None, Some(0)), texts(&[]));
    assert_eq!(ids(Some("nothing"), None), texts(&[]));
}

#[test]
fn a_field_listing_must_hold_fields() {
    for refused in ["{}", r#"[{"id": "a"}]"#, r#"[{"name": "a"}]"#, "[1]"] {
        let error = read_fields(&json(refused)).unwrap_err();
        assert_eq!(
            error.shown(),
            "JSON decode error: expected a list of fields with id and name"
        );
    }
}

#[test]
fn cloud_field_options_come_from_a_context() {
    let client = cloud();
    let request = || FieldOptionsRequest {
        field_id: "customfield_10001".to_string(),
        context_id: Some("20001".to_string()),
        values_only: true,
        ..Default::default()
    };
    let made = client.get_field_options(&request()).unwrap();
    assert_eq!(made.method, Method::Get);
    assert_eq!(
        made.url,
        "https://jira.example/rest/api/3/field/customfield_10001/context/20001/option"
    );
    assert_eq!(pairs(&made.query), vec![("maxResults", "50")]);
    let found = client
        .read_field_options_reply(request(), json(r#"{"values": [{"id": "1", "value": "High"}]}"#))
        .unwrap();
    assert_eq!(to_value(&found), value(r#"["High"]"#));
    for refused in ["{}", r#"{"values": 1}"#, r#"{"values": [1]}"#, "[]"] {
        assert_eq!(
            client.read_field_options_reply(request(), json(refused)).unwrap_err().shown(),
            "JSON decode error: expected a list of options under values"
        );
    }
    let missing = FieldOptionsRequest {
        field_id: "f".to_string(),
        ..Default::default()
    };
    assert_eq!(
        client.get_field_options(&missing).unwrap_err().shown(),
        "invalid input: context_id is required for Jira Cloud field options"
    );
}

#[test]
fn server_field_options_come_from_the_creation_of_issues() {
    let client = server();
    let request = || FieldOptionsRequest {
        field_id: " customfield_10001 ".to_string(),
        project_key: Some("ABC".to_string()),
        issue_type: Some("Bug".to_string()),
        ..Default::default()
    };
    let made = client.get_field_options(&request()).unwrap();
    assert_eq!(made.url, "https://jira.example/rest/api/2/issue/createmeta");
    assert_eq!(
        pairs(&made.query),
        vec![
            ("projectKeys", "ABC"),
            ("issuetypeNames", "Bug"),
            ("expand", "projects.issuetypes.fields"),
        ]
    );
    let reply = json(
        r#"{"projects": [{"issuetypes": [{"fields": {
            "customfield_10001": {"allowedValues": [{"id": "1", "value": "High"}]}
        }}]}]}"#,
    );
    let found = client.read_field_options_reply(request(), reply).unwrap();
    assert_eq!(to_value(&found), value(r#"{"values": [{"id": "1", "value": "High"}]}"#));
    let no_project = FieldOptionsRequest { field_id: "f".to_string(), ..Default::default() };
    assert_eq!(
        client.get_field_options(&no_project).unwrap_err().shown(),
        "invalid input: project_key is required for Jira Server/Data Center field options"
    );
    let no_type = FieldOptionsRequest {
        field_id: "f".to_string(),
        project_key: Some("ABC".to_string()),
        ..Default::default()
    };
    assert_eq!(
        client.get_field_options(&no_type).unwrap_err().shown(),
        "invalid input: issue_type is required for Jira Server/Data Center field options"
    );
    let no_field = FieldOptionsRequest { field_id: "a/b".to_string(), ..Default::default() };
    assert_eq!(
        client.get_field_options(&no_field).unwrap_err().shown(),
        "invalid input: field_id must be a non-empty path segment"
    );
}

#[test]
fn options_are_narrowed_by_label_and_limit() {
    let client = cloud();
    let found = |contains: Option<&str>, limit: Option<u64>, values_only: bool| {
        let request = FieldOptionsRequest {
            field_id: "f".to_string(),
            context_id: Some("1".to_string()),
            contains: contains.map(|text| text.to_string()),
            return_limit: limit,
            values_only,
            ..Default::default()
        };
        let reply = json(
            r#"{"values": [{"value": "Alpha"}, {"id": "2"}, {"name": "beta"},
                {"value": "ALPHABET"}]}"#,
        );
        to_value(&client.read_field_options_reply(request, reply).unwrap())
    };
    assert_eq!(found(Some("aLPHa"), None, true), value(r#"["Alpha", "ALPHABET"]"#));
    assert_eq!(found(Some("alpha"), Some(1), true), value(r#"["Alpha"]"#));
    assert_eq!(found(None, None, true), value(r#"["Alpha", "beta", "ALPHABET"]"#));
    assert_eq!(found(None, Some(2), false), value(r#"{"values": [{"value": "Alpha"}, {"id": "2"}]}"#));
    assert_eq!(found(Some("zeta"), None, false), value(r#"{"values": []}"#));
    let option = JiraFieldOption { raw: json(r#"{"name": "n", "value": "v"}"#) };
    assert_eq!(option.label(), Some("v"));
}

#[test]
fn createmeta_replies_are_searched_for_the_first_such_field() {
    let options = |text: &str| {
        extract_createmeta_options(&json(text), "f").map(|options| {
            options.iter().map(|option| to_value(&option.raw)).collect::<Vec<_>>()
        })
    };
    assert_eq!(
        options(
            r#"{"projects": [{}, {"issuetypes": [
                {"fields": 1}, {"fields": {"g": 1}},
                {"fields": {"f": {"allowedValues": [{"id": "1"}]}}},
                {"fields": {"f": {"allowedValues": []}}}
            ]}]}"#
        )
        .unwrap(),
        vec![value(r#"{"id": "1"}"#)]
    );
    let refused = |text: &str| options(text).unwrap_err();
    assert_eq!(
        refused("{}"),
        AtlassianError::UnexpectedShape {
            message: "createmeta response missing projects".to_string(),
        }
    );
    assert_eq!(
        refused(r#"{"projects": []}"#),
        AtlassianError::UnexpectedShape {
            message: "createmeta response missing field `f`".to_string(),
        }
    );
    assert_eq!(
        refused(r#"{"projects": [{"issuetypes": [{"fields": {"f": {}}}]}]}"#),
        AtlassianError::UnexpectedShape {
            message: "createmeta field missing allowedValues".to_string(),
        }
    );
    assert_eq!(
        refused(r#"{"projects": [{"issuetypes": [{"fields": {"f": {"allowedValues": [1]}}}]}]}"#),
        AtlassianError::UnexpectedShape {
            message: "createmeta option is not a JSON object".to_string(),
        }
    );
}

#[test]
fn comments_are_posted_in_the_form_of_the_service() {
    let request = server()
        .add_comment("ABC-1".to_string(), "Hello".to_string(), None)
        .unwrap();
    assert_eq!(request.method, Method::Post);
    assert_eq!(request.url, "https://jira.example/rest/api/2/issue/ABC-1/comment");
    assert_eq!(to_value(&request.body.unwrap()), value(r#"{"body": "Hello"}"#));
    let request = cloud()
        .add_comment(
            "ABC-1".to_string(),
            "Hello".to_string(),
            Some(Json::Text(r#"{"type": "role"}"#.to_string())),
        )
        .unwrap();
    assert_eq!(request.url, "https://jira.example/rest/api/3/issue/ABC-1/comment");
    let body = to_value(&request.body.unwrap());
    assert_eq!(body["body"]["content"][0]["content"][0]["text"], "Hello");
    assert_eq!(body["visibility"], value(r#"{"type": "role"}"#));
    let refused = server().add_comment("ABC-1".to_string(), "x".to_string(), Some(json("1")));
    assert_eq!(
        refused.unwrap_err().shown(),
        "invalid input: visibility must be a JSON object"
    );
}

#[test]
fn comments_are_replaced_by_their_id() {
    let request = server()
        .edit_comment(
            "ABC-1".to_string(),
            "10".to_string(),
            "Updated".to_string(),
            Some(json(r#"{"type": "role", "value": "Developers"}"#)),
        )
        .unwrap();

    assert_eq!(request.method, Method::Put);
    assert_eq!(request.url, "https://jira.example/rest/api/2/issue/ABC-1/comment/10");
    assert_eq!(
        to_value(&request.body.unwrap()),
        value(r#"{"body": "Updated", "visibility": {"type": "role", "value": "Developers"}}"#)
    );
    let refused =
        server().edit_comment("ABC-1".to_string(), "1/2".to_string(), "x".to_string(), None);
    assert_eq!(
        refused.unwrap_err().shown(),
        "invalid input: comment_id must be a non-empty path segment"
    );
}

#[test]
fn transitions_are_listed_and_posted() {
    let listed = server().get_transitions("ABC-1".to_string()).unwrap();
    assert_eq!(listed.method, Method::Get);
    assert_eq!(listed.url, "https://jira.example/rest/api/2/issue/ABC-1/transitions");
    let request = server()
        .transition_issue(
            "ABC-1".to_string(),
            "31".to_string(),
            Some(json(r#"{"resolution": {"name": "Done"}}"#)),
            Some("Resolved".to_string()),
        )
        .unwrap();
    assert_eq!(request.method, Method::Post);
    assert_eq!(request.url, "https://jira.example/rest/api/2/issue/ABC-1/transitions");
    assert_eq!(
        to_value(&request.body.unwrap()),
        value(
            r#"{"transition": {"id": "31"}, "fields": {"resolution": {"name": "Done"}},
                "update": {"comment": [{"add": {"body": "Resolved"}}]}}"#
        )
    );
    let plain = server().transition_issue("ABC-1".to_string(), "31".to_string(), None, None);
    assert_eq!(
        to_value(&plain.unwrap().body.unwrap()),
        value(r#"{"transition": {"id": "31"}}"#)
    );
}

#[test]
fn transitions_report_the_response() {
    let client = server();
    let response = client
        .http
        .send_json_value_or_null(HttpReply::Answered {
            status: 204,
            text: None,
            body: Ok(Vec::new()),
        })
        .unwrap();
    let report = client.read_transition_reply(" ABC-1 ".to_string(), "31".to_string(), response);
    assert_eq!(
        to_value(&report),
        value(r#"{"issue_key": "ABC-1", "transition_id": "31", "response": null}"#)
    );
}

#[test]
fn no_request_is_made_for_an_issue_outside_the_filter() {
    let client = filtered(&["ABC"]);
    let expected = "invalid input: issue `XYZ-1` is outside the configured Jira project filter";
    let key = || "XYZ-1".to_string();
    let read = client.get_issue(GetIssueRequest { issue_key: key(), ..Default::default() });
    assert_eq!(read.unwrap_err().shown(), expected);
    assert_eq!(client.get_transitions(key()).unwrap_err().shown(), expected);
    assert_eq!(
        client.add_comment(key(), "x".to_string(), None).unwrap_err().shown(),
        expected
    );
    assert_eq!(
        client.edit_comment(key(), "1".to_string(), "x".to_string(), None).unwrap_err().shown(),
        expected
    );
    assert_eq!(
        client.transition_issue(key(), "1".to_string(), None, None).unwrap_err().shown(),
        expected
    );
    assert!(client.get_transitions("ABC-1".to_string()).is_ok());
}

#[test]
fn a_client_needs_a_base_url() {
    let mut broken = config(JiraDeployment::Cloud, &[]);
    broken.base_url = "".to_string();
    assert_eq!(
        JiraClient::new(broken).unwrap_err().shown(),
        "invalid base URL: relative URL without a base"
    );
}

#[test]
fn search_replies_name_the_next_page() {
    let found = cloud()
        .read_search_reply(json(
            r#"{"issues": [{"key": "A-1", "fields": {"summary": "One"}}, {"key": "A-2"}],
                "nextPageToken": "next", "isLast": false}"#,
        ))
        .unwrap();
    assert_eq!(
        to_value(&found),
        value(
            r#"{"issues": [
                    {"key": "A-1", "fields": {"summary": "One"}, "summary": "One"},
                    {"key": "A-2", "fields": null, "summary": null}
                ],
                "next_page_token": "next", "isLast": false}"#
        )
    );
    let last = cloud()
        .read_search_reply(json(r#"{"issues": [], "next_page_token": "stale"}"#))
        .unwrap();
    assert_eq!(to_value(&last), value(r#"{"issues": []}"#));
    assert_eq!(
        cloud().read_search_reply(json("[]")).unwrap_err().shown(),
        "JSON decode error: expected a JSON object"
    );
}

#[test]
fn issue_replies_have_their_summary_at_hand() {
    let issue = server().read_issue_reply(json(r#"{"key": "ABC-1"}"#)).unwrap();
    assert_eq!(to_value(&issue), value(r#"{"key": "ABC-1", "fields": null, "summary": null}"#));
    let issue = server()
        .read_issue_reply(json(r#"{"id": "10001", "key": "ABC-1", "fields": {"summary": "Demo"}}"#))
        .unwrap();
    assert_eq!(to_value(&issue)["summary"], "Demo");
    assert!(server().read_issue_reply(json("null")).is_err());
}

#[test]
fn comment_replies_hold_plain_text() {
    let comment = |text: &str| to_value(&server().read_comment_reply(json(text)).unwrap());
    assert_eq!(
        comment(r#"{"id": "10"}"#),
        value(r#"{"id": "10", "body": "", "author": {"display_name": null}}"#)
    );
    let hello = comment(r#"{"id": "10", "body": "Hello", "author": {"displayName": "Ada"}}"#);
    assert_eq!(hello["body"], "Hello");
    assert_eq!(hello["author"]["display_name"], "Ada");
    let updated = comment(
        r#"{"id": "10", "visibility": {"type": "role", "value": "Developers"},
            "body": {"type": "doc", "content": [{"type": "text", "text": " Updated "}]}}"#,
    );
    assert_eq!(updated["visibility"]["value"], "Developers");
    assert_eq!(updated["body"], "Updated");
    assert!(server().read_comment_reply(json("1")).is_err());
}

#[test]
fn transition_replies_are_complete() {
    let listing = |text: &str| to_value(&server().read_transitions_reply(json(text)).unwrap());
    assert_eq!(
        listing(r#"{"transitions": [{"id": "31", "name": "Done"}]}"#),
        value(
            r#"{"transitions": [
                {"id": "31", "name": "Done", "fields": null, "to": {"name": null}}
            ]}"#
        )
    );
    assert_eq!(
        listing(r#"{"transitions": [{"id": "1", "to": {"id": "3", "name": "Open"}}]}"#),
        value(
            r#"{"transitions": [
                {"id": "1", "fields": null, "to": {"id": "3", "name": "Open"}}
            ]}"#
        )
    );
    assert_eq!(listing("{}"), value(r#"{"transitions": []}"#));
    assert!(server().read_transitions_reply(json("[]")).is_err());
}

#[test]
fn requests_and_clients_can_be_copied() {
    let request = SearchRequest {
        jql: "x = 1".to_string(),
        fields: Some(texts(&["a"])),
        page_token: Some("t".to_string()),
        ..Default::default()
    };
    let client = cloud();
    assert_eq!(
        client.clone().search(request.clone()).unwrap().body,
        client.search(request).unwrap().body
    );
    let read = GetIssueRequest { issue_key: "A-1".to_string(), ..Default::default() };
    assert_eq!(read.clone().issue_key, read.issue_key);
    let options = FieldOptionsRequest { field_id: "f".to_string(), ..Default::default() };
    assert_eq!(options.clone().field_id, options.field_id);
}
