use mcp_atlassian::atlassian::auth::AtlassianAuth;
use mcp_atlassian::atlassian::error::AtlassianError;
use mcp_atlassian::atlassian::http::Method;
use mcp_atlassian::config::RuntimeConfig;
use mcp_atlassian::context::AppContext;
use mcp_atlassian::jira::config::{JiraConfig, JiraDeployment};
use mcp_atlassian::jira::tools::{
    JiraAddCommentArgs, JiraAddIssuesToSprintArgs, JiraAddWatcherArgs, JiraAddWorklogArgs,
    JiraBatchCreateIssuesArgs, JiraBatchCreateVersionsArgs, JiraBatchGetChangelogsArgs,
    JiraCreateIssueArgs, JiraCreateIssueLinkArgs, JiraCreateRemoteIssueLinkArgs,
    JiraCreateSprintArgs, JiraCreateVersionArgs, JiraDeleteIssueArgs, JiraDownloadAttachmentsArgs,
    JiraEditCommentArgs, JiraGetAgileBoardsArgs, JiraGetAllProjectsArgs, JiraGetBoardIssuesArgs,
    JiraGetFieldOptionsArgs, JiraGetIssueArgs, JiraGetIssueDatesArgs,
    JiraGetIssueDevelopmentInfoArgs, JiraGetIssueImagesArgs, JiraGetIssueProformaFormsArgs,
    JiraGetIssueSlaArgs, JiraGetIssueWatchersArgs, JiraGetIssuesDevelopmentInfoArgs,
    JiraGetProformaFormDetailsArgs, JiraGetProjectComponentsArgs, JiraGetProjectIssuesArgs,
    JiraGetProjectVersionsArgs, JiraGetQueueIssuesArgs, JiraGetServiceDeskForProjectArgs,
    JiraGetServiceDeskQueuesArgs, JiraGetSprintIssuesArgs, JiraGetSprintsFromBoardArgs,
    JiraGetTransitionsArgs, JiraGetUserProfileArgs, JiraGetWorklogArgs, JiraLinkToEpicArgs,
    JiraRemoveIssueLinkArgs, JiraRemoveWatcherArgs, JiraSearchArgs, JiraTransitionIssueArgs,
    JiraUpdateIssueArgs, JiraUpdateProformaFormAnswersArgs, JiraUpdateSprintArgs,
};
use mcp_atlassian::json::Json;
use mcp_atlassian::json_codec::parse_json;
use mcp_atlassian::mcp::args::{
    optional_non_empty_arg, optional_positive_i64_arg, optional_positive_u64_arg,
    parse_required_object_arg, parse_required_object_list_arg, parse_required_string_list_arg,
    required_non_empty_arg, take_optional_string_alias, take_optional_string_field,
    take_required_string_field,
};
use mcp_atlassian::mcp::calls::ClientCall;
use mcp_atlassian::mcp::payloads::{
    add_worklog_payload_from_args, batch_create_issue_updates_from_args,
    create_issue_fields_from_args, create_issue_fields_from_value,
    create_sprint_payload_from_args, issue_link_payload_from_args, normalize_issue_fields,
    remote_issue_link_payload_from_args, update_issue_fields_from_args,
    update_sprint_payload_from_args, version_payload_from_args, version_payload_from_value,
    version_payloads_from_args,
};
use mcp_atlassian::mcp::{field_options_request, filter_link_types, AtlassianMcpServer};
use mcp_atlassian::mcp_errors::{
    jira_error, upstream_error, upstream_error_message, ErrorCode, ErrorData,
};
use mcp_atlassian::string_set::StringSet;
use serde_json::Value;

fn json(text: &str) -> Json {
    parse_json(text).unwrap()
}

fn value(text: &str) -> Value {
    serde_json::from_str(text).unwrap()
}

fn to_value(json: &Json) -> Value {
    match json {
        Json::Null => Value::Null,
        Json::Bool(b) => Value::Bool(*b),
        Json::Number(text) => serde_json::from_str(text).unwrap(),
        Json::Text(text) => Value::String(text.clone()),
        Json::Array(items) => Value::Array(items.iter().map(to_value).collect()),
        Json::Object(entries) => {
            let mut map = serde_json::Map::new();
            for (key, member) in entries {
                map.insert(key.clone(), to_value(member));
            }
            Value::Object(map)
        }
    }
}

fn s(text: &str) -> String {
    text.to_string()
}

fn texts(items: &[&str]) -> Vec<String> {
    items.iter().map(|item| item.to_string()).collect()
}

fn server_of(deployment: JiraDeployment) -> AtlassianMcpServer {
    let config = RuntimeConfig {
        jira: Some(JiraConfig {
            base_url: s("https://jira.example"),
            deployment,
            auth: AtlassianAuth::Pat { personal_token: s("test-pat-value") },
            ssl_verify: true,
            projects_filter: StringSet::new(),
            timeout_seconds: 75,
        }),
        atlassian_oauth_cloud_id: Some(s("cloud-123")),
        ..RuntimeConfig::default()
    };
    AtlassianMcpServer::new(AppContext::from_config(&config))
}

fn server() -> AtlassianMcpServer {
    server_of(JiraDeployment::ServerDataCenter)
}

fn create_args(additional: Option<&str>) -> JiraCreateIssueArgs {
    JiraCreateIssueArgs {
        project_key: s(" ABC "),
        summary: s("Created issue"),
        issue_type: s("Task"),
        assignee: Some(s("ada")),
        description: Some(s("Text")),
        components: Some(json(r#"["API", "UI"]"#)),
        additional_fields: additional.map(json),
    }
}

fn refused<T>(result: Result<T, ErrorData>) -> String {
    match result {
        Ok(_) => panic!("accepted"),
        Err(error) => {
            assert_eq!(error.code, ErrorCode::InvalidParams);
            error.message
        }
    }
}

#[test]
fn stage_three_handler_arg_helpers_validate_json_shapes() {
    assert!(parse_required_object_arg(json(r#""[]""#), "fields")
        .unwrap_err()
        .message
        .contains("fields must be a JSON object"));
    assert!(parse_required_object_list_arg(
        json(r#"[{"fields": {"summary": "ok"}}, "bad"]"#),
        "issues"
    )
    .unwrap_err()
    .message
    .contains("issues must contain only JSON objects"));
    assert!(parse_required_string_list_arg(json(r#"{"bad": "shape"}"#), "issue_keys")
        .unwrap_err()
        .message
        .contains("issue_keys must be a string or array of strings"));
}

#[test]
fn texts_and_numbers_are_checked() {
    assert_eq!(required_non_empty_arg(s(" a "), "name").unwrap(), "a");
    assert_eq!(
        refused(required_non_empty_arg(s(" \n"), "name")),
        "invalid input: name must not be empty"
    );
    assert_eq!(optional_non_empty_arg(Some(s(" a "))), Some(s("a")));
    assert_eq!(optional_non_empty_arg(Some(s("  "))), None);
    assert_eq!(optional_non_empty_arg(None), None);
    assert_eq!(optional_positive_i64_arg(Some(1), "limit").unwrap(), Some(1));
    assert_eq!(optional_positive_i64_arg(None, "limit").unwrap(), None);
    assert_eq!(
        refused(optional_positive_i64_arg(Some(-1), "limit")),
        "invalid input: limit must be positive"
    );
    assert_eq!(
        refused(optional_positive_u64_arg(Some(0), "max_bytes")),
        "invalid input: max_bytes must be positive"
    );
    assert_eq!(optional_positive_u64_arg(Some(7), "max_bytes").unwrap(), Some(7));
}

#[test]
fn members_are_taken_out_of_objects() {
    let object = || match json(r#"{"a": " x ", "b": null, "c": 1, "d": " "}"#) {
        Json::Object(entries) => entries,
        _ => unreachable!(),
    };
    let mut entries = object();
    assert_eq!(take_required_string_field(&mut entries, "a").unwrap(), "x");
    assert_eq!(
        refused(take_required_string_field(&mut entries, "a")),
        "invalid input: a is required"
    );
    assert_eq!(
        refused(take_required_string_field(&mut entries, "c")),
        "invalid input: c must be a string"
    );
    assert_eq!(
        refused(take_required_string_field(&mut entries, "d")),
        "invalid input: d must not be empty"
    );
    assert_eq!(to_value(&Json::Object(entries)), value(r#"{"b": null}"#));
    let mut entries = object();
    assert_eq!(take_optional_string_field(&mut entries, "b").unwrap(), None);
    assert_eq!(take_optional_string_field(&mut entries, "e").unwrap(), None);
    assert_eq!(
        refused(take_optional_string_field(&mut entries, "c")),
        "invalid input: c must be a string"
    );
    let mut entries = object();
    assert_eq!(take_optional_string_alias(&mut entries, "d", "a").unwrap(), Some(s("x")));
    assert_eq!(to_value(&Json::Object(entries)), value(r#"{"b": null, "c": 1}"#));
    let mut entries = object();
    assert_eq!(take_optional_string_alias(&mut entries, "a", "c").unwrap(), Some(s("x")));
    assert_eq!(
        to_value(&Json::Object(entries)),
        value(r#"{"b": null, "c": 1, "d": " "}"#)
    );
}

#[test]
fn new_issues_take_their_fields_from_the_arguments() {
    let fields =
        create_issue_fields_from_args(create_args(None), JiraDeployment::ServerDataCenter).unwrap();
    assert_eq!(
        to_value(&fields),
        value(
            r#"{"project": {"key": "ABC"}, "summary": "Created issue",
                "issuetype": {"name": "Task"}, "description": "Text",
                "assignee": {"name": "ada"},
                "components": [{"name": "API"}, {"name": "UI"}]}"#
        )
    );
    let fields = create_issue_fields_from_args(
        create_args(Some(r#"{"summary": "Other", "labels": ["x"]}"#)),
        JiraDeployment::Cloud,
    )
    .unwrap();
    let fields = to_value(&fields);
    assert_eq!(fields["summary"], "Other");
    assert_eq!(fields["labels"], value(r#"["x"]"#));
    assert_eq!(fields["assignee"], value(r#"{"accountId": "ada"}"#));
    assert_eq!(fields["description"]["type"], "doc");
}

#[test]
fn new_issues_leave_blank_arguments_out() {
    let mut args = create_args(None);
    args.assignee = Some(s(" "));
    args.description = None;
    args.components = Some(json(r#"" , ""#));
    let fields =
        create_issue_fields_from_args(args, JiraDeployment::ServerDataCenter).unwrap();
    assert_eq!(
        to_value(&fields),
        value(
            r#"{"project": {"key": "ABC"}, "summary": "Created issue",
                "issuetype": {"name": "Task"}}"#
        )
    );
    let mut args = create_args(None);
    args.summary = s("");
    assert_eq!(
        refused(create_issue_fields_from_args(args, JiraDeployment::Cloud)),
        "invalid input: summary must not be empty"
    );
    assert_eq!(
        refused(create_issue_fields_from_args(create_args(Some("[]")), JiraDeployment::Cloud)),
        "invalid input: additional_fields must be a JSON object"
    );
}

#[test]
fn new_issues_of_many_keep_what_else_they_hold() {
    let fields = create_issue_fields_from_value(
        json(
            r#"{"project_key": "ABC", "summary": "One", "issue_type": "Bug", "assignee": null,
                "components": "API", "labels": ["x"]}"#,
        ),
        JiraDeployment::ServerDataCenter,
    )
    .unwrap();
    assert_eq!(
        to_value(&fields),
        value(
            r#"{"project": {"key": "ABC"}, "summary": "One", "issuetype": {"name": "Bug"},
                "components": [{"name": "API"}], "labels": ["x"]}"#
        )
    );
    let updates = batch_create_issue_updates_from_args(
        json(
            r#"[{"project_key": "A", "summary": "1", "issue_type": "Bug"},
                {"project_key": "B", "summary": "2", "issue_type": "Task"}]"#,
        ),
        JiraDeployment::Cloud,
    )
    .unwrap();
    assert_eq!(
        updates.iter().map(to_value).collect::<Vec<_>>(),
        vec![
            value(
                r#"{"fields": {"project": {"key": "A"}, "summary": "1",
                    "issuetype": {"name": "Bug"}}}"#
            ),
            value(
                r#"{"fields": {"project": {"key": "B"}, "summary": "2",
                    "issuetype": {"name": "Task"}}}"#
            ),
        ]
    );
    assert_eq!(
        refused(batch_create_issue_updates_from_args(
            json(r#"[{"project_key": "A", "summary": "1"}, {}]"#),
            JiraDeployment::Cloud
        )),
        "invalid input: issue_type is required"
    );
}

fn update_args(fields: &str, components: Option<&str>, additional: Option<&str>) -> JiraUpdateIssueArgs {
    JiraUpdateIssueArgs {
        issue_key: s("ABC-1"),
        fields: json(fields),
        components: components.map(json),
        additional_fields: additional.map(json),
        notify_users: Some(false),
    }
}

#[test]
fn updates_are_written_as_the_service_takes_them() {
    let (update, additional) = update_issue_fields_from_args(
        update_args(
            r#"{"description": "Text", "assignee": "ada", "summary": "New"}"#,
            Some(r#"["API"]"#),
            Some(r#"{"labels": ["x"]}"#),
        ),
        JiraDeployment::ServerDataCenter,
    )
    .unwrap();
    assert_eq!(update.issue_key, "ABC-1");
    assert_eq!(update.notify_users, Some(false));
    assert_eq!(
        to_value(&update.fields),
        value(r#"{"description": "Text", "assignee": {"name": "ada"}, "summary": "New"}"#)
    );
    assert_eq!(
        to_value(&additional.unwrap()),
        value(r#"{"labels": ["x"], "components": [{"name": "API"}]}"#)
    );
    let (update, additional) = update_issue_fields_from_args(
        update_args("{}", Some(r#""API""#), None),
        JiraDeployment::Cloud,
    )
    .unwrap();
    assert_eq!(to_value(&update.fields), value("{}"));
    assert_eq!(to_value(&additional.unwrap()), value(r#"{"components": [{"name": "API"}]}"#));
}

#[test]
fn updates_must_change_something_and_carry_no_attachments() {
    let update = |fields: &str, components: Option<&str>, additional: Option<&str>| {
        refused(update_issue_fields_from_args(
            update_args(fields, components, additional),
            JiraDeployment::Cloud,
        ))
    };
    assert_eq!(
        update("{}", Some(r#""""#), None),
        "invalid input: fields must contain at least one update"
    );
    assert_eq!(
        update(r#"{"attachments": []}"#, None, None),
        "invalid input: fields.attachments is not supported by jira_update_issue in Stage 3"
    );
    assert_eq!(
        update("{}", None, Some(r#"{"attachments": null}"#)),
        "invalid input: additional_fields.attachments is not supported by jira_update_issue in Stage 3"
    );
    assert_eq!(update("[]", None, None), "invalid input: fields must be a JSON object");
    assert_eq!(
        refused(normalize_issue_fields(json("1"), JiraDeployment::Cloud, "fields")),
        "invalid input: fields must be a JSON object"
    );
}

#[test]
fn versions_are_built_from_arguments_and_values() {
    let payload = version_payload_from_args(JiraCreateVersionArgs {
        project_key: s("ABC"),
        name: s("1.0"),
        start_date: Some(s("2026-01-01")),
        release_date: Some(s(" ")),
        description: Some(s("First")),
    })
    .unwrap();
    assert_eq!(
        to_value(&payload),
        value(
            r#"{"project": "ABC", "name": "1.0", "startDate": "2026-01-01",
                "description": "First"}"#
        )
    );
    let payload = version_payload_from_value(
        json(
            r#"{"name": "2.0", "start_date": "a", "releaseDate": "b", "release_date": "c",
                "archived": true}"#,
        ),
        "ABC",
    )
    .unwrap();
    assert_eq!(
        to_value(&payload),
        value(
            r#"{"project": "ABC", "name": "2.0", "startDate": "a", "releaseDate": "b",
                "release_date": "c", "archived": true}"#
        )
    );
    assert_eq!(
        refused(version_payload_from_value(json(r#"{"name": 1}"#), "ABC")),
        "invalid input: name must be a string"
    );
    assert_eq!(
        version_payloads_from_args(json(r#"[{"name": "a"}, {"name": "b"}]"#), "ABC").unwrap().len(),
        2
    );
    assert_eq!(
        refused(version_payloads_from_args(json(r#"[{"name": "a"}, {}]"#), "ABC")),
        "invalid input: name is required"
    );
}

#[test]
fn worklog_entries_carry_their_estimate_in_the_query() {
    let args = |visibility: Option<Json>| JiraAddWorklogArgs {
        issue_key: s("ABC-1"),
        time_spent: s("1h"),
        started: Some(s("2026-01-01T00:00:00.000+0000")),
        comment: Some(s("Did work")),
        visibility,
        adjust_estimate: Some(s("new")),
        new_estimate: Some(s("2h")),
        reduce_by: Some(s(" ")),
    };
    let (issue_key, payload, query) = add_worklog_payload_from_args(
        args(Some(json(r#"{"type": "role"}"#))),
        JiraDeployment::ServerDataCenter,
    )
    .unwrap();
    assert_eq!(issue_key, "ABC-1");
    assert_eq!(
        to_value(&payload),
        value(
            r#"{"timeSpent": "1h", "started": "2026-01-01T00:00:00.000+0000",
                "comment": "Did work", "visibility": {"type": "role"}}"#
        )
    );
    assert_eq!(
        query,
        vec![(s("adjustEstimate"), s("new")), (s("newEstimate"), s("2h"))]
    );
    assert_eq!(
        refused(add_worklog_payload_from_args(args(Some(json("[]"))), JiraDeployment::Cloud)),
        "invalid input: visibility must be a JSON object"
    );
}

#[test]
fn links_are_built_from_arguments() {
    let payload = issue_link_payload_from_args(
        JiraCreateIssueLinkArgs {
            link_type: s("Blocks"),
            inward_issue_key: s("ABC-1"),
            outward_issue_key: s("ABC-2"),
            comment: Some(s("why")),
        },
        JiraDeployment::ServerDataCenter,
    )
    .unwrap();
    assert_eq!(
        to_value(&payload),
        value(
            r#"{"type": {"name": "Blocks"}, "inwardIssue": {"key": "ABC-1"},
                "outwardIssue": {"key": "ABC-2"}, "comment": {"body": "why"}}"#
        )
    );
    let remote = |status: Option<Json>| JiraCreateRemoteIssueLinkArgs {
        issue_key: s("ABC-1"),
        url: s("https://example.invalid/doc"),
        title: s(" Design doc "),
        summary: Some(s("Short")),
        icon_url: Some(s("https://example.invalid/icon")),
        status,
        global_id: Some(s("g")),
        relationship: None,
    };
    let (issue_key, payload) =
        remote_issue_link_payload_from_args(remote(Some(json(r#"{"resolved": true}"#)))).unwrap();
    assert_eq!(issue_key, "ABC-1");
    assert_eq!(
        to_value(&payload),
        value(
            r#"{"object": {"url": "https://example.invalid/doc", "title": "Design doc",
                "summary": "Short",
                "icon": {"url16x16": "https://example.invalid/icon", "title": "Design doc"},
                "status": {"resolved": true}}, "globalId": "g"}"#
        )
    );
    assert_eq!(
        refused(remote_issue_link_payload_from_args(remote(Some(json("1"))))),
        "invalid input: status must be a JSON object"
    );
}

#[test]
fn sprints_are_built_from_arguments() {
    let payload = create_sprint_payload_from_args(JiraCreateSprintArgs {
        name: s("Sprint"),
        origin_board_id: 18446744073709551615,
        start_date: None,
        end_date: Some(s("b")),
        goal: Some(s("g")),
    })
    .unwrap();
    assert_eq!(
        to_value(&payload),
        value(
            r#"{"name": "Sprint", "originBoardId": 18446744073709551615, "endDate": "b",
                "goal": "g"}"#
        )
    );
    let update = |state: Option<&str>| JiraUpdateSprintArgs {
        sprint_id: 2,
        name: Some(s(" ")),
        state: state.map(|text| text.to_string()),
        start_date: None,
        end_date: None,
        goal: None,
    };
    let (sprint_id, payload) = update_sprint_payload_from_args(update(Some("active"))).unwrap();
    assert_eq!(sprint_id, 2);
    assert_eq!(to_value(&payload), value(r#"{"state": "active"}"#));
    assert_eq!(
        refused(update_sprint_payload_from_args(update(None))),
        "invalid input: sprint update must contain at least one field"
    );
}

#[test]
fn link_types_are_narrowed_by_name() {
    let reply = || {
        json(
            r#"{"issueLinkTypes": [{"name": "Blocks"}, {"name": "ÜBER"}, {"id": "3"}],
                "total": 3}"#,
        )
    };
    assert_eq!(
        to_value(&filter_link_types(reply(), Some(s(" über ")))),
        value(r#"{"issueLinkTypes": [{"name": "ÜBER"}], "total": 3}"#)
    );
    assert_eq!(
        to_value(&filter_link_types(reply(), Some(s("LOCK")))),
        value(r#"{"issueLinkTypes": [{"name": "Blocks"}], "total": 3}"#)
    );
    assert_eq!(to_value(&filter_link_types(reply(), Some(s(" ")))), to_value(&reply()));
    assert_eq!(to_value(&filter_link_types(reply(), None)), to_value(&reply()));
    assert_eq!(to_value(&filter_link_types(json("[]"), Some(s("x")))), value("[]"));
}

#[test]
fn errors_are_answered_by_who_is_at_fault() {
    let answer = jira_error(AtlassianError::InvalidInput { message: s("x") });
    assert_eq!(answer.code, ErrorCode::InvalidParams);
    assert_eq!(answer.message, "invalid input: x");
    for error in [
        AtlassianError::InvalidBaseUrl { message: s("x") },
        AtlassianError::HttpStatus { status: 500, message: s("x") },
        AtlassianError::Transport { message: s("x") },
        AtlassianError::JsonDecode { message: s("x") },
        AtlassianError::UnexpectedShape { message: s("x") },
    ] {
        assert_eq!(jira_error(error).code, ErrorCode::InternalError);
    }
}

#[test]
fn upstream_errors_name_their_category_and_are_redacted() {
    let hide = |text: &str| text.replace("secret", "***");
    let answer = upstream_error(
        AtlassianError::HttpStatus { status: 403, message: s("a secret") },
        hide,
    );
    assert_eq!(answer.code, ErrorCode::InternalError);
    assert_eq!(
        answer.message,
        "Upstream error category=http_status status=403: HTTP 403: a ***"
    );
    let cases = [
        (AtlassianError::InvalidInput { message: s("m") }, "invalid_input", true),
        (AtlassianError::InvalidBaseUrl { message: s("m") }, "invalid_base_url", true),
        (AtlassianError::Transport { message: s("m") }, "transport", false),
        (AtlassianError::JsonDecode { message: s("m") }, "json_decode", false),
        (AtlassianError::UnexpectedShape { message: s("m") }, "unexpected_shape", false),
    ];
    for (error, category, callers_fault) in cases {
        assert_eq!(
            upstream_error_message(&error, "text"),
            format!("Upstream error category={}: text", category)
        );
        let answer = upstream_error(error, |text: &str| text.to_string());
        assert_eq!(answer.code == ErrorCode::InvalidParams, callers_fault);
    }
}

#[test]
fn requests_are_made_for_the_core_tools() {
    let server = server();
    let made = server
        .jira_get_issue(JiraGetIssueArgs {
            issue_key: s("ABC-1"),
            fields: Some(json(r#""summary, status""#)),
            expand: None,
            comment_limit: None,
            properties: None,
            update_history: Some(true),
        })
        .unwrap();
    assert_eq!(made.method, Method::Get);
    assert_eq!(
        made.query,
        vec![(s("fields"), s("summary,status")), (s("updateHistory"), s("true"))]
    );
    let made = server
        .jira_search(JiraSearchArgs {
            jql: s("x = 1"),
            fields: None,
            limit: None,
            start_at: None,
            projects_filter: Some(json(r#"["A"]"#)),
            expand: None,
            page_token: None,
        })
        .unwrap();
    assert_eq!(
        to_value(&made.body.unwrap())["jql"],
        "(project = \"A\") AND (x = 1)"
    );
    let made = server
        .jira_get_project_issues(JiraGetProjectIssuesArgs {
            project_key: s("ABC"),
            limit: Some(1),
            start_at: None,
        })
        .unwrap();
    assert_eq!(to_value(&made.body.unwrap())["maxResults"], 1);
    assert!(server.jira_search_fields().unwrap().url.ends_with("/rest/api/2/field"));
    let options = JiraGetFieldOptionsArgs {
        field_id: s("f"),
        context_id: None,
        project_key: Some(s("ABC")),
        issue_type: Some(s("Bug")),
        contains: None,
        return_limit: None,
        values_only: None,
    };
    assert!(server.jira_get_field_options(&options).unwrap().url.ends_with("/createmeta"));
    assert!(!field_options_request(&options).values_only);
    let made = server
        .jira_add_comment(JiraAddCommentArgs {
            issue_key: s("ABC-1"),
            body: s("Hello"),
            visibility: None,
        })
        .unwrap();
    assert_eq!(to_value(&made.body.unwrap()), value(r#"{"body": "Hello"}"#));
    let made = server
        .jira_edit_comment(JiraEditCommentArgs {
            issue_key: s("ABC-1"),
            comment_id: s("10"),
            body: s("Hello"),
            visibility: None,
        })
        .unwrap();
    assert!(made.url.ends_with("/comment/10"));
    let made = server
        .jira_get_transitions(JiraGetTransitionsArgs { issue_key: s("ABC-1") })
        .unwrap();
    assert!(made.url.ends_with("/issue/ABC-1/transitions"));
    let refused_call = server.jira_transition_issue(JiraTransitionIssueArgs {
        issue_key: s("ABC-1"),
        transition_id: s("31"),
        fields: Some(json(r#""[]""#)),
        comment: None,
    });
    assert_eq!(refused(refused_call), "invalid input: fields must be a JSON object");
}

#[test]
fn tools_need_jira() {
    let server = AtlassianMcpServer::default();
    assert_eq!(refused(server.jira_search_fields()), "Jira is not configured");
    assert_eq!(refused(server.jira_create_issue(create_args(None))), "Jira is not configured");
    assert_eq!(
        refused(server.jira_get_user_profile(JiraGetUserProfileArgs {
            user_identifier: s(" "),
        })),
        "Jira is not configured"
    );
    assert_eq!(
        refused(server.jira_add_issues_to_sprint(JiraAddIssuesToSprintArgs {
            sprint_id: 1,
            issue_keys: json("1"),
        })),
        "invalid input: issue_keys must be a string or array of strings"
    );
}

#[test]
fn issue_tools_plan_their_calls() {
    let server = server();
    let (client, call) = server.jira_create_issue(create_args(None)).unwrap();
    assert_eq!(client.config.timeout_seconds, 75);
    assert!(matches!(call, ClientCall::CreateIssue { .. }));
    let (_, call) = server
        .jira_batch_create_issues(JiraBatchCreateIssuesArgs {
            issues: json("[]"),
            validate_only: None,
        })
        .unwrap();
    assert!(matches!(call, ClientCall::BatchCreateIssues { validate_only: false, .. }));
    let changelogs = |limit: i64| JiraBatchGetChangelogsArgs {
        issue_ids_or_keys: json(r#""A-1,A-2""#),
        fields: None,
        limit: Some(limit),
    };
    let (_, call) = server.jira_batch_get_changelogs(changelogs(25)).unwrap();
    match call {
        ClientCall::BatchGetChangelogs { issue_ids_or_keys, fields, limit } => {
            assert_eq!(issue_ids_or_keys, texts(&["A-1", "A-2"]));
            assert_eq!(fields, None);
            assert_eq!(limit, Some(25));
        }
        _ => unreachable!(),
    }
    assert_eq!(
        refused(server.jira_batch_get_changelogs(changelogs(0))),
        "invalid input: limit must be positive"
    );
    let (_, call) = server
        .jira_update_issue(update_args(r#"{"summary": "x"}"#, None, None))
        .unwrap();
    match call {
        ClientCall::UpdateIssue { issue_key, fields, additional_fields, notify_users } => {
            assert_eq!(issue_key, "ABC-1");
            assert_eq!(to_value(&fields), value(r#"{"summary": "x"}"#));
            assert!(additional_fields.is_none());
            assert_eq!(notify_users, Some(false));
        }
        _ => unreachable!(),
    }
    let (_, call) = server
        .jira_delete_issue(JiraDeleteIssueArgs {
            issue_key: s("ABC-1"),
            delete_subtasks: Some(true),
        })
        .unwrap();
    match call {
        ClientCall::DeleteIssue { issue_key, delete_subtasks } => {
            assert_eq!(issue_key, "ABC-1");
            assert!(delete_subtasks);
        }
        _ => unreachable!(),
    }
}

#[test]
fn project_user_and_worklog_tools_plan_their_calls() {
    let server = server();
    let (_, call) = server
        .jira_get_all_projects(JiraGetAllProjectsArgs { include_archived: Some(true) })
        .unwrap();
    assert!(matches!(call, ClientCall::GetAllProjects { include_archived: true }));
    let (_, call) = server
        .jira_get_project_versions(JiraGetProjectVersionsArgs { project_key: s("ABC") })
        .unwrap();
    assert!(matches!(call, ClientCall::GetProjectVersions { project_key } if project_key == "ABC"));
    let (_, call) = server
        .jira_get_project_components(JiraGetProjectComponentsArgs { project_key: s("ABC") })
        .unwrap();
    assert!(
        matches!(call, ClientCall::GetProjectComponents { project_key } if project_key == "ABC")
    );
    let (_, call) = server
        .jira_create_version(JiraCreateVersionArgs {
            project_key: s("ABC"),
            name: s("1"),
            start_date: None,
            release_date: None,
            description: None,
        })
        .unwrap();
    assert!(matches!(call, ClientCall::CreateVersion { .. }));
    let (_, call) = server
        .jira_batch_create_versions(JiraBatchCreateVersionsArgs {
            project_key: s(" ABC "),
            versions: json(r#"[{"name": "1"}]"#),
        })
        .unwrap();
    match call {
        ClientCall::BatchCreateVersions { versions } => {
            assert_eq!(to_value(&versions[0]), value(r#"{"name": "1", "project": "ABC"}"#));
        }
        _ => unreachable!(),
    }
    let (_, call) = server
        .jira_get_user_profile(JiraGetUserProfileArgs { user_identifier: s(" ada ") })
        .unwrap();
    assert!(
        matches!(call, ClientCall::GetUserProfile { user_identifier } if user_identifier == "ada")
    );
    let (_, call) = server
        .jira_get_issue_watchers(JiraGetIssueWatchersArgs { issue_key: s("ABC-1") })
        .unwrap();
    assert!(matches!(call, ClientCall::GetIssueWatchers { .. }));
    let (_, call) = server
        .jira_add_watcher(JiraAddWatcherArgs {
            issue_key: s("ABC-1"),
            user_identifier: s("ada"),
        })
        .unwrap();
    assert!(matches!(call, ClientCall::AddWatcher { .. }));
    let (_, call) = server
        .jira_remove_watcher(JiraRemoveWatcherArgs {
            issue_key: s("ABC-1"),
            user_identifier: s("ada"),
        })
        .unwrap();
    assert!(matches!(call, ClientCall::RemoveWatcher { .. }));
    let (_, call) = server
        .jira_get_worklog(JiraGetWorklogArgs {
            issue_key: s("ABC-1"),
            start_at: Some(0),
            limit: Some(10),
        })
        .unwrap();
    assert!(matches!(call, ClientCall::GetWorklog { start_at: Some(0), limit: Some(10), .. }));
    let (_, call) = server
        .jira_add_worklog(JiraAddWorklogArgs {
            issue_key: s("ABC-1"),
            time_spent: s("1h"),
            started: None,
            comment: None,
            visibility: None,
            adjust_estimate: None,
            new_estimate: None,
            reduce_by: None,
        })
        .unwrap();
    assert!(matches!(call, ClientCall::AddWorklog { .. }));
}

#[test]
fn link_and_attachment_tools_plan_their_calls() {
    let server = server();
    let (_, call) = server.jira_get_link_types().unwrap();
    assert!(matches!(call, ClientCall::GetLinkTypes));
    let (_, call) = server
        .jira_link_to_epic(JiraLinkToEpicArgs { issue_key: s("A-1"), epic_key: s(" A-2 ") })
        .unwrap();
    assert!(matches!(call, ClientCall::LinkToEpic { epic_key, .. } if epic_key == "A-2"));
    let (_, call) = server
        .jira_create_issue_link(JiraCreateIssueLinkArgs {
            link_type: s("Blocks"),
            inward_issue_key: s("A-1"),
            outward_issue_key: s("A-2"),
            comment: None,
        })
        .unwrap();
    assert!(matches!(call, ClientCall::CreateIssueLink { .. }));
    let (_, call) = server
        .jira_create_remote_issue_link(JiraCreateRemoteIssueLinkArgs {
            issue_key: s("A-1"),
            url: s("u"),
            title: s("t"),
            summary: None,
            icon_url: None,
            status: None,
            global_id: None,
            relationship: None,
        })
        .unwrap();
    assert!(matches!(call, ClientCall::CreateRemoteIssueLink { issue_key, .. } if issue_key == "A-1"));
    let (_, call) = server
        .jira_remove_issue_link(JiraRemoveIssueLinkArgs { link_id: s("7") })
        .unwrap();
    assert!(matches!(call, ClientCall::RemoveIssueLink { link_id } if link_id == "7"));
    let download = |max_bytes: u64| JiraDownloadAttachmentsArgs {
        issue_key: s("A-1"),
        attachment_ids: Some(json(r#"["1"]"#)),
        include_content: Some(true),
        max_bytes: Some(max_bytes),
    };
    let (_, call) = server.jira_download_attachments(download(20)).unwrap();
    match call {
        ClientCall::GetSafeIssueAttachments {
            issue_key,
            attachment_ids,
            include_content,
            images_only,
            max_bytes,
        } => {
            assert_eq!(issue_key, "A-1");
            assert_eq!(attachment_ids, Some(texts(&["1"])));
            assert!(include_content);
            assert!(!images_only);
            assert_eq!(max_bytes, Some(20));
        }
        _ => unreachable!(),
    }
    assert_eq!(
        refused(server.jira_download_attachments(download(0))),
        "invalid input: max_bytes must be positive"
    );
    let (_, call) = server
        .jira_get_issue_images(JiraGetIssueImagesArgs {
            issue_key: s("A-1"),
            include_content: None,
            max_bytes: None,
        })
        .unwrap();
    assert!(matches!(
        call,
        ClientCall::GetSafeIssueAttachments {
            attachment_ids: None,
            include_content: false,
            images_only: true,
            max_bytes: None,
            ..
        }
    ));
}

#[test]
fn agile_and_service_desk_tools_plan_their_calls() {
    let server = server();
    let (_, call) = server
        .jira_get_agile_boards(JiraGetAgileBoardsArgs {
            project_key: None,
            board_type: Some(s("scrum")),
            start_at: None,
            limit: Some(2),
        })
        .unwrap();
    assert!(matches!(call, ClientCall::GetAgileBoards { project_key: None, limit: Some(2), .. }));
    let (_, call) = server
        .jira_get_board_issues(JiraGetBoardIssuesArgs {
            board_id: 1,
            jql: Some(s("status = Done")),
            fields: Some(json(r#""summary""#)),
            start_at: None,
            limit: None,
        })
        .unwrap();
    match call {
        ClientCall::GetBoardIssues { board_id, jql, fields, .. } => {
            assert_eq!(board_id, 1);
            assert_eq!(jql, Some(s("status = Done")));
            assert_eq!(fields, Some(texts(&["summary"])));
        }
        _ => unreachable!(),
    }
    let (_, call) = server
        .jira_get_sprints_from_board(JiraGetSprintsFromBoardArgs {
            board_id: 1,
            state: Some(json(r#"["active", "future"]"#)),
            start_at: None,
            limit: None,
        })
        .unwrap();
    match call {
        ClientCall::GetSprintsFromBoard { state, .. } => {
            assert_eq!(state, Some(texts(&["active", "future"])));
        }
        _ => unreachable!(),
    }
    let (_, call) = server
        .jira_get_sprint_issues(JiraGetSprintIssuesArgs {
            sprint_id: 2,
            fields: None,
            start_at: None,
            limit: None,
        })
        .unwrap();
    assert!(matches!(call, ClientCall::GetSprintIssues { sprint_id: 2, fields: None, .. }));
    let (_, call) = server
        .jira_create_sprint(JiraCreateSprintArgs {
            name: s("Sprint"),
            origin_board_id: 1,
            start_date: None,
            end_date: None,
            goal: None,
        })
        .unwrap();
    assert!(matches!(call, ClientCall::CreateSprint { .. }));
    let (_, call) = server
        .jira_update_sprint(JiraUpdateSprintArgs {
            sprint_id: 2,
            name: Some(s("n")),
            state: None,
            start_date: None,
            end_date: None,
            goal: None,
        })
        .unwrap();
    assert!(matches!(call, ClientCall::UpdateSprint { sprint_id: 2, .. }));
    let (_, call) = server
        .jira_add_issues_to_sprint(JiraAddIssuesToSprintArgs {
            sprint_id: 2,
            issue_keys: json(r#""A-1""#),
        })
        .unwrap();
    assert!(matches!(call, ClientCall::AddIssuesToSprint { sprint_id: 2, .. }));
    let (_, call) = server
        .jira_get_service_desk_for_project(JiraGetServiceDeskForProjectArgs {
            project_key: s("ABC"),
        })
        .unwrap();
    assert!(matches!(call, ClientCall::GetServiceDeskForProject { .. }));
    let (_, call) = server
        .jira_get_service_desk_queues(JiraGetServiceDeskQueuesArgs {
            service_desk_id: s("4"),
            start_at: None,
            limit: None,
        })
        .unwrap();
    assert!(matches!(call, ClientCall::GetServiceDeskQueues { .. }));
    let (_, call) = server
        .jira_get_queue_issues(JiraGetQueueIssuesArgs {
            service_desk_id: s("4"),
            queue_id: s("47"),
            start_at: None,
            limit: None,
        })
        .unwrap();
    assert!(matches!(call, ClientCall::GetQueueIssues { queue_id, .. } if queue_id == "47"));
}

#[test]
fn form_metric_and_development_tools_plan_their_calls() {
    let server = server_of(JiraDeployment::Cloud);
    let (_, call) = server
        .jira_get_issue_proforma_forms(JiraGetIssueProformaFormsArgs { issue_key: s("A-1") })
        .unwrap();
    match call {
        ClientCall::GetIssueProformaForms { cloud_id, .. } => {
            assert_eq!(cloud_id, Some(s("cloud-123")));
        }
        _ => unreachable!(),
    }
    let details = server.jira_get_proforma_form_details(JiraGetProformaFormDetailsArgs {
        issue_key: s("A-1"),
        form_id: s(" "),
    });
    assert_eq!(refused(details), "invalid input: form_id must not be empty");
    let answers = |answers: &str| JiraUpdateProformaFormAnswersArgs {
        issue_key: s("A-1"),
        form_id: s("f"),
        answers: json(answers),
    };
    let (_, call) = server.jira_update_proforma_form_answers(answers("[{}]")).unwrap();
    assert!(matches!(call, ClientCall::UpdateProformaFormAnswers { .. }));
    assert_eq!(
        refused(server.jira_update_proforma_form_answers(answers("{}"))),
        "invalid input: answers must be a JSON array"
    );
    let (_, call) = server
        .jira_get_issue_dates(JiraGetIssueDatesArgs {
            issue_key: s("A-1"),
            include_status_changes: Some(true),
            include_status_summary: None,
        })
        .unwrap();
    assert!(matches!(
        call,
        ClientCall::GetIssueDates {
            include_status_changes: true,
            include_status_summary: false,
            ..
        }
    ));
    let (_, call) = server
        .jira_get_issue_sla(JiraGetIssueSlaArgs {
            issue_key: s("A-1"),
            metrics: Some(json(r#""a,b""#)),
            working_hours_only: Some(true),
            include_raw_dates: None,
        })
        .unwrap();
    match call {
        ClientCall::GetIssueSla { metrics, working_hours_only, include_raw_dates, .. } => {
            assert_eq!(metrics, Some(texts(&["a", "b"])));
            assert_eq!(working_hours_only, Some(true));
            assert!(!include_raw_dates);
        }
        _ => unreachable!(),
    }
    let (_, call) = server
        .jira_get_issue_development_info(JiraGetIssueDevelopmentInfoArgs {
            issue_key: s("A-1"),
            application_type: Some(s("github")),
            data_type: None,
        })
        .unwrap();
    assert!(matches!(call, ClientCall::GetIssueDevelopmentInfo { data_type: None, .. }));
    let (_, call) = server
        .jira_get_issues_development_info(JiraGetIssuesDevelopmentInfoArgs {
            issue_keys: json(r#"["A-1", "A-2"]"#),
            application_type: None,
            data_type: None,
        })
        .unwrap();
    match call {
        ClientCall::GetIssuesDevelopmentInfo { issue_keys, .. } => {
            assert_eq!(issue_keys, texts(&["A-1", "A-2"]));
        }
        _ => unreachable!(),
    }
}
