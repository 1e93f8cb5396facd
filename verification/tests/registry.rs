use mcp_atlassian::atlassian::auth::AtlassianAuth;
use mcp_atlassian::config::RuntimeConfig;
use mcp_atlassian::context::AppContext;
use mcp_atlassian::jira::config::{JiraConfig, JiraDeployment};
use mcp_atlassian::jira::tools;
use mcp_atlassian::mcp::{AtlassianMcpServer, SERVER_NAME, SERVER_VERSION};
use mcp_atlassian::string_set::StringSet;
use mcp_atlassian::tool_registry;
use mcp_atlassian::tool_registry::{
    Tool, ToolAccess, ToolMetadata, ToolService, MIGRATION_STATUS_TOOL_NAME,
};

const SYNTHETIC_JIRA_READ: ToolMetadata = ToolMetadata {
    name: "stage1_synthetic_jira_read",
    service: ToolService::Jira,
    access: ToolAccess::Read,
    toolset: Some("jira_issues"),
    title: "Synthetic Jira read",
    description: "Test-only Jira read metadata.",
};

const SYNTHETIC_JIRA_WRITE: ToolMetadata = ToolMetadata {
    name: "stage1_synthetic_jira_write",
    service: ToolService::Jira,
    access: ToolAccess::Write,
    toolset: Some("jira_issues"),
    title: "Synthetic Jira write",
    description: "Test-only Jira write metadata.",
};

const SYNTHETIC_CONFLUENCE_READ: ToolMetadata = ToolMetadata {
    name: "stage1_synthetic_confluence_read",
    service: ToolService::Confluence,
    access: ToolAccess::Read,
    toolset: Some("confluence_pages"),
    title: "Synthetic Confluence read",
    description: "Test-only Confluence read metadata.",
};

const STAGE3_JIRA_TOOL_NAMES: &[&str] = &[
    tools::JIRA_CREATE_ISSUE_TOOL_NAME,
    tools::JIRA_BATCH_CREATE_ISSUES_TOOL_NAME,
    tools::JIRA_BATCH_GET_CHANGELOGS_TOOL_NAME,
    tools::JIRA_UPDATE_ISSUE_TOOL_NAME,
    tools::JIRA_DELETE_ISSUE_TOOL_NAME,
    tools::JIRA_GET_ALL_PROJECTS_TOOL_NAME,
    tools::JIRA_GET_PROJECT_VERSIONS_TOOL_NAME,
    tools::JIRA_GET_PROJECT_COMPONENTS_TOOL_NAME,
    tools::JIRA_CREATE_VERSION_TOOL_NAME,
    tools::JIRA_BATCH_CREATE_VERSIONS_TOOL_NAME,
    tools::JIRA_GET_USER_PROFILE_TOOL_NAME,
    tools::JIRA_GET_ISSUE_WATCHERS_TOOL_NAME,
    tools::JIRA_ADD_WATCHER_TOOL_NAME,
    tools::JIRA_REMOVE_WATCHER_TOOL_NAME,
    tools::JIRA_GET_WORKLOG_TOOL_NAME,
    tools::JIRA_ADD_WORKLOG_TOOL_NAME,
    tools::JIRA_GET_LINK_TYPES_TOOL_NAME,
    tools::JIRA_LINK_TO_EPIC_TOOL_NAME,
    tools::JIRA_CREATE_ISSUE_LINK_TOOL_NAME,
    tools::JIRA_CREATE_REMOTE_ISSUE_LINK_TOOL_NAME,
    tools::JIRA_REMOVE_ISSUE_LINK_TOOL_NAME,
    tools::JIRA_DOWNLOAD_ATTACHMENTS_TOOL_NAME,
    tools::JIRA_GET_ISSUE_IMAGES_TOOL_NAME,
    tools::JIRA_GET_AGILE_BOARDS_TOOL_NAME,
    tools::JIRA_GET_BOARD_ISSUES_TOOL_NAME,
    tools::JIRA_GET_SPRINTS_FROM_BOARD_TOOL_NAME,
    tools::JIRA_GET_SPRINT_ISSUES_TOOL_NAME,
    tools::JIRA_CREATE_SPRINT_TOOL_NAME,
    tools::JIRA_UPDATE_SPRINT_TOOL_NAME,
    tools::JIRA_ADD_ISSUES_TO_SPRINT_TOOL_NAME,
    tools::JIRA_GET_SERVICE_DESK_FOR_PROJECT_TOOL_NAME,
    tools::JIRA_GET_SERVICE_DESK_QUEUES_TOOL_NAME,
    tools::JIRA_GET_QUEUE_ISSUES_TOOL_NAME,
    tools::JIRA_GET_ISSUE_PROFORMA_FORMS_TOOL_NAME,
    tools::JIRA_GET_PROFORMA_FORM_DETAILS_TOOL_NAME,
    tools::JIRA_UPDATE_PROFORMA_FORM_ANSWERS_TOOL_NAME,
    tools::JIRA_GET_ISSUE_DATES_TOOL_NAME,
    tools::JIRA_GET_ISSUE_SLA_TOOL_NAME,
    tools::JIRA_GET_ISSUE_DEVELOPMENT_INFO_TOOL_NAME,
    tools::JIRA_GET_ISSUES_DEVELOPMENT_INFO_TOOL_NAME,
];

fn set(items: &[&str]) -> StringSet {
    StringSet::from_texts(&items.iter().map(|item| item.to_string()).collect())
}

fn server_with_config(config: RuntimeConfig) -> AtlassianMcpServer {
    AtlassianMcpServer::new(AppContext::from_config(&config))
}

fn runtime_config() -> RuntimeConfig {
    RuntimeConfig::default()
}

fn tool(name: &str) -> Tool {
    Tool { name: name.to_string(), description: "".to_string() }
}

fn stage_three_candidate_tools() -> Vec<Tool> {
    STAGE3_JIRA_TOOL_NAMES.iter().map(|name| tool(name)).collect()
}

fn stage_three_c3_tool_names() -> Vec<&'static str> {
    vec![
        tools::JIRA_GET_ALL_PROJECTS_TOOL_NAME,
        tools::JIRA_GET_PROJECT_VERSIONS_TOOL_NAME,
        tools::JIRA_GET_PROJECT_COMPONENTS_TOOL_NAME,
        tools::JIRA_CREATE_VERSION_TOOL_NAME,
        tools::JIRA_BATCH_CREATE_VERSIONS_TOOL_NAME,
        tools::JIRA_GET_USER_PROFILE_TOOL_NAME,
        tools::JIRA_GET_ISSUE_WATCHERS_TOOL_NAME,
        tools::JIRA_ADD_WATCHER_TOOL_NAME,
        tools::JIRA_REMOVE_WATCHER_TOOL_NAME,
        tools::JIRA_GET_WORKLOG_TOOL_NAME,
        tools::JIRA_ADD_WORKLOG_TOOL_NAME,
        tools::JIRA_GET_LINK_TYPES_TOOL_NAME,
        tools::JIRA_LINK_TO_EPIC_TOOL_NAME,
        tools::JIRA_CREATE_ISSUE_LINK_TOOL_NAME,
        tools::JIRA_CREATE_REMOTE_ISSUE_LINK_TOOL_NAME,
        tools::JIRA_REMOVE_ISSUE_LINK_TOOL_NAME,
        tools::JIRA_DOWNLOAD_ATTACHMENTS_TOOL_NAME,
        tools::JIRA_GET_ISSUE_IMAGES_TOOL_NAME,
    ]
}

fn stage_three_c4_tool_names() -> Vec<&'static str> {
    vec![
        tools::JIRA_GET_AGILE_BOARDS_TOOL_NAME,
        tools::JIRA_GET_BOARD_ISSUES_TOOL_NAME,
        tools::JIRA_GET_SPRINTS_FROM_BOARD_TOOL_NAME,
        tools::JIRA_GET_SPRINT_ISSUES_TOOL_NAME,
        tools::JIRA_CREATE_SPRINT_TOOL_NAME,
        tools::JIRA_UPDATE_SPRINT_TOOL_NAME,
        tools::JIRA_ADD_ISSUES_TO_SPRINT_TOOL_NAME,
        tools::JIRA_GET_SERVICE_DESK_FOR_PROJECT_TOOL_NAME,
        tools::JIRA_GET_SERVICE_DESK_QUEUES_TOOL_NAME,
        tools::JIRA_GET_QUEUE_ISSUES_TOOL_NAME,
        tools::JIRA_GET_ISSUE_PROFORMA_FORMS_TOOL_NAME,
        tools::JIRA_GET_PROFORMA_FORM_DETAILS_TOOL_NAME,
        tools::JIRA_UPDATE_PROFORMA_FORM_ANSWERS_TOOL_NAME,
        tools::JIRA_GET_ISSUE_DATES_TOOL_NAME,
        tools::JIRA_GET_ISSUE_SLA_TOOL_NAME,
        tools::JIRA_GET_ISSUE_DEVELOPMENT_INFO_TOOL_NAME,
        tools::JIRA_GET_ISSUES_DEVELOPMENT_INFO_TOOL_NAME,
    ]
}

fn expected_stage_two_default_tools() -> Vec<String> {
    vec![
        tools::JIRA_ADD_COMMENT_TOOL_NAME.to_string(),
        tools::JIRA_EDIT_COMMENT_TOOL_NAME.to_string(),
        tools::JIRA_GET_FIELD_OPTIONS_TOOL_NAME.to_string(),
        tools::JIRA_GET_ISSUE_TOOL_NAME.to_string(),
        tools::JIRA_GET_PROJECT_ISSUES_TOOL_NAME.to_string(),
        tools::JIRA_GET_TRANSITIONS_TOOL_NAME.to_string(),
        tools::JIRA_SEARCH_TOOL_NAME.to_string(),
        tools::JIRA_SEARCH_FIELDS_TOOL_NAME.to_string(),
        tools::JIRA_TRANSITION_ISSUE_TOOL_NAME.to_string(),
        MIGRATION_STATUS_TOOL_NAME.to_string(),
    ]
}

fn current_tool_names(server: &AtlassianMcpServer) -> Vec<String> {
    tool_names(server.current_tools_result())
}

fn tool_names(tools: Vec<Tool>) -> Vec<String> {
    tools
        .into_iter()
        .map(|tool| tool.name.to_string())
        .collect()
}

fn stage_three_write_tool_names() -> Vec<&'static str> {
    STAGE3_JIRA_TOOL_NAMES
        .iter()
        .copied()
        .filter(|name| {
            tool_registry::metadata_for(name)
                .is_some_and(|metadata| metadata.access == ToolAccess::Write)
        })
        .collect()
}

fn metadata_for_test_tool(name: &str) -> Option<ToolMetadata> {
    match name {
        "stage1_synthetic_jira_read" => Some(SYNTHETIC_JIRA_READ),
        "stage1_synthetic_jira_write" => Some(SYNTHETIC_JIRA_WRITE),
        "stage1_synthetic_confluence_read" => Some(SYNTHETIC_CONFLUENCE_READ),
        _ => tool_registry::metadata_for(name),
    }
}

fn jira_config() -> JiraConfig {
    JiraConfig {
        base_url: "https://jira.example".to_string(),
        deployment: JiraDeployment::ServerDataCenter,
        auth: AtlassianAuth::Pat {
            personal_token: "test-pat-value".to_string(),
        },
        ssl_verify: true,
        projects_filter: StringSet::new(),
        timeout_seconds: 75,
    }
}

#[test]
fn server_info_advertises_tools() {
    let info = AtlassianMcpServer::default().get_info();

    assert_eq!(info.name, SERVER_NAME);
    assert_eq!(info.version, SERVER_VERSION);
    assert!(info.tools);
    assert!(!info.prompts);
    assert!(!info.resources);
}

#[test]
fn tool_metadata_is_generated() {
    assert_eq!(
        AtlassianMcpServer::all_tools().last().unwrap().name,
        MIGRATION_STATUS_TOOL_NAME
    );
}

#[test]
fn migration_status_reports_stage_scope() {
    let server = AtlassianMcpServer::default();
    let status = server.migration_status();

    assert!(status.contains("Stage 2 Jira core migration is complete"));
    assert!(status.contains("Jira config/auth/client/models/tool handlers are implemented"));
}

#[test]
fn server_info_uses_app_context() {
    let config = RuntimeConfig {
        read_only: true,
        ..RuntimeConfig::default()
    };
    let server = AtlassianMcpServer::new(AppContext::from_config(&config));
    let info = server.get_info();
    let instructions = info.instructions;

    assert!(instructions.contains("read-only mode"));
    assert!(instructions.contains("Jira core tools are available"));
}

#[test]
fn tool_discovery_uses_registry_and_keeps_migration_status_visible_by_default() {
    let server = AtlassianMcpServer::default();

    assert_eq!(
        current_tool_names(&server),
        vec![MIGRATION_STATUS_TOOL_NAME.to_string()]
    );
    assert!(server.get_tool(MIGRATION_STATUS_TOOL_NAME).is_some());
}

#[test]
fn tool_discovery_lists_jira_default_tools_when_configured() {
    let server = server_with_config(RuntimeConfig {
        jira: Some(jira_config()),
        ..runtime_config()
    });
    let names = current_tool_names(&server);

    for name in expected_stage_two_default_tools() {
        assert!(names.contains(&name), "{name} should be visible by default");
    }
    assert!(server.get_tool(tools::JIRA_GET_ISSUE_TOOL_NAME).is_some());
}

#[test]
fn tool_discovery_applies_toolsets_and_read_only_to_real_jira_tools() {
    let fields_only = server_with_config(RuntimeConfig {
        jira: Some(jira_config()),
        enabled_toolsets: set(&["jira_fields"]),
        ..runtime_config()
    });
    let read_only = server_with_config(RuntimeConfig {
        read_only: true,
        jira: Some(jira_config()),
        ..runtime_config()
    });

    assert_eq!(
        current_tool_names(&fields_only),
        vec![
            tools::JIRA_GET_FIELD_OPTIONS_TOOL_NAME.to_string(),
            tools::JIRA_SEARCH_FIELDS_TOOL_NAME.to_string(),
            MIGRATION_STATUS_TOOL_NAME.to_string(),
        ]
    );
    assert!(
        !current_tool_names(&read_only)
            .contains(&tools::JIRA_ADD_COMMENT_TOOL_NAME.to_string())
    );
    assert!(
        read_only
            .guard_registered_tool_call(tools::JIRA_TRANSITION_ISSUE_TOOL_NAME)
            .is_err()
    );
}

#[test]
fn stage_three_candidate_tool_discovery_uses_registered_metadata_at_mcp_boundary() {
    let agile_only = server_with_config(RuntimeConfig {
        jira: Some(jira_config()),
        enabled_toolsets: set(&["jira_agile"]),
        ..runtime_config()
    });
    let read_only = server_with_config(RuntimeConfig {
        read_only: true,
        jira: Some(jira_config()),
        ..runtime_config()
    });

    assert_eq!(
        tool_names(agile_only.filtered_tools_from(stage_three_candidate_tools())),
        vec![
            tools::JIRA_ADD_ISSUES_TO_SPRINT_TOOL_NAME.to_string(),
            tools::JIRA_CREATE_SPRINT_TOOL_NAME.to_string(),
            tools::JIRA_GET_AGILE_BOARDS_TOOL_NAME.to_string(),
            tools::JIRA_GET_BOARD_ISSUES_TOOL_NAME.to_string(),
            tools::JIRA_GET_SPRINT_ISSUES_TOOL_NAME.to_string(),
            tools::JIRA_GET_SPRINTS_FROM_BOARD_TOOL_NAME.to_string(),
            tools::JIRA_UPDATE_SPRINT_TOOL_NAME.to_string(),
        ]
    );
    assert!(
        !tool_names(read_only.filtered_tools_from(stage_three_candidate_tools()))
            .contains(&tools::JIRA_CREATE_ISSUE_TOOL_NAME.to_string())
    );
    assert!(
        tool_names(read_only.filtered_tools_from(stage_three_candidate_tools()))
            .contains(&tools::JIRA_BATCH_GET_CHANGELOGS_TOOL_NAME.to_string())
    );
}

#[test]
fn c4_product_dependent_tools_have_routes_and_registered_metadata() {
    let server = server_with_config(RuntimeConfig {
        jira: Some(jira_config()),
        atlassian_oauth_cloud_id: Some("cloud-123".to_string()),
        ..runtime_config()
    });
    let names = current_tool_names(&server);
    let c4_tools = stage_three_c4_tool_names();

    assert_eq!(c4_tools.len(), 17);
    for name in c4_tools {
        assert!(
            tool_registry::metadata_for(name).is_some(),
            "{name} should have registered metadata"
        );
        assert!(
            server.get_tool(name).is_some(),
            "{name} should have a route"
        );
        assert!(
            names.contains(&name.to_string()),
            "{name} should be visible"
        );
    }
}

#[test]
fn c4_product_dependent_toolsets_filter_to_expected_tools() {
    let cases = [
        (
            "jira_agile",
            vec![
                tools::JIRA_GET_AGILE_BOARDS_TOOL_NAME,
                tools::JIRA_GET_BOARD_ISSUES_TOOL_NAME,
                tools::JIRA_GET_SPRINTS_FROM_BOARD_TOOL_NAME,
                tools::JIRA_GET_SPRINT_ISSUES_TOOL_NAME,
                tools::JIRA_CREATE_SPRINT_TOOL_NAME,
                tools::JIRA_UPDATE_SPRINT_TOOL_NAME,
                tools::JIRA_ADD_ISSUES_TO_SPRINT_TOOL_NAME,
            ],
        ),
        (
            "jira_service_desk",
            vec![
                tools::JIRA_GET_SERVICE_DESK_FOR_PROJECT_TOOL_NAME,
                tools::JIRA_GET_SERVICE_DESK_QUEUES_TOOL_NAME,
                tools::JIRA_GET_QUEUE_ISSUES_TOOL_NAME,
            ],
        ),
        (
            "jira_forms",
            vec![
                tools::JIRA_GET_ISSUE_PROFORMA_FORMS_TOOL_NAME,
                tools::JIRA_GET_PROFORMA_FORM_DETAILS_TOOL_NAME,
                tools::JIRA_UPDATE_PROFORMA_FORM_ANSWERS_TOOL_NAME,
            ],
        ),
        (
            "jira_metrics",
            vec![
                tools::JIRA_GET_ISSUE_DATES_TOOL_NAME,
                tools::JIRA_GET_ISSUE_SLA_TOOL_NAME,
            ],
        ),
        (
            "jira_development",
            vec![
                tools::JIRA_GET_ISSUE_DEVELOPMENT_INFO_TOOL_NAME,
                tools::JIRA_GET_ISSUES_DEVELOPMENT_INFO_TOOL_NAME,
            ],
        ),
    ];
    let c4_tools = stage_three_c4_tool_names();

    for (toolset, expected) in cases {
        let server = server_with_config(RuntimeConfig {
            jira: Some(jira_config()),
            enabled_toolsets: set(&[toolset]),
            atlassian_oauth_cloud_id: Some("cloud-123".to_string()),
            ..runtime_config()
        });
        let names = current_tool_names(&server);
        for expected_name in expected {
            assert!(
                names.contains(&expected_name.to_string()),
                "{toolset} should expose {expected_name}"
            );
        }
        for name in c4_tools.iter().copied() {
            if tool_registry::metadata_for(name)
                .and_then(|metadata| metadata.toolset)
                .is_some_and(|metadata_toolset| metadata_toolset != toolset)
            {
                assert!(
                    !names.contains(&name.to_string()),
                    "{toolset} should not expose {name}"
                );
            }
        }
    }
}

#[test]
fn project_read_tools_remain_visible_in_read_only_mode() {
    let read_only_projects = server_with_config(RuntimeConfig {
        read_only: true,
        jira: Some(jira_config()),
        enabled_toolsets: set(&["jira_projects"]),
        ..runtime_config()
    });
    let names = current_tool_names(&read_only_projects);

    assert!(names.contains(&tools::JIRA_GET_ALL_PROJECTS_TOOL_NAME.to_string()));
    assert!(names.contains(&tools::JIRA_GET_PROJECT_VERSIONS_TOOL_NAME.to_string()));
    assert!(names.contains(&tools::JIRA_GET_PROJECT_COMPONENTS_TOOL_NAME.to_string()));
    assert!(!names.contains(&tools::JIRA_CREATE_VERSION_TOOL_NAME.to_string()));
}

#[test]
fn user_profile_tool_remains_visible_in_read_only_mode() {
    let read_only_users = server_with_config(RuntimeConfig {
        read_only: true,
        jira: Some(jira_config()),
        enabled_toolsets: set(&["jira_users"]),
        ..runtime_config()
    });
    let names = current_tool_names(&read_only_users);

    assert!(names.contains(&tools::JIRA_GET_USER_PROFILE_TOOL_NAME.to_string()));
}

#[test]
fn watcher_read_tool_remains_visible_and_writes_hide_in_read_only_mode() {
    let read_only_watchers = server_with_config(RuntimeConfig {
        read_only: true,
        jira: Some(jira_config()),
        enabled_toolsets: set(&["jira_watchers"]),
        ..runtime_config()
    });
    let names = current_tool_names(&read_only_watchers);

    assert!(names.contains(&tools::JIRA_GET_ISSUE_WATCHERS_TOOL_NAME.to_string()));
    assert!(!names.contains(&tools::JIRA_ADD_WATCHER_TOOL_NAME.to_string()));
    assert!(!names.contains(&tools::JIRA_REMOVE_WATCHER_TOOL_NAME.to_string()));
}

#[test]
fn worklog_read_tool_remains_visible_in_read_only_mode() {
    let read_only_worklog = server_with_config(RuntimeConfig {
        read_only: true,
        jira: Some(jira_config()),
        enabled_toolsets: set(&["jira_worklog"]),
        ..runtime_config()
    });
    let names = current_tool_names(&read_only_worklog);

    assert!(names.contains(&tools::JIRA_GET_WORKLOG_TOOL_NAME.to_string()));
    assert!(!names.contains(&tools::JIRA_ADD_WORKLOG_TOOL_NAME.to_string()));
}

#[test]
fn link_read_tool_remains_visible_and_epic_write_hides_in_read_only_mode() {
    let read_only_links = server_with_config(RuntimeConfig {
        read_only: true,
        jira: Some(jira_config()),
        enabled_toolsets: set(&["jira_links"]),
        ..runtime_config()
    });
    let names = current_tool_names(&read_only_links);

    assert!(names.contains(&tools::JIRA_GET_LINK_TYPES_TOOL_NAME.to_string()));
    assert!(!names.contains(&tools::JIRA_LINK_TO_EPIC_TOOL_NAME.to_string()));
    assert!(!names.contains(&tools::JIRA_CREATE_ISSUE_LINK_TOOL_NAME.to_string()));
    assert!(!names.contains(&tools::JIRA_CREATE_REMOTE_ISSUE_LINK_TOOL_NAME.to_string()));
    assert!(!names.contains(&tools::JIRA_REMOVE_ISSUE_LINK_TOOL_NAME.to_string()));
}

#[test]
fn attachment_read_tools_remain_visible_in_read_only_mode() {
    let read_only_attachments = server_with_config(RuntimeConfig {
        read_only: true,
        jira: Some(jira_config()),
        enabled_toolsets: set(&["jira_attachments"]),
        ..runtime_config()
    });
    let names = current_tool_names(&read_only_attachments);

    assert!(names.contains(&tools::JIRA_DOWNLOAD_ATTACHMENTS_TOOL_NAME.to_string()));
    assert!(names.contains(&tools::JIRA_GET_ISSUE_IMAGES_TOOL_NAME.to_string()));
}

#[test]
fn agile_read_tools_remain_visible_in_read_only_mode() {
    let read_only_agile = server_with_config(RuntimeConfig {
        read_only: true,
        jira: Some(jira_config()),
        enabled_toolsets: set(&["jira_agile"]),
        ..runtime_config()
    });
    let names = current_tool_names(&read_only_agile);

    assert!(names.contains(&tools::JIRA_GET_AGILE_BOARDS_TOOL_NAME.to_string()));
    assert!(names.contains(&tools::JIRA_GET_BOARD_ISSUES_TOOL_NAME.to_string()));
    assert!(names.contains(&tools::JIRA_GET_SPRINTS_FROM_BOARD_TOOL_NAME.to_string()));
    assert!(names.contains(&tools::JIRA_GET_SPRINT_ISSUES_TOOL_NAME.to_string()));
    assert!(!names.contains(&tools::JIRA_CREATE_SPRINT_TOOL_NAME.to_string()));
    assert!(!names.contains(&tools::JIRA_UPDATE_SPRINT_TOOL_NAME.to_string()));
    assert!(!names.contains(&tools::JIRA_ADD_ISSUES_TO_SPRINT_TOOL_NAME.to_string()));
}

#[test]
fn service_desk_read_tools_remain_visible_in_read_only_mode() {
    let read_only_service_desk = server_with_config(RuntimeConfig {
        read_only: true,
        jira: Some(jira_config()),
        enabled_toolsets: set(&["jira_service_desk"]),
        ..runtime_config()
    });
    let names = current_tool_names(&read_only_service_desk);

    assert!(names.contains(&tools::JIRA_GET_SERVICE_DESK_FOR_PROJECT_TOOL_NAME.to_string()));
    assert!(names.contains(&tools::JIRA_GET_SERVICE_DESK_QUEUES_TOOL_NAME.to_string()));
    assert!(names.contains(&tools::JIRA_GET_QUEUE_ISSUES_TOOL_NAME.to_string()));
}

#[test]
fn forms_read_tools_remain_visible_in_read_only_mode() {
    let read_only_forms = server_with_config(RuntimeConfig {
        read_only: true,
        jira: Some(jira_config()),
        enabled_toolsets: set(&["jira_forms"]),
        ..runtime_config()
    });
    let names = current_tool_names(&read_only_forms);

    assert!(names.contains(&tools::JIRA_GET_ISSUE_PROFORMA_FORMS_TOOL_NAME.to_string()));
    assert!(names.contains(&tools::JIRA_GET_PROFORMA_FORM_DETAILS_TOOL_NAME.to_string()));
    assert!(!names.contains(&tools::JIRA_UPDATE_PROFORMA_FORM_ANSWERS_TOOL_NAME.to_string()));
}

#[test]
fn metrics_date_tool_remains_visible_in_read_only_mode() {
    let read_only_metrics = server_with_config(RuntimeConfig {
        read_only: true,
        jira: Some(jira_config()),
        enabled_toolsets: set(&["jira_metrics"]),
        ..runtime_config()
    });
    let names = current_tool_names(&read_only_metrics);

    assert!(names.contains(&tools::JIRA_GET_ISSUE_DATES_TOOL_NAME.to_string()));
    assert!(names.contains(&tools::JIRA_GET_ISSUE_SLA_TOOL_NAME.to_string()));
}

#[test]
fn development_read_tools_remain_visible_in_read_only_mode() {
    let read_only_development = server_with_config(RuntimeConfig {
        read_only: true,
        jira: Some(jira_config()),
        enabled_toolsets: set(&["jira_development"]),
        ..runtime_config()
    });
    let names = current_tool_names(&read_only_development);

    assert!(names.contains(&tools::JIRA_GET_ISSUE_DEVELOPMENT_INFO_TOOL_NAME.to_string()));
    assert!(names.contains(&tools::JIRA_GET_ISSUES_DEVELOPMENT_INFO_TOOL_NAME.to_string()));
}

#[test]
fn tool_discovery_applies_enabled_tools_filter_to_migration_status() {
    let server = server_with_config(RuntimeConfig {
        enabled_tools: Some(set(&["some_other_tool"])),
        ..runtime_config()
    });

    assert!(current_tool_names(&server).is_empty());
    assert!(server.get_tool(MIGRATION_STATUS_TOOL_NAME).is_none());
    assert!(
        server
            .guard_registered_tool_call(MIGRATION_STATUS_TOOL_NAME)
            .is_err()
    );
}

#[test]
fn tool_discovery_does_not_apply_toolsets_to_migration_status() {
    let server = server_with_config(RuntimeConfig {
        enabled_toolsets: StringSet::new(),
        ..runtime_config()
    });

    assert_eq!(
        current_tool_names(&server),
        vec![MIGRATION_STATUS_TOOL_NAME.to_string()]
    );
}

#[test]
fn tool_discovery_fails_closed_for_unmapped_tools() {
    let server = AtlassianMcpServer::default();
    let tools =
        server.filtered_tools_from(vec![
        tool(MIGRATION_STATUS_TOOL_NAME),
        tool("unmapped_tool"),
    ]);
    let names: Vec<_> = tools
        .into_iter()
        .map(|tool| tool.name.to_string())
        .collect();

    assert_eq!(names, vec![MIGRATION_STATUS_TOOL_NAME.to_string()]);
}

#[test]
fn tool_discovery_applies_future_service_and_toolset_policy_at_server_boundary() {
    let unavailable = AtlassianMcpServer::default();
    let available = server_with_config(RuntimeConfig {
        jira: Some(jira_config()),
        confluence_url: Some("https://confluence.example".to_string()),
        ..runtime_config()
    });
    let jira_fields_only = server_with_config(RuntimeConfig {
        jira: Some(jira_config()),
        enabled_toolsets: set(&["jira_fields"]),
        ..runtime_config()
    });

    assert_eq!(
        tool_names(unavailable.filtered_tools_from_with_metadata(
            vec![
                tool("stage1_synthetic_jira_read"),
                tool("stage1_synthetic_confluence_read"),
            ],
            metadata_for_test_tool,
        )),
        Vec::<String>::new()
    );
    assert_eq!(
        tool_names(available.filtered_tools_from_with_metadata(
            vec![
                tool("stage1_synthetic_jira_read"),
                tool("stage1_synthetic_confluence_read"),
            ],
            metadata_for_test_tool,
        )),
        vec![
            "stage1_synthetic_confluence_read".to_string(),
            "stage1_synthetic_jira_read".to_string(),
        ]
    );
    assert!(
        jira_fields_only
            .filtered_tools_from_with_metadata(
                vec![tool("stage1_synthetic_jira_read")],
                metadata_for_test_tool,
            )
            .is_empty()
    );
}

#[test]
fn direct_call_guard_applies_future_read_only_policy_at_server_boundary() {
    let read_only_server = server_with_config(RuntimeConfig {
        read_only: true,
        jira: Some(jira_config()),
        ..runtime_config()
    });
    let read_write_server = server_with_config(RuntimeConfig {
        jira: Some(jira_config()),
        ..runtime_config()
    });

    let error = read_only_server
        .guard_tool_call_with_metadata(
            "stage1_synthetic_jira_write",
            true,
            metadata_for_test_tool,
        )
        .unwrap_err();

    assert_eq!(error.message, "tool is disabled in read-only mode");
    assert!(
        read_write_server
            .guard_tool_call_with_metadata(
                "stage1_synthetic_jira_write",
                true,
                metadata_for_test_tool,
            )
            .is_ok()
    );
    assert!(
        read_write_server
            .guard_tool_call_with_metadata(
                "stage1_synthetic_jira_write",
                false,
                metadata_for_test_tool,
            )
            .is_err()
    );
}

#[test]
fn stage_three_direct_call_guard_uses_registered_metadata_at_mcp_boundary() {
    let read_only_server = server_with_config(RuntimeConfig {
        read_only: true,
        jira: Some(jira_config()),
        ..runtime_config()
    });
    let read_write_server = server_with_config(RuntimeConfig {
        jira: Some(jira_config()),
        ..runtime_config()
    });

    for name in stage_three_write_tool_names() {
        let error = read_only_server
            .guard_tool_call_with_metadata(name, true, tool_registry::metadata_for)
            .unwrap_err();
        assert_eq!(error.message, "tool is disabled in read-only mode");
    }
    assert!(
        read_write_server
            .guard_tool_call_with_metadata(
                tools::JIRA_BATCH_GET_CHANGELOGS_TOOL_NAME,
                true,
                tool_registry::metadata_for,
            )
            .is_ok()
    );
    assert!(
        read_write_server
            .guard_tool_call_with_metadata(
                tools::JIRA_CREATE_ISSUE_TOOL_NAME,
                false,
                tool_registry::metadata_for,
            )
            .is_err()
    );
}

#[test]
fn c3_common_tool_cross_check_lists_all_names_and_routes() {
    let server = server_with_config(RuntimeConfig {
        jira: Some(jira_config()),
        ..runtime_config()
    });
    let names = stage_three_c3_tool_names();

    assert_eq!(names.len(), 18);
    for name in names {
        let metadata = tool_registry::metadata_for(name)
            .unwrap_or_else(|| panic!("{name} should have metadata"));
        assert_eq!(metadata.service, ToolService::Jira);
        assert!(
            server.get_tool(name).is_some(),
            "{name} should have a route"
        );
    }
}

#[test]
fn c3_toolset_and_enabled_tools_filters_are_exact_at_mcp_boundary() {
    let projects_only = server_with_config(RuntimeConfig {
        jira: Some(jira_config()),
        enabled_toolsets: set(&["jira_projects"]),
        ..runtime_config()
    });
    let worklog_only = server_with_config(RuntimeConfig {
        jira: Some(jira_config()),
        enabled_tools: Some(set(&[tools::JIRA_GET_WORKLOG_TOOL_NAME])),
        ..runtime_config()
    });

    assert_eq!(
        current_tool_names(&projects_only),
        vec![
            tools::JIRA_BATCH_CREATE_VERSIONS_TOOL_NAME.to_string(),
            tools::JIRA_CREATE_VERSION_TOOL_NAME.to_string(),
            tools::JIRA_GET_ALL_PROJECTS_TOOL_NAME.to_string(),
            tools::JIRA_GET_PROJECT_COMPONENTS_TOOL_NAME.to_string(),
            tools::JIRA_GET_PROJECT_VERSIONS_TOOL_NAME.to_string(),
            MIGRATION_STATUS_TOOL_NAME.to_string(),
        ]
    );
    assert_eq!(
        current_tool_names(&worklog_only),
        vec![tools::JIRA_GET_WORKLOG_TOOL_NAME.to_string()]
    );
    assert!(
        worklog_only
            .guard_registered_tool_call(tools::JIRA_GET_WORKLOG_TOOL_NAME)
            .is_ok()
    );
    assert!(
        worklog_only
            .guard_registered_tool_call(tools::JIRA_GET_LINK_TYPES_TOOL_NAME)
            .is_err()
    );
}

#[test]
fn profiles_grow_from_basic_to_full() {
    let toolsets = |profile: &str| tool_registry::toolsets_for_profile(profile).unwrap();
    let basic = toolsets(" Basic ");
    let developer = toolsets("DEVELOPER");
    let manager = toolsets("manager");
    let full = toolsets("full");
    assert_eq!(
        [basic.len(), developer.len(), manager.len(), full.len()],
        [10, 18, 31, 47]
    );
    assert!(basic.iter().all(|toolset| developer.contains(toolset)));
    assert!(developer.iter().all(|toolset| manager.contains(toolset)));
    assert!(manager.iter().all(|toolset| full.contains(toolset)));
    assert!(toolsets("custom").is_empty());
    assert!(tool_registry::toolsets_for_profile("nobody").is_none());
    assert_eq!(toolsets(tool_registry::DEFAULT_TOOL_PROFILE), basic);
}

#[test]
fn toolset_listings_are_sorted_and_hold_their_profiles() {
    let all = tool_registry::all_toolsets();
    let default = tool_registry::default_toolsets();
    assert_eq!(all.to_texts().len(), 47);
    assert_eq!(default.to_texts().len(), 10);
    assert_eq!(all.to_texts()[0], "confluence_analytics_read");
    assert!(default.to_texts().iter().all(|toolset| all.contains(toolset)));
    assert!(default.contains("jira_project_read"));
    assert!(!default.contains("jira_project_write"));
    assert!(all.contains("jira_issue_read"));
    for toolset in ["jira_issues", "jira_fields", "jira_comments", "jira_transitions"] {
        assert!(all.contains(toolset));
    }
    assert!(!all.contains(MIGRATION_STATUS_TOOL_NAME));
}

#[test]
fn every_tool_is_of_a_listed_toolset() {
    let all = tool_registry::all_toolsets();
    for metadata in tool_registry::registered_tools() {
        match metadata.toolset {
            Some(toolset) => assert!(all.contains(toolset)),
            None => assert_eq!(metadata.name, MIGRATION_STATUS_TOOL_NAME),
        }
    }
    let server = server_with_config(RuntimeConfig {
        jira: Some(jira_config()),
        enabled_toolsets: all,
        ..runtime_config()
    });
    assert_eq!(current_tool_names(&server).len(), 50);
}

#[test]
fn metadata_is_found_by_name() {
    let metadata = tool_registry::metadata_for("jira_add_comment").unwrap();
    assert_eq!(
        metadata,
        ToolMetadata {
            name: "jira_add_comment",
            service: ToolService::Jira,
            access: ToolAccess::Write,
            toolset: Some("jira_comments"),
            title: "Add comment",
            description: "Add a comment to a Jira issue",
        }
    );
    assert!(tool_registry::metadata_for("jira_add_comments").is_none());
    for metadata in tool_registry::registered_tools() {
        assert_eq!(tool_registry::metadata_for(metadata.name), Some(metadata));
    }
}

#[test]
fn shown_tools_are_those_that_can_be_called() {
    for read_only in [false, true] {
        for toolsets in [set(&[]), set(&["jira_links", "jira_forms"]), tool_registry::all_toolsets()] {
            for jira in [None, Some(jira_config())] {
                let server = server_with_config(RuntimeConfig {
                    read_only,
                    jira,
                    enabled_toolsets: toolsets.clone(),
                    disabled_tools: set(&["jira_link_to_epic"]),
                    ..runtime_config()
                });
                let names = current_tool_names(&server);
                for metadata in tool_registry::registered_tools() {
                    assert_eq!(
                        names.contains(&metadata.name.to_string()),
                        server.guard_registered_tool_call(metadata.name).is_ok()
                    );
                    assert_eq!(
                        server.get_tool(metadata.name).is_some(),
                        server.guard_registered_tool_call(metadata.name).is_ok()
                    );
                }
                let mut sorted = names.clone();
                sorted.sort();
                assert_eq!(names, sorted);
            }
        }
    }
}

#[test]
fn refused_calls_say_why() {
    let server = server_with_config(RuntimeConfig {
        read_only: true,
        jira: Some(jira_config()),
        disabled_tools: set(&["jira_edit_comment", "jira_search"]),
        ..runtime_config()
    });
    let refusal = |name: &str| server.guard_registered_tool_call(name).unwrap_err().message;
    assert_eq!(refusal("jira_add_comment"), "tool is disabled in read-only mode");
    assert_eq!(refusal("jira_edit_comment"), "tool not available");
    assert_eq!(refusal("jira_search"), "tool not available");
    assert_eq!(refusal("unknown"), "tool not available");
    assert!(server.guard_registered_tool_call("jira_get_issue").is_ok());
}

#[test]
fn an_empty_set_of_enabled_tools_filters_nothing() {
    let server = server_with_config(RuntimeConfig {
        jira: Some(jira_config()),
        enabled_tools: Some(StringSet::new()),
        ..runtime_config()
    });
    assert_eq!(current_tool_names(&server).len(), 50);
}

#[test]
fn enabled_tools_and_toolsets_filter_together() {
    let server = server_with_config(RuntimeConfig {
        jira: Some(jira_config()),
        enabled_tools: Some(set(&["jira_get_worklog", "jira_search"])),
        enabled_toolsets: set(&["jira_worklog", "jira_links"]),
        ..runtime_config()
    });
    assert_eq!(current_tool_names(&server), vec!["jira_get_worklog".to_string()]);
}

#[test]
fn tools_of_one_name_keep_their_order() {
    let server = server_with_config(RuntimeConfig { jira: Some(jira_config()), ..runtime_config() });
    let described = |name: &str, description: &str| Tool {
        name: name.to_string(),
        description: description.to_string(),
    };
    let listed: Vec<(String, String)> = server
        .filtered_tools_from(vec![
            described("jira_search", "1"),
            described("jira_get_issue", "2"),
            described("jira_search", "3"),
            described("jira_add_comment", "4"),
        ])
        .into_iter()
        .map(|tool| (tool.name, tool.description))
        .collect();
    let expected: Vec<(String, String)> = [
        ("jira_add_comment", "4"),
        ("jira_get_issue", "2"),
        ("jira_search", "1"),
        ("jira_search", "3"),
    ]
    .iter()
    .map(|(name, description)| (name.to_string(), description.to_string()))
    .collect();
    assert_eq!(listed, expected);
}
