//! The Jira tools, one toolset after the other.

use vstd::prelude::*;

use crate::jira::tools;
use crate::tool_registry::{MetadataView, ToolAccess, ToolMetadata, ToolService};

verus! {

/// What a Jira tool is registered as.
pub open spec fn jira_entry(
    name: Seq<char>,
    access: ToolAccess,
    toolset: Seq<char>,
    title: Seq<char>,
    description: Seq<char>,
) -> MetadataView {
    MetadataView {
        name,
        service: ToolService::Jira,
        access,
        toolset: Some(toolset),
        title,
        description,
    }
}

fn jira_metadata(
    name: &'static str,
    access: ToolAccess,
    toolset: &'static str,
    title: &'static str,
    description: &'static str,
) -> (metadata: ToolMetadata)
    ensures
        metadata.deep_view() == jira_entry(name@, access, toolset@, title@, description@),
{
    ToolMetadata {
        name,
        service: ToolService::Jira,
        access,
        toolset: Some(toolset),
        title,
        description,
    }
}

/// The tools of the toolset `jira_issues`.
pub open spec fn issues_entries() -> Seq<MetadataView> {
    seq![
        jira_entry(
            tools::JIRA_GET_ISSUE_TOOL_NAME@,
            ToolAccess::Read,
            "jira_issues"@,
            "Get issue"@,
            "Get a Jira issue by key"@,
        ),
        jira_entry(
            tools::JIRA_SEARCH_TOOL_NAME@,
            ToolAccess::Read,
            "jira_issues"@,
            "Search"@,
            "Search Jira issues with JQL"@,
        ),
        jira_entry(
            tools::JIRA_GET_PROJECT_ISSUES_TOOL_NAME@,
            ToolAccess::Read,
            "jira_issues"@,
            "Get project issues"@,
            "List Jira issues for a project"@,
        ),
        jira_entry(
            tools::JIRA_CREATE_ISSUE_TOOL_NAME@,
            ToolAccess::Write,
            "jira_issues"@,
            "Create issue"@,
            "Create a Jira issue"@,
        ),
        jira_entry(
            tools::JIRA_BATCH_CREATE_ISSUES_TOOL_NAME@,
            ToolAccess::Write,
            "jira_issues"@,
            "Batch create issues"@,
            "Create multiple Jira issues in a batch"@,
        ),
        jira_entry(
            tools::JIRA_BATCH_GET_CHANGELOGS_TOOL_NAME@,
            ToolAccess::Read,
            "jira_issues"@,
            "Batch get changelogs"@,
            "Get changelogs for multiple Jira issues"@,
        ),
        jira_entry(
            tools::JIRA_UPDATE_ISSUE_TOOL_NAME@,
            ToolAccess::Write,
            "jira_issues"@,
            "Update issue"@,
            "Update fields on a Jira issue"@,
        ),
        jira_entry(
            tools::JIRA_DELETE_ISSUE_TOOL_NAME@,
            ToolAccess::Write,
            "jira_issues"@,
            "Delete issue"@,
            "Delete a Jira issue"@,
        ),
    ]
}

fn issues_tools() -> (tools: Vec<ToolMetadata>)
    ensures
        tools.deep_view() == issues_entries(),
{
    let tools: Vec<ToolMetadata> = vec![
        jira_metadata(
            tools::JIRA_GET_ISSUE_TOOL_NAME,
            ToolAccess::Read,
            "jira_issues",
            "Get issue",
            "Get a Jira issue by key",
        ),
        jira_metadata(
            tools::JIRA_SEARCH_TOOL_NAME,
            ToolAccess::Read,
            "jira_issues",
            "Search",
            "Search Jira issues with JQL",
        ),
        jira_metadata(
            tools::JIRA_GET_PROJECT_ISSUES_TOOL_NAME,
            ToolAccess::Read,
            "jira_issues",
            "Get project issues",
            "List Jira issues for a project",
        ),
        jira_metadata(
            tools::JIRA_CREATE_ISSUE_TOOL_NAME,
            ToolAccess::Write,
            "jira_issues",
            "Create issue",
            "Create a Jira issue",
        ),
        jira_metadata(
            tools::JIRA_BATCH_CREATE_ISSUES_TOOL_NAME,
            ToolAccess::Write,
            "jira_issues",
            "Batch create issues",
            "Create multiple Jira issues in a batch",
        ),
        jira_metadata(
            tools::JIRA_BATCH_GET_CHANGELOGS_TOOL_NAME,
            ToolAccess::Read,
            "jira_issues",
            "Batch get changelogs",
            "Get changelogs for multiple Jira issues",
        ),
        jira_metadata(
            tools::JIRA_UPDATE_ISSUE_TOOL_NAME,
            ToolAccess::Write,
            "jira_issues",
            "Update issue",
            "Update fields on a Jira issue",
        ),
        jira_metadata(
            tools::JIRA_DELETE_ISSUE_TOOL_NAME,
            ToolAccess::Write,
            "jira_issues",
            "Delete issue",
            "Delete a Jira issue",
        ),
    ];
    proof {
        assert(tools.deep_view() =~= issues_entries());
    }
    tools
}

/// The tools of the toolset `jira_fields`.
pub open spec fn fields_entries() -> Seq<MetadataView> {
    seq![
        jira_entry(
            tools::JIRA_SEARCH_FIELDS_TOOL_NAME@,
            ToolAccess::Read,
            "jira_fields"@,
            "Search fields"@,
            "Search Jira fields by keyword"@,
        ),
        jira_entry(
            tools::JIRA_GET_FIELD_OPTIONS_TOOL_NAME@,
            ToolAccess::Read,
            "jira_fields"@,
            "Get field options"@,
            "Get options for a Jira field"@,
        ),
    ]
}

fn fields_tools() -> (tools: Vec<ToolMetadata>)
    ensures
        tools.deep_view() == fields_entries(),
{
    let tools: Vec<ToolMetadata> = vec![
        jira_metadata(
            tools::JIRA_SEARCH_FIELDS_TOOL_NAME,
            ToolAccess::Read,
            "jira_fields",
            "Search fields",
            "Search Jira fields by keyword",
        ),
        jira_metadata(
            tools::JIRA_GET_FIELD_OPTIONS_TOOL_NAME,
            ToolAccess::Read,
            "jira_fields",
            "Get field options",
            "Get options for a Jira field",
        ),
    ];
    proof {
        assert(tools.deep_view() =~= fields_entries());
    }
    tools
}

/// The tools of the toolset `jira_comments`.
pub open spec fn comments_entries() -> Seq<MetadataView> {
    seq![
        jira_entry(
            tools::JIRA_ADD_COMMENT_TOOL_NAME@,
            ToolAccess::Write,
            "jira_comments"@,
            "Add comment"@,
            "Add a comment to a Jira issue"@,
        ),
        jira_entry(
            tools::JIRA_EDIT_COMMENT_TOOL_NAME@,
            ToolAccess::Write,
            "jira_comments"@,
            "Edit comment"@,
            "Edit a Jira issue comment"@,
        ),
    ]
}

fn comments_tools() -> (tools: Vec<ToolMetadata>)
    ensures
        tools.deep_view() == comments_entries(),
{
    let tools: Vec<ToolMetadata> = vec![
        jira_metadata(
            tools::JIRA_ADD_COMMENT_TOOL_NAME,
            ToolAccess::Write,
            "jira_comments",
            "Add comment",
            "Add a comment to a Jira issue",
        ),
        jira_metadata(
            tools::JIRA_EDIT_COMMENT_TOOL_NAME,
            ToolAccess::Write,
            "jira_comments",
            "Edit comment",
            "Edit a Jira issue comment",
        ),
    ];
    proof {
        assert(tools.deep_view() =~= comments_entries());
    }
    tools
}

/// The tools of the toolset `jira_transitions`.
pub open spec fn transitions_entries() -> Seq<MetadataView> {
    seq![
        jira_entry(
            tools::JIRA_GET_TRANSITIONS_TOOL_NAME@,
            ToolAccess::Read,
            "jira_transitions"@,
            "Get transitions"@,
            "Get available transitions for a Jira issue"@,
        ),
        jira_entry(
            tools::JIRA_TRANSITION_ISSUE_TOOL_NAME@,
            ToolAccess::Write,
            "jira_transitions"@,
            "Transition issue"@,
            "Transition a Jira issue"@,
        ),
    ]
}

fn transitions_tools() -> (tools: Vec<ToolMetadata>)
    ensures
        tools.deep_view() == transitions_entries(),
{
    let tools: Vec<ToolMetadata> = vec![
        jira_metadata(
            tools::JIRA_GET_TRANSITIONS_TOOL_NAME,
            ToolAccess::Read,
            "jira_transitions",
            "Get transitions",
            "Get available transitions for a Jira issue",
        ),
        jira_metadata(
            tools::JIRA_TRANSITION_ISSUE_TOOL_NAME,
            ToolAccess::Write,
            "jira_transitions",
            "Transition issue",
            "Transition a Jira issue",
        ),
    ];
    proof {
        assert(tools.deep_view() =~= transitions_entries());
    }
    tools
}

/// The tools of the toolset `jira_projects`.
pub open spec fn projects_entries() -> Seq<MetadataView> {
    seq![
        jira_entry(
            tools::JIRA_GET_ALL_PROJECTS_TOOL_NAME@,
            ToolAccess::Read,
            "jira_projects"@,
            "Get all projects"@,
            "List Jira projects visible to the current user"@,
        ),
        jira_entry(
            tools::JIRA_GET_PROJECT_VERSIONS_TOOL_NAME@,
            ToolAccess::Read,
            "jira_projects"@,
            "Get project versions"@,
            "List versions for a Jira project"@,
        ),
        jira_entry(
            tools::JIRA_GET_PROJECT_COMPONENTS_TOOL_NAME@,
            ToolAccess::Read,
            "jira_projects"@,
            "Get project components"@,
            "List components for a Jira project"@,
        ),
        jira_entry(
            tools::JIRA_CREATE_VERSION_TOOL_NAME@,
            ToolAccess::Write,
            "jira_projects"@,
            "Create version"@,
            "Create a Jira project version"@,
        ),
        jira_entry(
            tools::JIRA_BATCH_CREATE_VERSIONS_TOOL_NAME@,
            ToolAccess::Write,
            "jira_projects"@,
            "Batch create versions"@,
            "Create multiple Jira project versions"@,
        ),
    ]
}

fn projects_tools() -> (tools: Vec<ToolMetadata>)
    ensures
        tools.deep_view() == projects_entries(),
{
    let tools: Vec<ToolMetadata> = vec![
        jira_metadata(
            tools::JIRA_GET_ALL_PROJECTS_TOOL_NAME,
            ToolAccess::Read,
            "jira_projects",
            "Get all projects",
            "List Jira projects visible to the current user",
        ),
        jira_metadata(
            tools::JIRA_GET_PROJECT_VERSIONS_TOOL_NAME,
            ToolAccess::Read,
            "jira_projects",
            "Get project versions",
            "List versions for a Jira project",
        ),
        jira_metadata(
            tools::JIRA_GET_PROJECT_COMPONENTS_TOOL_NAME,
            ToolAccess::Read,
            "jira_projects",
            "Get project components",
            "List components for a Jira project",
        ),
        jira_metadata(
            tools::JIRA_CREATE_VERSION_TOOL_NAME,
            ToolAccess::Write,
            "jira_projects",
            "Create version",
            "Create a Jira project version",
        ),
        jira_metadata(
            tools::JIRA_BATCH_CREATE_VERSIONS_TOOL_NAME,
            ToolAccess::Write,
            "jira_projects",
            "Batch create versions",
            "Create multiple Jira project versions",
        ),
    ];
    proof {
        assert(tools.deep_view() =~= projects_entries());
    }
    tools
}

/// The tools of the toolset `jira_users`.
pub open spec fn users_entries() -> Seq<MetadataView> {
    seq![
        jira_entry(
            tools::JIRA_GET_USER_PROFILE_TOOL_NAME@,
            ToolAccess::Read,
            "jira_users"@,
            "Get user profile"@,
            "Retrieve a Jira user profile"@,
        ),
    ]
}

fn users_tools() -> (tools: Vec<ToolMetadata>)
    ensures
        tools.deep_view() == users_entries(),
{
    let tools: Vec<ToolMetadata> = vec![
        jira_metadata(
            tools::JIRA_GET_USER_PROFILE_TOOL_NAME,
            ToolAccess::Read,
            "jira_users",
            "Get user profile",
            "Retrieve a Jira user profile",
        ),
    ];
    proof {
        assert(tools.deep_view() =~= users_entries());
    }
    tools
}

/// The tools of the toolset `jira_watchers`.
pub open spec fn watchers_entries() -> Seq<MetadataView> {
    seq![
        jira_entry(
            tools::JIRA_GET_ISSUE_WATCHERS_TOOL_NAME@,
            ToolAccess::Read,
            "jira_watchers"@,
            "Get issue watchers"@,
            "Get watchers for a Jira issue"@,
        ),
        jira_entry(
            tools::JIRA_ADD_WATCHER_TOOL_NAME@,
            ToolAccess::Write,
            "jira_watchers"@,
            "Add watcher"@,
            "Add a watcher to a Jira issue"@,
        ),
        jira_entry(
            tools::JIRA_REMOVE_WATCHER_TOOL_NAME@,
            ToolAccess::Write,
            "jira_watchers"@,
            "Remove watcher"@,
            "Remove a watcher from a Jira issue"@,
        ),
    ]
}

fn watchers_tools() -> (tools: Vec<ToolMetadata>)
    ensures
        tools.deep_view() == watchers_entries(),
{
    let tools: Vec<ToolMetadata> = vec![
        jira_metadata(
            tools::JIRA_GET_ISSUE_WATCHERS_TOOL_NAME,
            ToolAccess::Read,
            "jira_watchers",
            "Get issue watchers",
            "Get watchers for a Jira issue",
        ),
        jira_metadata(
            tools::JIRA_ADD_WATCHER_TOOL_NAME,
            ToolAccess::Write,
            "jira_watchers",
            "Add watcher",
            "Add a watcher to a Jira issue",
        ),
        jira_metadata(
            tools::JIRA_REMOVE_WATCHER_TOOL_NAME,
            ToolAccess::Write,
            "jira_watchers",
            "Remove watcher",
            "Remove a watcher from a Jira issue",
        ),
    ];
    proof {
        assert(tools.deep_view() =~= watchers_entries());
    }
    tools
}

/// The tools of the toolset `jira_worklog`.
pub open spec fn worklog_entries() -> Seq<MetadataView> {
    seq![
        jira_entry(
            tools::JIRA_GET_WORKLOG_TOOL_NAME@,
            ToolAccess::Read,
            "jira_worklog"@,
            "Get worklog"@,
            "Get worklogs for a Jira issue"@,
        ),
        jira_entry(
            tools::JIRA_ADD_WORKLOG_TOOL_NAME@,
            ToolAccess::Write,
            "jira_worklog"@,
            "Add worklog"@,
            "Add a worklog entry to a Jira issue"@,
        ),
    ]
}

fn worklog_tools() -> (tools: Vec<ToolMetadata>)
    ensures
        tools.deep_view() == worklog_entries(),
{
    let tools: Vec<ToolMetadata> = vec![
        jira_metadata(
            tools::JIRA_GET_WORKLOG_TOOL_NAME,
            ToolAccess::Read,
            "jira_worklog",
            "Get worklog",
            "Get worklogs for a Jira issue",
        ),
        jira_metadata(
            tools::JIRA_ADD_WORKLOG_TOOL_NAME,
            ToolAccess::Write,
            "jira_worklog",
            "Add worklog",
            "Add a worklog entry to a Jira issue",
        ),
    ];
    proof {
        assert(tools.deep_view() =~= worklog_entries());
    }
    tools
}

/// The tools of the toolset `jira_links`.
pub open spec fn links_entries() -> Seq<MetadataView> {
    seq![
        jira_entry(
            tools::JIRA_GET_LINK_TYPES_TOOL_NAME@,
            ToolAccess::Read,
            "jira_links"@,
            "Get link types"@,
            "Get Jira issue link types"@,
        ),
        jira_entry(
            tools::JIRA_LINK_TO_EPIC_TOOL_NAME@,
            ToolAccess::Write,
            "jira_links"@,
            "Link to epic"@,
            "Link a Jira issue to an epic using parent key"@,
        ),
        jira_entry(
            tools::JIRA_CREATE_ISSUE_LINK_TOOL_NAME@,
            ToolAccess::Write,
            "jira_links"@,
            "Create issue link"@,
            "Create a link between two Jira issues"@,
        ),
        jira_entry(
            tools::JIRA_CREATE_REMOTE_ISSUE_LINK_TOOL_NAME@,
            ToolAccess::Write,
            "jira_links"@,
            "Create remote issue link"@,
            "Create a remote link on a Jira issue"@,
        ),
        jira_entry(
            tools::JIRA_REMOVE_ISSUE_LINK_TOOL_NAME@,
            ToolAccess::Write,
            "jira_links"@,
            "Remove issue link"@,
            "Remove a Jira issue link by id"@,
        ),
    ]
}

fn links_tools() -> (tools: Vec<ToolMetadata>)
    ensures
        tools.deep_view() == links_entries(),
{
    let tools: Vec<ToolMetadata> = vec![
        jira_metadata(
            tools::JIRA_GET_LINK_TYPES_TOOL_NAME,
            ToolAccess::Read,
            "jira_links",
            "Get link types",
            "Get Jira issue link types",
        ),
        jira_metadata(
            tools::JIRA_LINK_TO_EPIC_TOOL_NAME,
            ToolAccess::Write,
            "jira_links",
            "Link to epic",
            "Link a Jira issue to an epic using parent key",
        ),
        jira_metadata(
            tools::JIRA_CREATE_ISSUE_LINK_TOOL_NAME,
            ToolAccess::Write,
            "jira_links",
            "Create issue link",
            "Create a link between two Jira issues",
        ),
        jira_metadata(
            tools::JIRA_CREATE_REMOTE_ISSUE_LINK_TOOL_NAME,
            ToolAccess::Write,
            "jira_links",
            "Create remote issue link",
            "Create a remote link on a Jira issue",
        ),
        jira_metadata(
            tools::JIRA_REMOVE_ISSUE_LINK_TOOL_NAME,
            ToolAccess::Write,
            "jira_links",
            "Remove issue link",
            "Remove a Jira issue link by id",
        ),
    ];
    proof {
        assert(tools.deep_view() =~= links_entries());
    }
    tools
}

/// The tools of the toolset `jira_attachments`.
pub open spec fn attachments_entries() -> Seq<MetadataView> {
    seq![
        jira_entry(
            tools::JIRA_DOWNLOAD_ATTACHMENTS_TOOL_NAME@,
            ToolAccess::Read,
            "jira_attachments"@,
            "Download attachments"@,
            "Download Jira issue attachments with bounded safe content output"@,
        ),
        jira_entry(
            tools::JIRA_GET_ISSUE_IMAGES_TOOL_NAME@,
            ToolAccess::Read,
            "jira_attachments"@,
            "Get issue images"@,
            "Get image attachments for a Jira issue with safe content output"@,
        ),
    ]
}

fn attachments_tools() -> (tools: Vec<ToolMetadata>)
    ensures
        tools.deep_view() == attachments_entries(),
{
    let tools: Vec<ToolMetadata> = vec![
        jira_metadata(
            tools::JIRA_DOWNLOAD_ATTACHMENTS_TOOL_NAME,
            ToolAccess::Read,
            "jira_attachments",
            "Download attachments",
            "Download Jira issue attachments with bounded safe content output",
        ),
        jira_metadata(
            tools::JIRA_GET_ISSUE_IMAGES_TOOL_NAME,
            ToolAccess::Read,
            "jira_attachments",
            "Get issue images",
            "Get image attachments for a Jira issue with safe content output",
        ),
    ];
    proof {
        assert(tools.deep_view() =~= attachments_entries());
    }
    tools
}

/// The tools of the toolset `jira_agile`.
pub open spec fn agile_entries() -> Seq<MetadataView> {
    seq![
        jira_entry(
            tools::JIRA_GET_AGILE_BOARDS_TOOL_NAME@,
            ToolAccess::Read,
            "jira_agile"@,
            "Get agile boards"@,
            "Get Jira Software agile boards"@,
        ),
        jira_entry(
            tools::JIRA_GET_BOARD_ISSUES_TOOL_NAME@,
            ToolAccess::Read,
            "jira_agile"@,
            "Get board issues"@,
            "Get issues on a Jira Software agile board"@,
        ),
        jira_entry(
            tools::JIRA_GET_SPRINTS_FROM_BOARD_TOOL_NAME@,
            ToolAccess::Read,
            "jira_agile"@,
            "Get sprints from board"@,
            "Get sprints for a Jira Software agile board"@,
        ),
        jira_entry(
            tools::JIRA_GET_SPRINT_ISSUES_TOOL_NAME@,
            ToolAccess::Read,
            "jira_agile"@,
            "Get sprint issues"@,
            "Get issues for a Jira Software sprint"@,
        ),
        jira_entry(
            tools::JIRA_CREATE_SPRINT_TOOL_NAME@,
            ToolAccess::Write,
            "jira_agile"@,
            "Create sprint"@,
            "Create a Jira Software sprint"@,
        ),
        jira_entry(
            tools::JIRA_UPDATE_SPRINT_TOOL_NAME@,
            ToolAccess::Write,
            "jira_agile"@,
            "Update sprint"@,
            "Update a Jira Software sprint"@,
        ),
        jira_entry(
            tools::JIRA_ADD_ISSUES_TO_SPRINT_TOOL_NAME@,
            ToolAccess::Write,
            "jira_agile"@,
            "Add issues to sprint"@,
            "Add Jira issues to a sprint"@,
        ),
    ]
}

fn agile_tools() -> (tools: Vec<ToolMetadata>)
    ensures
        tools.deep_view() == agile_entries(),
{
    let tools: Vec<ToolMetadata> = vec![
        jira_metadata(
            tools::JIRA_GET_AGILE_BOARDS_TOOL_NAME,
            ToolAccess::Read,
            "jira_agile",
            "Get agile boards",
            "Get Jira Software agile boards",
        ),
        jira_metadata(
            tools::JIRA_GET_BOARD_ISSUES_TOOL_NAME,
            ToolAccess::Read,
            "jira_agile",
            "Get board issues",
            "Get issues on a Jira Software agile board",
        ),
        jira_metadata(
            tools::JIRA_GET_SPRINTS_FROM_BOARD_TOOL_NAME,
            ToolAccess::Read,
            "jira_agile",
            "Get sprints from board",
            "Get sprints for a Jira Software agile board",
        ),
        jira_metadata(
            tools::JIRA_GET_SPRINT_ISSUES_TOOL_NAME,
            ToolAccess::Read,
            "jira_agile",
            "Get sprint issues",
            "Get issues for a Jira Software sprint",
        ),
        jira_metadata(
            tools::JIRA_CREATE_SPRINT_TOOL_NAME,
            ToolAccess::Write,
            "jira_agile",
            "Create sprint",
            "Create a Jira Software sprint",
        ),
        jira_metadata(
            tools::JIRA_UPDATE_SPRINT_TOOL_NAME,
            ToolAccess::Write,
            "jira_agile",
            "Update sprint",
            "Update a Jira Software sprint",
        ),
        jira_metadata(
            tools::JIRA_ADD_ISSUES_TO_SPRINT_TOOL_NAME,
            ToolAccess::Write,
            "jira_agile",
            "Add issues to sprint",
            "Add Jira issues to a sprint",
        ),
    ];
    proof {
        assert(tools.deep_view() =~= agile_entries());
    }
    tools
}

/// The tools of the toolset `jira_service_desk`.
pub open spec fn service_desk_entries() -> Seq<MetadataView> {
    seq![
        jira_entry(
            tools::JIRA_GET_SERVICE_DESK_FOR_PROJECT_TOOL_NAME@,
            ToolAccess::Read,
            "jira_service_desk"@,
            "Get service desk for project"@,
            "Get the Jira Service Management service desk for a project"@,
        ),
        jira_entry(
            tools::JIRA_GET_SERVICE_DESK_QUEUES_TOOL_NAME@,
            ToolAccess::Read,
            "jira_service_desk"@,
            "Get service desk queues"@,
            "Get queues for a Jira Service Management service desk"@,
        ),
        jira_entry(
            tools::JIRA_GET_QUEUE_ISSUES_TOOL_NAME@,
            ToolAccess::Read,
            "jira_service_desk"@,
            "Get queue issues"@,
            "Get issues for a Jira Service Management queue"@,
        ),
    ]
}

fn service_desk_tools() -> (tools: Vec<ToolMetadata>)
    ensures
        tools.deep_view() == service_desk_entries(),
{
    let tools: Vec<ToolMetadata> = vec![
        jira_metadata(
            tools::JIRA_GET_SERVICE_DESK_FOR_PROJECT_TOOL_NAME,
            ToolAccess::Read,
            "jira_service_desk",
            "Get service desk for project",
            "Get the Jira Service Management service desk for a project",
        ),
        jira_metadata(
            tools::JIRA_GET_SERVICE_DESK_QUEUES_TOOL_NAME,
            ToolAccess::Read,
            "jira_service_desk",
            "Get service desk queues",
            "Get queues for a Jira Service Management service desk",
        ),
        jira_metadata(
            tools::JIRA_GET_QUEUE_ISSUES_TOOL_NAME,
            ToolAccess::Read,
            "jira_service_desk",
            "Get queue issues",
            "Get issues for a Jira Service Management queue",
        ),
    ];
    proof {
        assert(tools.deep_view() =~= service_desk_entries());
    }
    tools
}

/// The tools of the toolset `jira_forms`.
pub open spec fn forms_entries() -> Seq<MetadataView> {
    seq![
        jira_entry(
            tools::JIRA_GET_ISSUE_PROFORMA_FORMS_TOOL_NAME@,
            ToolAccess::Read,
            "jira_forms"@,
            "Get issue proforma forms"@,
            "Get Jira Forms or ProForma forms for an issue"@,
        ),
        jira_entry(
            tools::JIRA_GET_PROFORMA_FORM_DETAILS_TOOL_NAME@,
            ToolAccess::Read,
            "jira_forms"@,
            "Get proforma form details"@,
            "Get details for a Jira Form or ProForma form"@,
        ),
        jira_entry(
            tools::JIRA_UPDATE_PROFORMA_FORM_ANSWERS_TOOL_NAME@,
            ToolAccess::Write,
            "jira_forms"@,
            "Update proforma form answers"@,
            "Update answers on a Jira Form or ProForma form"@,
        ),
    ]
}

fn forms_tools() -> (tools: Vec<ToolMetadata>)
    ensures
        tools.deep_view() == forms_entries(),
{
    let tools: Vec<ToolMetadata> = vec![
        jira_metadata(
            tools::JIRA_GET_ISSUE_PROFORMA_FORMS_TOOL_NAME,
            ToolAccess::Read,
            "jira_forms",
            "Get issue proforma forms",
            "Get Jira Forms or ProForma forms for an issue",
        ),
        jira_metadata(
            tools::JIRA_GET_PROFORMA_FORM_DETAILS_TOOL_NAME,
            ToolAccess::Read,
            "jira_forms",
            "Get proforma form details",
            "Get details for a Jira Form or ProForma form",
        ),
        jira_metadata(
            tools::JIRA_UPDATE_PROFORMA_FORM_ANSWERS_TOOL_NAME,
            ToolAccess::Write,
            "jira_forms",
            "Update proforma form answers",
            "Update answers on a Jira Form or ProForma form",
        ),
    ];
    proof {
        assert(tools.deep_view() =~= forms_entries());
    }
    tools
}

/// The tools of the toolset `jira_metrics`.
pub open spec fn metrics_entries() -> Seq<MetadataView> {
    seq![
        jira_entry(
            tools::JIRA_GET_ISSUE_DATES_TOOL_NAME@,
            ToolAccess::Read,
            "jira_metrics"@,
            "Get issue dates"@,
            "Get Jira issue date and status timing information"@,
        ),
        jira_entry(
            tools::JIRA_GET_ISSUE_SLA_TOOL_NAME@,
            ToolAccess::Read,
            "jira_metrics"@,
            "Get issue sla"@,
            "Get Jira Service Management SLA metrics for an issue"@,
        ),
    ]
}

fn metrics_tools() -> (tools: Vec<ToolMetadata>)
    ensures
        tools.deep_view() == metrics_entries(),
{
    let tools: Vec<ToolMetadata> = vec![
        jira_metadata(
            tools::JIRA_GET_ISSUE_DATES_TOOL_NAME,
            ToolAccess::Read,
            "jira_metrics",
            "Get issue dates",
            "Get Jira issue date and status timing information",
        ),
        jira_metadata(
            tools::JIRA_GET_ISSUE_SLA_TOOL_NAME,
            ToolAccess::Read,
            "jira_metrics",
            "Get issue sla",
            "Get Jira Service Management SLA metrics for an issue",
        ),
    ];
    proof {
        assert(tools.deep_view() =~= metrics_entries());
    }
    tools
}

/// The tools of the toolset `jira_development`.
pub open spec fn development_entries() -> Seq<MetadataView> {
    seq![
        jira_entry(
            tools::JIRA_GET_ISSUE_DEVELOPMENT_INFO_TOOL_NAME@,
            ToolAccess::Read,
            "jira_development"@,
            "Get issue development info"@,
            "Get Jira development information for an issue"@,
        ),
        jira_entry(
            tools::JIRA_GET_ISSUES_DEVELOPMENT_INFO_TOOL_NAME@,
            ToolAccess::Read,
            "jira_development"@,
            "Get issues development info"@,
            "Get Jira development information for multiple issues"@,
        ),
    ]
}

fn development_tools() -> (tools: Vec<ToolMetadata>)
    ensures
        tools.deep_view() == development_entries(),
{
    let tools: Vec<ToolMetadata> = vec![
        jira_metadata(
            tools::JIRA_GET_ISSUE_DEVELOPMENT_INFO_TOOL_NAME,
            ToolAccess::Read,
            "jira_development",
            "Get issue development info",
            "Get Jira development information for an issue",
        ),
        jira_metadata(
            tools::JIRA_GET_ISSUES_DEVELOPMENT_INFO_TOOL_NAME,
            ToolAccess::Read,
            "jira_development",
            "Get issues development info",
            "Get Jira development information for multiple issues",
        ),
    ];
    proof {
        assert(tools.deep_view() =~= development_entries());
    }
    tools
}

/// All Jira tools.
pub open spec fn jira_entries() -> Seq<MetadataView> {
    issues_entries() + fields_entries() + comments_entries() + transitions_entries()
        + projects_entries() + users_entries() + watchers_entries() + worklog_entries()
        + links_entries() + attachments_entries() + agile_entries() + service_desk_entries()
        + forms_entries() + metrics_entries() + development_entries()
}

fn append_tools(tools: &mut Vec<ToolMetadata>, more: Vec<ToolMetadata>)
    ensures
        final(tools).deep_view() == old(tools).deep_view() + more.deep_view(),
{
    let mut more = more;
    let ghost left = tools.deep_view();
    let ghost right = more.deep_view();
    tools.append(&mut more);
    proof {
        assert(tools.deep_view() =~= left + right);
    }
}

/// All Jira tools.
pub fn jira_tools() -> (tools: Vec<ToolMetadata>)
    ensures
        tools.deep_view() == jira_entries(),
{
    let mut tools = issues_tools();
    append_tools(&mut tools, fields_tools());
    append_tools(&mut tools, comments_tools());
    append_tools(&mut tools, transitions_tools());
    append_tools(&mut tools, projects_tools());
    append_tools(&mut tools, users_tools());
    append_tools(&mut tools, watchers_tools());
    append_tools(&mut tools, worklog_tools());
    append_tools(&mut tools, links_tools());
    append_tools(&mut tools, attachments_tools());
    append_tools(&mut tools, agile_tools());
    append_tools(&mut tools, service_desk_tools());
    append_tools(&mut tools, forms_tools());
    append_tools(&mut tools, metrics_tools());
    append_tools(&mut tools, development_tools());
    tools
}

} // verus!
