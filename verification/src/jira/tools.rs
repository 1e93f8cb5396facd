//! The names of the Jira tools and the arguments that they take.
//!
//! An argument that may come in more than one shape, such as a list as an array or as
//! text, is kept as JSON and read by the tool.

use vstd::prelude::*;

use crate::json::Json;

verus! {

pub const JIRA_GET_ISSUE_TOOL_NAME: &'static str = "jira_get_issue";

pub const JIRA_SEARCH_TOOL_NAME: &'static str = "jira_search";

pub const JIRA_GET_PROJECT_ISSUES_TOOL_NAME: &'static str = "jira_get_project_issues";

pub const JIRA_SEARCH_FIELDS_TOOL_NAME: &'static str = "jira_search_fields";

pub const JIRA_GET_FIELD_OPTIONS_TOOL_NAME: &'static str = "jira_get_field_options";

pub const JIRA_ADD_COMMENT_TOOL_NAME: &'static str = "jira_add_comment";

pub const JIRA_EDIT_COMMENT_TOOL_NAME: &'static str = "jira_edit_comment";

pub const JIRA_GET_TRANSITIONS_TOOL_NAME: &'static str = "jira_get_transitions";

pub const JIRA_TRANSITION_ISSUE_TOOL_NAME: &'static str = "jira_transition_issue";

pub const JIRA_CREATE_ISSUE_TOOL_NAME: &'static str = "jira_create_issue";

pub const JIRA_BATCH_CREATE_ISSUES_TOOL_NAME: &'static str = "jira_batch_create_issues";

pub const JIRA_BATCH_GET_CHANGELOGS_TOOL_NAME: &'static str = "jira_batch_get_changelogs";

pub const JIRA_UPDATE_ISSUE_TOOL_NAME: &'static str = "jira_update_issue";

pub const JIRA_DELETE_ISSUE_TOOL_NAME: &'static str = "jira_delete_issue";

pub const JIRA_GET_ALL_PROJECTS_TOOL_NAME: &'static str = "jira_get_all_projects";

pub const JIRA_GET_PROJECT_VERSIONS_TOOL_NAME: &'static str = "jira_get_project_versions";

pub const JIRA_GET_PROJECT_COMPONENTS_TOOL_NAME: &'static str = "jira_get_project_components";

pub const JIRA_CREATE_VERSION_TOOL_NAME: &'static str = "jira_create_version";

pub const JIRA_BATCH_CREATE_VERSIONS_TOOL_NAME: &'static str = "jira_batch_create_versions";

pub const JIRA_GET_USER_PROFILE_TOOL_NAME: &'static str = "jira_get_user_profile";

pub const JIRA_GET_ISSUE_WATCHERS_TOOL_NAME: &'static str = "jira_get_issue_watchers";

pub const JIRA_ADD_WATCHER_TOOL_NAME: &'static str = "jira_add_watcher";

pub const JIRA_REMOVE_WATCHER_TOOL_NAME: &'static str = "jira_remove_watcher";

pub const JIRA_GET_WORKLOG_TOOL_NAME: &'static str = "jira_get_worklog";

pub const JIRA_ADD_WORKLOG_TOOL_NAME: &'static str = "jira_add_worklog";

pub const JIRA_GET_LINK_TYPES_TOOL_NAME: &'static str = "jira_get_link_types";

pub const JIRA_LINK_TO_EPIC_TOOL_NAME: &'static str = "jira_link_to_epic";

pub const JIRA_CREATE_ISSUE_LINK_TOOL_NAME: &'static str = "jira_create_issue_link";

pub const JIRA_CREATE_REMOTE_ISSUE_LINK_TOOL_NAME: &'static str = "jira_create_remote_issue_link";

pub const JIRA_REMOVE_ISSUE_LINK_TOOL_NAME: &'static str = "jira_remove_issue_link";

pub const JIRA_DOWNLOAD_ATTACHMENTS_TOOL_NAME: &'static str = "jira_download_attachments";

pub const JIRA_GET_ISSUE_IMAGES_TOOL_NAME: &'static str = "jira_get_issue_images";

pub const JIRA_GET_AGILE_BOARDS_TOOL_NAME: &'static str = "jira_get_agile_boards";

pub const JIRA_GET_BOARD_ISSUES_TOOL_NAME: &'static str = "jira_get_board_issues";

pub const JIRA_GET_SPRINTS_FROM_BOARD_TOOL_NAME: &'static str = "jira_get_sprints_from_board";

pub const JIRA_GET_SPRINT_ISSUES_TOOL_NAME: &'static str = "jira_get_sprint_issues";

pub const JIRA_CREATE_SPRINT_TOOL_NAME: &'static str = "jira_create_sprint";

pub const JIRA_UPDATE_SPRINT_TOOL_NAME: &'static str = "jira_update_sprint";

pub const JIRA_ADD_ISSUES_TO_SPRINT_TOOL_NAME: &'static str = "jira_add_issues_to_sprint";

pub const JIRA_GET_SERVICE_DESK_FOR_PROJECT_TOOL_NAME: &'static str = "jira_get_service_desk_for_project";

pub const JIRA_GET_SERVICE_DESK_QUEUES_TOOL_NAME: &'static str = "jira_get_service_desk_queues";

pub const JIRA_GET_QUEUE_ISSUES_TOOL_NAME: &'static str = "jira_get_queue_issues";

pub const JIRA_GET_ISSUE_PROFORMA_FORMS_TOOL_NAME: &'static str = "jira_get_issue_proforma_forms";

pub const JIRA_GET_PROFORMA_FORM_DETAILS_TOOL_NAME: &'static str = "jira_get_proforma_form_details";

pub const JIRA_UPDATE_PROFORMA_FORM_ANSWERS_TOOL_NAME: &'static str = "jira_update_proforma_form_answers";

pub const JIRA_GET_ISSUE_DATES_TOOL_NAME: &'static str = "jira_get_issue_dates";

pub const JIRA_GET_ISSUE_SLA_TOOL_NAME: &'static str = "jira_get_issue_sla";

pub const JIRA_GET_ISSUE_DEVELOPMENT_INFO_TOOL_NAME: &'static str = "jira_get_issue_development_info";

pub const JIRA_GET_ISSUES_DEVELOPMENT_INFO_TOOL_NAME: &'static str = "jira_get_issues_development_info";

/// The arguments of the tool that reads an issue.
#[derive(Debug)]
pub struct JiraGetIssueArgs {
    pub issue_key: String,
    pub fields: Option<Json>,
    pub expand: Option<Json>,
    pub comment_limit: Option<u64>,
    pub properties: Option<Json>,
    pub update_history: Option<bool>,
}

/// The arguments of the tool that searches issues.
#[derive(Debug)]
pub struct JiraSearchArgs {
    pub jql: String,
    pub fields: Option<Json>,
    pub limit: Option<u64>,
    pub start_at: Option<u64>,
    pub projects_filter: Option<Json>,
    pub expand: Option<Json>,
    pub page_token: Option<String>,
}

/// The arguments of the tool that lists the issues of a project.
#[derive(Debug)]
pub struct JiraGetProjectIssuesArgs {
    pub project_key: String,
    pub limit: Option<u64>,
    pub start_at: Option<u64>,
}

/// The arguments of the tool that searches fields.
#[derive(Debug)]
pub struct JiraSearchFieldsArgs {
    pub keyword: Option<String>,
    pub limit: Option<u64>,
    pub refresh: Option<bool>,
}

/// The arguments of the tool that lists the options of a field.
#[derive(Debug)]
pub struct JiraGetFieldOptionsArgs {
    pub field_id: String,
    pub context_id: Option<String>,
    pub project_key: Option<String>,
    pub issue_type: Option<String>,
    pub contains: Option<String>,
    pub return_limit: Option<u64>,
    pub values_only: Option<bool>,
}

/// The arguments of the tool that adds a comment.
#[derive(Debug)]
pub struct JiraAddCommentArgs {
    pub issue_key: String,
    pub body: String,
    pub visibility: Option<Json>,
}

/// The arguments of the tool that edits a comment.
#[derive(Debug)]
pub struct JiraEditCommentArgs {
    pub issue_key: String,
    pub comment_id: String,
    pub body: String,
    pub visibility: Option<Json>,
}

/// The arguments of the tool that lists the transitions of an issue.
#[derive(Debug)]
pub struct JiraGetTransitionsArgs {
    pub issue_key: String,
}

/// The arguments of the tool that takes an issue through a transition.
#[derive(Debug)]
pub struct JiraTransitionIssueArgs {
    pub issue_key: String,
    pub transition_id: String,
    pub fields: Option<Json>,
    pub comment: Option<String>,
}

/// The arguments of the tool that creates an issue.
#[derive(Debug)]
pub struct JiraCreateIssueArgs {
    pub project_key: String,
    pub summary: String,
    pub issue_type: String,
    pub assignee: Option<String>,
    pub description: Option<String>,
    pub components: Option<Json>,
    pub additional_fields: Option<Json>,
}

/// The arguments of the tool that creates issues.
#[derive(Debug)]
pub struct JiraBatchCreateIssuesArgs {
    pub issues: Json,
    pub validate_only: Option<bool>,
}

/// The arguments of the tool that reads the changelogs of issues.
#[derive(Debug)]
pub struct JiraBatchGetChangelogsArgs {
    pub issue_ids_or_keys: Json,
    pub fields: Option<Json>,
    pub limit: Option<i64>,
}

/// The arguments of the tool that updates an issue.
#[derive(Debug)]
pub struct JiraUpdateIssueArgs {
    pub issue_key: String,
    pub fields: Json,
    pub components: Option<Json>,
    pub additional_fields: Option<Json>,
    pub notify_users: Option<bool>,
}

/// The arguments of the tool that deletes an issue.
#[derive(Debug)]
pub struct JiraDeleteIssueArgs {
    pub issue_key: String,
    pub delete_subtasks: Option<bool>,
}

/// The arguments of the tool that lists projects.
#[derive(Debug)]
pub struct JiraGetAllProjectsArgs {
    pub include_archived: Option<bool>,
}

/// The arguments of the tool that lists the versions of a project.
#[derive(Debug)]
pub struct JiraGetProjectVersionsArgs {
    pub project_key: String,
}

/// The arguments of the tool that lists the components of a project.
#[derive(Debug)]
pub struct JiraGetProjectComponentsArgs {
    pub project_key: String,
}

/// The arguments of the tool that creates a version.
#[derive(Debug)]
pub struct JiraCreateVersionArgs {
    pub project_key: String,
    pub name: String,
    pub start_date: Option<String>,
    pub release_date: Option<String>,
    pub description: Option<String>,
}

/// The arguments of the tool that creates versions.
#[derive(Debug)]
pub struct JiraBatchCreateVersionsArgs {
    pub project_key: String,
    pub versions: Json,
}

/// The arguments of the tool that reads a user profile.
#[derive(Debug)]
pub struct JiraGetUserProfileArgs {
    pub user_identifier: String,
}

/// The arguments of the tool that lists the watchers of an issue.
#[derive(Debug)]
pub struct JiraGetIssueWatchersArgs {
    pub issue_key: String,
}

/// The arguments of the tool that adds a watcher.
#[derive(Debug)]
pub struct JiraAddWatcherArgs {
    pub issue_key: String,
    pub user_identifier: String,
}

/// The arguments of the tool that removes a watcher.
#[derive(Debug)]
pub struct JiraRemoveWatcherArgs {
    pub issue_key: String,
    pub user_identifier: String,
}

/// The arguments of the tool that reads a worklog.
#[derive(Debug)]
pub struct JiraGetWorklogArgs {
    pub issue_key: String,
    pub start_at: Option<u64>,
    pub limit: Option<u64>,
}

/// The arguments of the tool that adds to a worklog.
#[derive(Debug)]
pub struct JiraAddWorklogArgs {
    pub issue_key: String,
    pub time_spent: String,
    pub started: Option<String>,
    pub comment: Option<String>,
    pub visibility: Option<Json>,
    pub adjust_estimate: Option<String>,
    pub new_estimate: Option<String>,
    pub reduce_by: Option<String>,
}

/// The arguments of the tool that lists link types.
#[derive(Debug)]
pub struct JiraGetLinkTypesArgs {
    pub name_filter: Option<String>,
}

/// The arguments of the tool that links an issue to an epic.
#[derive(Debug)]
pub struct JiraLinkToEpicArgs {
    pub issue_key: String,
    pub epic_key: String,
}

/// The arguments of the tool that links two issues.
#[derive(Debug)]
pub struct JiraCreateIssueLinkArgs {
    pub link_type: String,
    pub inward_issue_key: String,
    pub outward_issue_key: String,
    pub comment: Option<String>,
}

/// The arguments of the tool that links an issue to a web page.
#[derive(Debug)]
pub struct JiraCreateRemoteIssueLinkArgs {
    pub issue_key: String,
    pub url: String,
    pub title: String,
    pub summary: Option<String>,
    pub icon_url: Option<String>,
    pub status: Option<Json>,
    pub global_id: Option<String>,
    pub relationship: Option<String>,
}

/// The arguments of the tool that removes a link.
#[derive(Debug)]
pub struct JiraRemoveIssueLinkArgs {
    pub link_id: String,
}

/// The arguments of the tool that reads the attachments of an issue.
#[derive(Debug)]
pub struct JiraDownloadAttachmentsArgs {
    pub issue_key: String,
    pub attachment_ids: Option<Json>,
    pub include_content: Option<bool>,
    pub max_bytes: Option<u64>,
}

/// The arguments of the tool that reads the images of an issue.
#[derive(Debug)]
pub struct JiraGetIssueImagesArgs {
    pub issue_key: String,
    pub include_content: Option<bool>,
    pub max_bytes: Option<u64>,
}

/// The arguments of the tool that lists boards.
#[derive(Debug)]
pub struct JiraGetAgileBoardsArgs {
    pub project_key: Option<String>,
    pub board_type: Option<String>,
    pub start_at: Option<u64>,
    pub limit: Option<u64>,
}

/// The arguments of the tool that lists the issues of a board.
#[derive(Debug)]
pub struct JiraGetBoardIssuesArgs {
    pub board_id: u64,
    pub jql: Option<String>,
    pub fields: Option<Json>,
    pub start_at: Option<u64>,
    pub limit: Option<u64>,
}

/// The arguments of the tool that lists the sprints of a board.
#[derive(Debug)]
pub struct JiraGetSprintsFromBoardArgs {
    pub board_id: u64,
    pub state: Option<Json>,
    pub start_at: Option<u64>,
    pub limit: Option<u64>,
}

/// The arguments of the tool that lists the issues of a sprint.
#[derive(Debug)]
pub struct JiraGetSprintIssuesArgs {
    pub sprint_id: u64,
    pub fields: Option<Json>,
    pub start_at: Option<u64>,
    pub limit: Option<u64>,
}

/// The arguments of the tool that creates a sprint.
#[derive(Debug)]
pub struct JiraCreateSprintArgs {
    pub name: String,
    pub origin_board_id: u64,
    pub start_date: Option<String>,
    pub end_date: Option<String>,
    pub goal: Option<String>,
}

/// The arguments of the tool that updates a sprint.
#[derive(Debug)]
pub struct JiraUpdateSprintArgs {
    pub sprint_id: u64,
    pub name: Option<String>,
    pub state: Option<String>,
    pub start_date: Option<String>,
    pub end_date: Option<String>,
    pub goal: Option<String>,
}

/// The arguments of the tool that adds issues to a sprint.
#[derive(Debug)]
pub struct JiraAddIssuesToSprintArgs {
    pub sprint_id: u64,
    pub issue_keys: Json,
}

/// The arguments of the tool that finds the service desk of a project.
#[derive(Debug)]
pub struct JiraGetServiceDeskForProjectArgs {
    pub project_key: String,
}

/// The arguments of the tool that lists the queues of a service desk.
#[derive(Debug)]
pub struct JiraGetServiceDeskQueuesArgs {
    pub service_desk_id: String,
    pub start_at: Option<u64>,
    pub limit: Option<u64>,
}

/// The arguments of the tool that lists the issues of a queue.
#[derive(Debug)]
pub struct JiraGetQueueIssuesArgs {
    pub service_desk_id: String,
    pub queue_id: String,
    pub start_at: Option<u64>,
    pub limit: Option<u64>,
}

/// The arguments of the tool that lists the forms of an issue.
#[derive(Debug)]
pub struct JiraGetIssueProformaFormsArgs {
    pub issue_key: String,
}

/// The arguments of the tool that reads a form.
#[derive(Debug)]
pub struct JiraGetProformaFormDetailsArgs {
    pub issue_key: String,
    pub form_id: String,
}

/// The arguments of the tool that answers a form.
#[derive(Debug)]
pub struct JiraUpdateProformaFormAnswersArgs {
    pub issue_key: String,
    pub form_id: String,
    pub answers: Json,
}

/// The arguments of the tool that reads the dates of an issue.
#[derive(Debug)]
pub struct JiraGetIssueDatesArgs {
    pub issue_key: String,
    pub include_status_changes: Option<bool>,
    pub include_status_summary: Option<bool>,
}

/// The arguments of the tool that reads the service levels of an issue.
#[derive(Debug)]
pub struct JiraGetIssueSlaArgs {
    pub issue_key: String,
    pub metrics: Option<Json>,
    pub working_hours_only: Option<bool>,
    pub include_raw_dates: Option<bool>,
}

/// The arguments of the tool that reads the development information of an issue.
#[derive(Debug)]
pub struct JiraGetIssueDevelopmentInfoArgs {
    pub issue_key: String,
    pub application_type: Option<String>,
    pub data_type: Option<String>,
}

/// The arguments of the tool that reads the development information of issues.
#[derive(Debug)]
pub struct JiraGetIssuesDevelopmentInfoArgs {
    pub issue_keys: Json,
    pub application_type: Option<String>,
    pub data_type: Option<String>,
}

} // verus!
