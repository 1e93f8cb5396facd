//! What the Jira client is asked to do for a tool.

use vstd::prelude::*;

use crate::json::{Json, JsonView};

verus! {

/// An operation of the Jira client, with the arguments that it gets.
#[allow(inconsistent_fields)]
#[derive(Debug)]
pub enum ClientCall {
    CreateIssue { fields: Json },
    BatchCreateIssues { issue_updates: Vec<Json>, validate_only: bool },
    BatchGetChangelogs {
        issue_ids_or_keys: Vec<String>,
        fields: Option<Vec<String>>,
        limit: Option<i64>,
    },
    UpdateIssue {
        issue_key: String,
        fields: Json,
        additional_fields: Option<Json>,
        notify_users: Option<bool>,
    },
    DeleteIssue { issue_key: String, delete_subtasks: bool },
    GetAllProjects { include_archived: bool },
    GetProjectVersions { project_key: String },
    GetProjectComponents { project_key: String },
    CreateVersion { payload: Json },
    BatchCreateVersions { versions: Vec<Json> },
    GetUserProfile { user_identifier: String },
    GetIssueWatchers { issue_key: String },
    AddWatcher { issue_key: String, user_identifier: String },
    RemoveWatcher { issue_key: String, user_identifier: String },
    GetWorklog { issue_key: String, start_at: Option<u64>, limit: Option<u64> },
    AddWorklog { issue_key: String, payload: Json, query: Vec<(String, String)> },
    GetLinkTypes,
    LinkToEpic { issue_key: String, epic_key: String },
    CreateIssueLink { payload: Json },
    CreateRemoteIssueLink { issue_key: String, payload: Json },
    RemoveIssueLink { link_id: String },
    /// Without `max_bytes` the client's own limit holds.
    GetSafeIssueAttachments {
        issue_key: String,
        attachment_ids: Option<Vec<String>>,
        include_content: bool,
        images_only: bool,
        max_bytes: Option<u64>,
    },
    GetAgileBoards {
        project_key: Option<String>,
        board_type: Option<String>,
        start_at: Option<u64>,
        limit: Option<u64>,
    },
    GetBoardIssues {
        board_id: u64,
        jql: Option<String>,
        fields: Option<Vec<String>>,
        start_at: Option<u64>,
        limit: Option<u64>,
    },
    GetSprintsFromBoard {
        board_id: u64,
        state: Option<Vec<String>>,
        start_at: Option<u64>,
        limit: Option<u64>,
    },
    GetSprintIssues {
        sprint_id: u64,
        fields: Option<Vec<String>>,
        start_at: Option<u64>,
        limit: Option<u64>,
    },
    CreateSprint { payload: Json },
    UpdateSprint { sprint_id: u64, payload: Json },
    AddIssuesToSprint { sprint_id: u64, issue_keys: Vec<String> },
    GetServiceDeskForProject { project_key: String },
    GetServiceDeskQueues { service_desk_id: String, start_at: Option<u64>, limit: Option<u64> },
    GetQueueIssues {
        service_desk_id: String,
        queue_id: String,
        start_at: Option<u64>,
        limit: Option<u64>,
    },
    GetIssueProformaForms { issue_key: String, cloud_id: Option<String> },
    GetProformaFormDetails { issue_key: String, form_id: String, cloud_id: Option<String> },
    UpdateProformaFormAnswers {
        issue_key: String,
        form_id: String,
        answers: Vec<Json>,
        cloud_id: Option<String>,
    },
    GetIssueDates {
        issue_key: String,
        include_status_changes: bool,
        include_status_summary: bool,
    },
    GetIssueSla {
        issue_key: String,
        metrics: Option<Vec<String>>,
        working_hours_only: Option<bool>,
        include_raw_dates: bool,
    },
    GetIssueDevelopmentInfo {
        issue_key: String,
        application_type: Option<String>,
        data_type: Option<String>,
    },
    GetIssuesDevelopmentInfo {
        issue_keys: Vec<String>,
        application_type: Option<String>,
        data_type: Option<String>,
    },
}

/// What an operation stands for.
#[allow(inconsistent_fields)]
#[verifier::ext_equal]
pub enum CallView {
    CreateIssue { fields: JsonView },
    BatchCreateIssues { issue_updates: Seq<JsonView>, validate_only: bool },
    BatchGetChangelogs {
        issue_ids_or_keys: Seq<Seq<char>>,
        fields: Option<Seq<Seq<char>>>,
        limit: Option<i64>,
    },
    UpdateIssue {
        issue_key: Seq<char>,
        fields: JsonView,
        additional_fields: Option<JsonView>,
        notify_users: Option<bool>,
    },
    DeleteIssue { issue_key: Seq<char>, delete_subtasks: bool },
    GetAllProjects { include_archived: bool },
    GetProjectVersions { project_key: Seq<char> },
    GetProjectComponents { project_key: Seq<char> },
    CreateVersion { payload: JsonView },
    BatchCreateVersions { versions: Seq<JsonView> },
    GetUserProfile { user_identifier: Seq<char> },
    GetIssueWatchers { issue_key: Seq<char> },
    AddWatcher { issue_key: Seq<char>, user_identifier: Seq<char> },
    RemoveWatcher { issue_key: Seq<char>, user_identifier: Seq<char> },
    GetWorklog { issue_key: Seq<char>, start_at: Option<u64>, limit: Option<u64> },
    AddWorklog { issue_key: Seq<char>, payload: JsonView, query: Seq<(Seq<char>, Seq<char>)> },
    GetLinkTypes,
    LinkToEpic { issue_key: Seq<char>, epic_key: Seq<char> },
    CreateIssueLink { payload: JsonView },
    CreateRemoteIssueLink { issue_key: Seq<char>, payload: JsonView },
    RemoveIssueLink { link_id: Seq<char> },
    GetSafeIssueAttachments {
        issue_key: Seq<char>,
        attachment_ids: Option<Seq<Seq<char>>>,
        include_content: bool,
        images_only: bool,
        max_bytes: Option<u64>,
    },
    GetAgileBoards {
        project_key: Option<Seq<char>>,
        board_type: Option<Seq<char>>,
        start_at: Option<u64>,
        limit: Option<u64>,
    },
    GetBoardIssues {
        board_id: u64,
        jql: Option<Seq<char>>,
        fields: Option<Seq<Seq<char>>>,
        start_at: Option<u64>,
        limit: Option<u64>,
    },
    GetSprintsFromBoard {
        board_id: u64,
        state: Option<Seq<Seq<char>>>,
        start_at: Option<u64>,
        limit: Option<u64>,
    },
    GetSprintIssues {
        sprint_id: u64,
        fields: Option<Seq<Seq<char>>>,
        start_at: Option<u64>,
        limit: Option<u64>,
    },
    CreateSprint { payload: JsonView },
    UpdateSprint { sprint_id: u64, payload: JsonView },
    AddIssuesToSprint { sprint_id: u64, issue_keys: Seq<Seq<char>> },
    GetServiceDeskForProject { project_key: Seq<char> },
    GetServiceDeskQueues {
        service_desk_id: Seq<char>,
        start_at: Option<u64>,
        limit: Option<u64>,
    },
    GetQueueIssues {
        service_desk_id: Seq<char>,
        queue_id: Seq<char>,
        start_at: Option<u64>,
        limit: Option<u64>,
    },
    GetIssueProformaForms { issue_key: Seq<char>, cloud_id: Option<Seq<char>> },
    GetProformaFormDetails {
        issue_key: Seq<char>,
        form_id: Seq<char>,
        cloud_id: Option<Seq<char>>,
    },
    UpdateProformaFormAnswers {
        issue_key: Seq<char>,
        form_id: Seq<char>,
        answers: Seq<JsonView>,
        cloud_id: Option<Seq<char>>,
    },
    GetIssueDates {
        issue_key: Seq<char>,
        include_status_changes: bool,
        include_status_summary: bool,
    },
    GetIssueSla {
        issue_key: Seq<char>,
        metrics: Option<Seq<Seq<char>>>,
        working_hours_only: Option<bool>,
        include_raw_dates: bool,
    },
    GetIssueDevelopmentInfo {
        issue_key: Seq<char>,
        application_type: Option<Seq<char>>,
        data_type: Option<Seq<char>>,
    },
    GetIssuesDevelopmentInfo {
        issue_keys: Seq<Seq<char>>,
        application_type: Option<Seq<char>>,
        data_type: Option<Seq<char>>,
    },
}

impl DeepView for ClientCall {
    type V = CallView;

    open spec fn deep_view(&self) -> CallView {
        match self {
            ClientCall::CreateIssue { fields } => CallView::CreateIssue {
                fields: fields@,
            },
            ClientCall::BatchCreateIssues { issue_updates, validate_only } => {
                CallView::BatchCreateIssues {
                    issue_updates: issue_updates.deep_view(),
                    validate_only: *validate_only,
                }
            },
            ClientCall::BatchGetChangelogs { issue_ids_or_keys, fields, limit } => {
                CallView::BatchGetChangelogs {
                    issue_ids_or_keys: issue_ids_or_keys.deep_view(),
                    fields: fields.deep_view(),
                    limit: *limit,
                }
            },
            ClientCall::UpdateIssue { issue_key, fields, additional_fields, notify_users } => {
                CallView::UpdateIssue {
                    issue_key: issue_key@,
                    fields: fields@,
                    additional_fields: additional_fields.deep_view(),
                    notify_users: *notify_users,
                }
            },
            ClientCall::DeleteIssue { issue_key, delete_subtasks } => CallView::DeleteIssue {
                issue_key: issue_key@,
                delete_subtasks: *delete_subtasks,
            },
            ClientCall::GetAllProjects { include_archived } => CallView::GetAllProjects {
                include_archived: *include_archived,
            },
            ClientCall::GetProjectVersions { project_key } => CallView::GetProjectVersions {
                project_key: project_key@,
            },
            ClientCall::GetProjectComponents { project_key } => CallView::GetProjectComponents {
                project_key: project_key@,
            },
            ClientCall::CreateVersion { payload } => CallView::CreateVersion {
                payload: payload@,
            },
            ClientCall::BatchCreateVersions { versions } => CallView::BatchCreateVersions {
                versions: versions.deep_view(),
            },
            ClientCall::GetUserProfile { user_identifier } => CallView::GetUserProfile {
                user_identifier: user_identifier@,
            },
            ClientCall::GetIssueWatchers { issue_key } => CallView::GetIssueWatchers {
                issue_key: issue_key@,
            },
            ClientCall::AddWatcher { issue_key, user_identifier } => CallView::AddWatcher {
                issue_key: issue_key@,
                user_identifier: user_identifier@,
            },
            ClientCall::RemoveWatcher { issue_key, user_identifier } => CallView::RemoveWatcher {
                issue_key: issue_key@,
                user_identifier: user_identifier@,
            },
            ClientCall::GetWorklog { issue_key, start_at, limit } => CallView::GetWorklog {
                issue_key: issue_key@,
                start_at: *start_at,
                limit: *limit,
            },
            ClientCall::AddWorklog { issue_key, payload, query } => CallView::AddWorklog {
                issue_key: issue_key@,
                payload: payload@,
                query: query.deep_view(),
            },
            ClientCall::GetLinkTypes => CallView::GetLinkTypes,
            ClientCall::LinkToEpic { issue_key, epic_key } => CallView::LinkToEpic {
                issue_key: issue_key@,
                epic_key: epic_key@,
            },
            ClientCall::CreateIssueLink { payload } => CallView::CreateIssueLink {
                payload: payload@,
            },
            ClientCall::CreateRemoteIssueLink { issue_key, payload } => {
                CallView::CreateRemoteIssueLink {
                    issue_key: issue_key@,
                    payload: payload@,
                }
            },
            ClientCall::RemoveIssueLink { link_id } => CallView::RemoveIssueLink {
                link_id: link_id@,
            },
            ClientCall::GetSafeIssueAttachments {
                issue_key,
                attachment_ids,
                include_content,
                images_only,
                max_bytes,
            } => CallView::GetSafeIssueAttachments {
                issue_key: issue_key@,
                attachment_ids: attachment_ids.deep_view(),
                include_content: *include_content,
                images_only: *images_only,
                max_bytes: *max_bytes,
            },
            ClientCall::GetAgileBoards { project_key, board_type, start_at, limit } => {
                CallView::GetAgileBoards {
                    project_key: project_key.deep_view(),
                    board_type: board_type.deep_view(),
                    start_at: *start_at,
                    limit: *limit,
                }
            },
            ClientCall::GetBoardIssues { board_id, jql, fields, start_at, limit } => {
                CallView::GetBoardIssues {
                    board_id: *board_id,
                    jql: jql.deep_view(),
                    fields: fields.deep_view(),
                    start_at: *start_at,
                    limit: *limit,
                }
            },
            ClientCall::GetSprintsFromBoard { board_id, state, start_at, limit } => {
                CallView::GetSprintsFromBoard {
                    board_id: *board_id,
                    state: state.deep_view(),
                    start_at: *start_at,
                    limit: *limit,
                }
            },
            ClientCall::GetSprintIssues { sprint_id, fields, start_at, limit } => {
                CallView::GetSprintIssues {
                    sprint_id: *sprint_id,
                    fields: fields.deep_view(),
                    start_at: *start_at,
                    limit: *limit,
                }
            },
            ClientCall::CreateSprint { payload } => CallView::CreateSprint {
                payload: payload@,
            },
            ClientCall::UpdateSprint { sprint_id, payload } => CallView::UpdateSprint {
                sprint_id: *sprint_id,
                payload: payload@,
            },
            ClientCall::AddIssuesToSprint { sprint_id, issue_keys } => CallView::AddIssuesToSprint {
                sprint_id: *sprint_id,
                issue_keys: issue_keys.deep_view(),
            },
            ClientCall::GetServiceDeskForProject { project_key } => {
                CallView::GetServiceDeskForProject {
                    project_key: project_key@,
                }
            },
            ClientCall::GetServiceDeskQueues { service_desk_id, start_at, limit } => {
                CallView::GetServiceDeskQueues {
                    service_desk_id: service_desk_id@,
                    start_at: *start_at,
                    limit: *limit,
                }
            },
            ClientCall::GetQueueIssues { service_desk_id, queue_id, start_at, limit } => {
                CallView::GetQueueIssues {
                    service_desk_id: service_desk_id@,
                    queue_id: queue_id@,
                    start_at: *start_at,
                    limit: *limit,
                }
            },
            ClientCall::GetIssueProformaForms { issue_key, cloud_id } => {
                CallView::GetIssueProformaForms {
                    issue_key: issue_key@,
                    cloud_id: cloud_id.deep_view(),
                }
            },
            ClientCall::GetProformaFormDetails { issue_key, form_id, cloud_id } => {
                CallView::GetProformaFormDetails {
                    issue_key: issue_key@,
                    form_id: form_id@,
                    cloud_id: cloud_id.deep_view(),
                }
            },
            ClientCall::UpdateProformaFormAnswers { issue_key, form_id, answers, cloud_id } => {
                CallView::UpdateProformaFormAnswers {
                    issue_key: issue_key@,
                    form_id: form_id@,
                    answers: answers.deep_view(),
                    cloud_id: cloud_id.deep_view(),
                }
            },
            ClientCall::GetIssueDates {
                issue_key,
                include_status_changes,
                include_status_summary,
            } => CallView::GetIssueDates {
                issue_key: issue_key@,
                include_status_changes: *include_status_changes,
                include_status_summary: *include_status_summary,
            },
            ClientCall::GetIssueSla {
                issue_key,
                metrics,
                working_hours_only,
                include_raw_dates,
            } => CallView::GetIssueSla {
                issue_key: issue_key@,
                metrics: metrics.deep_view(),
                working_hours_only: *working_hours_only,
                include_raw_dates: *include_raw_dates,
            },
            ClientCall::GetIssueDevelopmentInfo { issue_key, application_type, data_type } => {
                CallView::GetIssueDevelopmentInfo {
                    issue_key: issue_key@,
                    application_type: application_type.deep_view(),
                    data_type: data_type.deep_view(),
                }
            },
            ClientCall::GetIssuesDevelopmentInfo { issue_keys, application_type, data_type } => {
                CallView::GetIssuesDevelopmentInfo {
                    issue_keys: issue_keys.deep_view(),
                    application_type: application_type.deep_view(),
                    data_type: data_type.deep_view(),
                }
            },
        }
    }
}

} // verus!
