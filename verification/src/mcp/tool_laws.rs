//! What holds of the tools: what each asks of Jira.

use vstd::prelude::*;

use crate::atlassian::auth::AtlassianAuth;
use crate::atlassian::error::AtlassianError;
use crate::atlassian::http::Method;
use crate::atlassian::url;
use crate::jira::client::{
    FieldOptionsRequest, GetIssueRequest, JiraClient, SearchRequest,
};
use crate::jira::config::JiraDeployment;
use crate::jira::formatting;
use crate::jira::tools::{
    JiraAddCommentArgs, JiraAddIssuesToSprintArgs, JiraAddWatcherArgs, JiraAddWorklogArgs,
    JiraBatchCreateIssuesArgs, JiraBatchCreateVersionsArgs, JiraBatchGetChangelogsArgs,
    JiraCreateIssueArgs, JiraCreateIssueLinkArgs, JiraCreateRemoteIssueLinkArgs,
    JiraCreateSprintArgs, JiraCreateVersionArgs, JiraDeleteIssueArgs,
    JiraDownloadAttachmentsArgs, JiraEditCommentArgs, JiraGetAgileBoardsArgs,
    JiraGetAllProjectsArgs, JiraGetBoardIssuesArgs, JiraGetFieldOptionsArgs, JiraGetIssueArgs,
    JiraGetIssueDatesArgs, JiraGetIssueDevelopmentInfoArgs, JiraGetIssueImagesArgs,
    JiraGetIssueProformaFormsArgs, JiraGetIssueSlaArgs, JiraGetIssueWatchersArgs,
    JiraGetIssuesDevelopmentInfoArgs, JiraGetProformaFormDetailsArgs,
    JiraGetProjectComponentsArgs, JiraGetProjectIssuesArgs, JiraGetProjectVersionsArgs,
    JiraGetQueueIssuesArgs, JiraGetServiceDeskForProjectArgs, JiraGetServiceDeskQueuesArgs,
    JiraGetSprintIssuesArgs, JiraGetSprintsFromBoardArgs, JiraGetTransitionsArgs,
    JiraGetUserProfileArgs, JiraGetWorklogArgs, JiraLinkToEpicArgs, JiraRemoveIssueLinkArgs,
    JiraRemoveWatcherArgs, JiraSearchArgs, JiraTransitionIssueArgs, JiraUpdateIssueArgs,
    JiraUpdateProformaFormAnswersArgs, JiraUpdateSprintArgs,
};
use crate::json::{Json, JsonView};
use crate::mcp;
use crate::mcp::args;
use crate::mcp::calls::ClientCall;
use crate::mcp::laws;
use crate::mcp::payloads;
use crate::mcp::{AtlassianMcpServer, Made, Plan};
use crate::mcp_errors::{ErrorCode, ErrorData, FailureView};
use crate::tool_registry::{Tool, ToolView};
use crate::{jira, outcome, text, tool_registry};

verus! {

/// Whether a server has a Jira service that can be asked.
pub open spec fn can_ask(server: AtlassianMcpServer) -> bool {
    server.context.config.jira matches Some(config) && url::parsed_url(config.base_url@) is Ok
}

/// The kind of the Jira service that is configured for a server.
pub open spec fn deployment_of(server: AtlassianMcpServer) -> JiraDeployment {
    server.context.config.jira->0.deployment
}

/// Whether a client speaks to the service that is configured for a server, with its
/// credentials and under its settings.
pub open spec fn speaks_for(client: JiraClient, server: AtlassianMcpServer) -> bool {
    &&& server.context.config.jira matches Some(config)
    &&& client.config@ == config@
    &&& client@.http.base_url == config.base_url@
    &&& client@.http.auth == config.auth@
    &&& client@.http.timeout_seconds == config.timeout_seconds
    &&& client@.http.ssl_verify == config.ssl_verify
}

/// The texts that an argument lists, where it is there.
pub open spec fn listed(value: Option<JsonView>, field_name: Seq<char>) -> Option<Seq<Seq<char>>> {
    match value {
        Some(value) => Some(formatting::string_list_argument(value, field_name)->Ok_0),
        None => None,
    }
}

/// The client of a server speaks to the service that is configured for it; without one the
/// caller is told that there is none.
pub proof fn law_clients_speak_for_their_server(
    server: AtlassianMcpServer,
    made: Result<JiraClient, ErrorData>,
)
    requires
        call_ensures(AtlassianMcpServer::jira_client, (&server,), made),
    ensures
        (made is Ok) == can_ask(server),
        made matches Ok(client) ==> speaks_for(client, server),
        server.context.config.jira is None ==> (made matches Err(error) && error.message@
            == "Jira is not configured"@ && error.code
            == ErrorCode::InvalidParams),
{
    if let Some(config) = server.context.config.jira {
        jira::laws::law_clients_speak_to_the_configured_service(config);
    }
}

/// The creation of an issue is asked of the configured service exactly where the
/// arguments hold what they must, and with what they say.
pub proof fn law_create_issue(server: AtlassianMcpServer, args: JiraCreateIssueArgs, plan: Plan)
    requires
        call_ensures(AtlassianMcpServer::jira_create_issue, (&server, args), plan),
    ensures
        (plan is Ok) == {
            &&& can_ask(server)
            &&& payloads::new_issue_fields(args@, deployment_of(server)) is Ok
        },
        plan matches Ok((client, call)) ==> {
            &&& speaks_for(client, server)
            &&& call matches ClientCall::CreateIssue { fields }
            &&& fields@ == payloads::new_issue_fields(args@, deployment_of(server))->Ok_0
        },
{
}

/// The creation of many issues is asked of the configured service exactly where the
/// arguments hold what they must, and with what they say.
pub proof fn law_batch_create_issues(
    server: AtlassianMcpServer,
    args: JiraBatchCreateIssuesArgs,
    plan: Plan,
)
    requires
        call_ensures(AtlassianMcpServer::jira_batch_create_issues, (&server, args), plan),
    ensures
        (plan is Ok) == {
            &&& can_ask(server)
            &&& payloads::issue_updates(args.issues@, deployment_of(server)) is Ok
        },
        plan matches Ok((client, call)) ==> {
            &&& speaks_for(client, server)
            &&& call matches ClientCall::BatchCreateIssues { issue_updates, validate_only }
            &&& issue_updates.deep_view() == payloads::issue_updates(
                args.issues@,
                deployment_of(server),
            )->Ok_0
            &&& validate_only == (args.validate_only == Some(true))
        },
{
}

/// The reading of the changelogs of issues is asked of the configured service exactly
/// where the arguments hold what they must, and with what they say.
pub proof fn law_batch_get_changelogs(
    server: AtlassianMcpServer,
    args: JiraBatchGetChangelogsArgs,
    plan: Plan,
)
    requires
        call_ensures(AtlassianMcpServer::jira_batch_get_changelogs, (&server, args), plan),
    ensures
        (plan is Ok) == {
            &&& can_ask(server)
            &&& laws::lists_texts(Some(args.issue_ids_or_keys@), "issue_ids_or_keys"@)
            &&& laws::lists_texts(args.fields.deep_view(), "fields"@)
            &&& args.limit matches Some(number) ==> number > 0
        },
        plan matches Ok((client, call)) ==> {
            &&& speaks_for(client, server)
            &&& call matches ClientCall::BatchGetChangelogs { issue_ids_or_keys, fields, limit }
            &&& Some(issue_ids_or_keys.deep_view()) == listed(
                Some(args.issue_ids_or_keys@),
                "issue_ids_or_keys"@,
            )
            &&& fields.deep_view() == listed(args.fields.deep_view(), "fields"@)
            &&& limit == args.limit
        },
{
}

/// The update of an issue is asked of the configured service exactly where the arguments
/// hold what they must, and with what they say.
pub proof fn law_update_issue(server: AtlassianMcpServer, args: JiraUpdateIssueArgs, plan: Plan)
    requires
        call_ensures(AtlassianMcpServer::jira_update_issue, (&server, args), plan),
    ensures
        (plan is Ok) == {
            &&& can_ask(server)
            &&& payloads::issue_update_of(args, deployment_of(server)) is Ok
        },
        plan matches Ok((client, call)) ==> {
            &&& speaks_for(client, server)
            &&& call matches ClientCall::UpdateIssue {
                issue_key,
                fields,
                additional_fields,
                notify_users,
            }
            &&& issue_key@ == (payloads::issue_update_of(
                args,
                deployment_of(server),
            )->Ok_0).0.issue_key
            &&& fields@ == (payloads::issue_update_of(args, deployment_of(server))->Ok_0).0.fields
            &&& additional_fields.deep_view() == (payloads::issue_update_of(
                args,
                deployment_of(server),
            )->Ok_0).1
            &&& notify_users == (payloads::issue_update_of(
                args,
                deployment_of(server),
            )->Ok_0).0.notify_users
        },
{
}

/// The deletion of an issue is asked of the configured service exactly where the
/// arguments hold what they must, and with what they say.
pub proof fn law_delete_issue(server: AtlassianMcpServer, args: JiraDeleteIssueArgs, plan: Plan)
    requires
        call_ensures(AtlassianMcpServer::jira_delete_issue, (&server, args), plan),
    ensures
        (plan is Ok) == can_ask(server),
        plan matches Ok((client, call)) ==> {
            &&& speaks_for(client, server)
            &&& call matches ClientCall::DeleteIssue { issue_key, delete_subtasks }
            &&& issue_key@ == args.issue_key@
            &&& delete_subtasks == (args.delete_subtasks == Some(true))
        },
{
}

/// The listing of projects is asked of the configured service exactly where the arguments
/// hold what they must, and with what they say.
pub proof fn law_get_all_projects(
    server: AtlassianMcpServer,
    args: JiraGetAllProjectsArgs,
    plan: Plan,
)
    requires
        call_ensures(AtlassianMcpServer::jira_get_all_projects, (&server, args), plan),
    ensures
        (plan is Ok) == can_ask(server),
        plan matches Ok((client, call)) ==> {
            &&& speaks_for(client, server)
            &&& call matches ClientCall::GetAllProjects { include_archived }
            &&& include_archived == (args.include_archived == Some(true))
        },
{
}

/// The listing of the versions of a project is asked of the configured service exactly
/// where the arguments hold what they must, and with what they say.
pub proof fn law_get_project_versions(
    server: AtlassianMcpServer,
    args: JiraGetProjectVersionsArgs,
    plan: Plan,
)
    requires
        call_ensures(AtlassianMcpServer::jira_get_project_versions, (&server, args), plan),
    ensures
        (plan is Ok) == can_ask(server),
        plan matches Ok((client, call)) ==> {
            &&& speaks_for(client, server)
            &&& call matches ClientCall::GetProjectVersions { project_key }
            &&& project_key@ == args.project_key@
        },
{
}

/// The listing of the components of a project is asked of the configured service exactly
/// where the arguments hold what they must, and with what they say.
pub proof fn law_get_project_components(
    server: AtlassianMcpServer,
    args: JiraGetProjectComponentsArgs,
    plan: Plan,
)
    requires
        call_ensures(AtlassianMcpServer::jira_get_project_components, (&server, args), plan),
    ensures
        (plan is Ok) == can_ask(server),
        plan matches Ok((client, call)) ==> {
            &&& speaks_for(client, server)
            &&& call matches ClientCall::GetProjectComponents { project_key }
            &&& project_key@ == args.project_key@
        },
{
}

/// The creation of a version is asked of the configured service exactly where the
/// arguments hold what they must, and with what they say.
pub proof fn law_create_version(
    server: AtlassianMcpServer,
    args: JiraCreateVersionArgs,
    plan: Plan,
)
    requires
        call_ensures(AtlassianMcpServer::jira_create_version, (&server, args), plan),
    ensures
        (plan is Ok) == {
            &&& can_ask(server)
            &&& payloads::version_payload(args) is Ok
        },
        plan matches Ok((client, call)) ==> {
            &&& speaks_for(client, server)
            &&& call matches ClientCall::CreateVersion { payload }
            &&& payload@ == payloads::version_payload(args)->Ok_0
        },
{
}

/// The creation of many versions is asked of the configured service exactly where the
/// arguments hold what they must, and with what they say.
pub proof fn law_batch_create_versions(
    server: AtlassianMcpServer,
    args: JiraBatchCreateVersionsArgs,
    plan: Plan,
)
    requires
        call_ensures(AtlassianMcpServer::jira_batch_create_versions, (&server, args), plan),
    ensures
        (plan is Ok) == {
            &&& can_ask(server)
            &&& laws::is_given(args.project_key@)
            &&& payloads::version_payloads(args.versions@, text::trimmed(args.project_key@)) is Ok
        },
        plan matches Ok((client, call)) ==> {
            &&& speaks_for(client, server)
            &&& call matches ClientCall::BatchCreateVersions { versions }
            &&& versions.deep_view() == payloads::version_payloads(
                args.versions@,
                text::trimmed(args.project_key@),
            )->Ok_0
        },
{
}

/// The reading of a user profile is asked of the configured service exactly where the
/// arguments hold what they must, and with what they say.
pub proof fn law_get_user_profile(
    server: AtlassianMcpServer,
    args: JiraGetUserProfileArgs,
    plan: Plan,
)
    requires
        call_ensures(AtlassianMcpServer::jira_get_user_profile, (&server, args), plan),
    ensures
        (plan is Ok) == {
            &&& can_ask(server)
            &&& laws::is_given(args.user_identifier@)
        },
        plan matches Ok((client, call)) ==> {
            &&& speaks_for(client, server)
            &&& call matches ClientCall::GetUserProfile { user_identifier }
            &&& user_identifier@ == text::trimmed(args.user_identifier@)
        },
{
}

/// The listing of the watchers of an issue is asked of the configured service exactly
/// where the arguments hold what they must, and with what they say.
pub proof fn law_get_issue_watchers(
    server: AtlassianMcpServer,
    args: JiraGetIssueWatchersArgs,
    plan: Plan,
)
    requires
        call_ensures(AtlassianMcpServer::jira_get_issue_watchers, (&server, args), plan),
    ensures
        (plan is Ok) == can_ask(server),
        plan matches Ok((client, call)) ==> {
            &&& speaks_for(client, server)
            &&& call matches ClientCall::GetIssueWatchers { issue_key }
            &&& issue_key@ == args.issue_key@
        },
{
}

/// The addition of a watcher is asked of the configured service exactly where the
/// arguments hold what they must, and with what they say.
pub proof fn law_add_watcher(server: AtlassianMcpServer, args: JiraAddWatcherArgs, plan: Plan)
    requires
        call_ensures(AtlassianMcpServer::jira_add_watcher, (&server, args), plan),
    ensures
        (plan is Ok) == {
            &&& can_ask(server)
            &&& laws::is_given(args.user_identifier@)
        },
        plan matches Ok((client, call)) ==> {
            &&& speaks_for(client, server)
            &&& call matches ClientCall::AddWatcher { issue_key, user_identifier }
            &&& issue_key@ == args.issue_key@
            &&& user_identifier@ == text::trimmed(args.user_identifier@)
        },
{
}

/// The removal of a watcher is asked of the configured service exactly where the
/// arguments hold what they must, and with what they say.
pub proof fn law_remove_watcher(
    server: AtlassianMcpServer,
    args: JiraRemoveWatcherArgs,
    plan: Plan,
)
    requires
        call_ensures(AtlassianMcpServer::jira_remove_watcher, (&server, args), plan),
    ensures
        (plan is Ok) == {
            &&& can_ask(server)
            &&& laws::is_given(args.user_identifier@)
        },
        plan matches Ok((client, call)) ==> {
            &&& speaks_for(client, server)
            &&& call matches ClientCall::RemoveWatcher { issue_key, user_identifier }
            &&& issue_key@ == args.issue_key@
            &&& user_identifier@ == text::trimmed(args.user_identifier@)
        },
{
}

/// The reading of a worklog is asked of the configured service exactly where the
/// arguments hold what they must, and with what they say.
pub proof fn law_get_worklog(server: AtlassianMcpServer, args: JiraGetWorklogArgs, plan: Plan)
    requires
        call_ensures(AtlassianMcpServer::jira_get_worklog, (&server, args), plan),
    ensures
        (plan is Ok) == can_ask(server),
        plan matches Ok((client, call)) ==> {
            &&& speaks_for(client, server)
            &&& call matches ClientCall::GetWorklog { issue_key, start_at, limit }
            &&& issue_key@ == args.issue_key@
            &&& start_at == args.start_at
            &&& limit == args.limit
        },
{
}

/// An addition to a worklog is asked of the configured service exactly where the
/// arguments hold what they must, and with what they say.
pub proof fn law_add_worklog(server: AtlassianMcpServer, args: JiraAddWorklogArgs, plan: Plan)
    requires
        call_ensures(AtlassianMcpServer::jira_add_worklog, (&server, args), plan),
    ensures
        (plan is Ok) == {
            &&& can_ask(server)
            &&& payloads::worklog_payload(args, deployment_of(server)) is Ok
        },
        plan matches Ok((client, call)) ==> {
            &&& speaks_for(client, server)
            &&& call matches ClientCall::AddWorklog { issue_key, payload, query }
            &&& issue_key@ == (payloads::worklog_payload(args, deployment_of(server))->Ok_0).0
            &&& payload@ == (payloads::worklog_payload(args, deployment_of(server))->Ok_0).1
            &&& query.deep_view() == (payloads::worklog_payload(
                args,
                deployment_of(server),
            )->Ok_0).2
        },
{
}

/// The listing of link types is asked of the configured service exactly where the
/// arguments hold what they must, and with what they say.
pub proof fn law_get_link_types(server: AtlassianMcpServer, plan: Plan)
    requires
        call_ensures(AtlassianMcpServer::jira_get_link_types, (&server,), plan),
    ensures
        (plan is Ok) == can_ask(server),
        plan matches Ok((client, call)) ==> {
            &&& speaks_for(client, server)
            &&& call matches ClientCall::GetLinkTypes
        },
{
}

/// The link of an issue to an epic is asked of the configured service exactly where the
/// arguments hold what they must, and with what they say.
pub proof fn law_link_to_epic(server: AtlassianMcpServer, args: JiraLinkToEpicArgs, plan: Plan)
    requires
        call_ensures(AtlassianMcpServer::jira_link_to_epic, (&server, args), plan),
    ensures
        (plan is Ok) == {
            &&& can_ask(server)
            &&& laws::is_given(args.issue_key@)
            &&& laws::is_given(args.epic_key@)
        },
        plan matches Ok((client, call)) ==> {
            &&& speaks_for(client, server)
            &&& call matches ClientCall::LinkToEpic { issue_key, epic_key }
            &&& issue_key@ == text::trimmed(args.issue_key@)
            &&& epic_key@ == text::trimmed(args.epic_key@)
        },
{
}

/// The link of two issues is asked of the configured service exactly where the arguments
/// hold what they must, and with what they say.
pub proof fn law_create_issue_link(
    server: AtlassianMcpServer,
    args: JiraCreateIssueLinkArgs,
    plan: Plan,
)
    requires
        call_ensures(AtlassianMcpServer::jira_create_issue_link, (&server, args), plan),
    ensures
        (plan is Ok) == {
            &&& can_ask(server)
            &&& payloads::issue_link_payload(args, deployment_of(server)) is Ok
        },
        plan matches Ok((client, call)) ==> {
            &&& speaks_for(client, server)
            &&& call matches ClientCall::CreateIssueLink { payload }
            &&& payload@ == payloads::issue_link_payload(args, deployment_of(server))->Ok_0
        },
{
}

/// The link of an issue to a page is asked of the configured service exactly where the
/// arguments hold what they must, and with what they say.
pub proof fn law_create_remote_issue_link(
    server: AtlassianMcpServer,
    args: JiraCreateRemoteIssueLinkArgs,
    plan: Plan,
)
    requires
        call_ensures(AtlassianMcpServer::jira_create_remote_issue_link, (&server, args), plan),
    ensures
        (plan is Ok) == {
            &&& can_ask(server)
            &&& payloads::remote_link_payload(args) is Ok
        },
        plan matches Ok((client, call)) ==> {
            &&& speaks_for(client, server)
            &&& call matches ClientCall::CreateRemoteIssueLink { issue_key, payload }
            &&& issue_key@ == (payloads::remote_link_payload(args)->Ok_0).0
            &&& payload@ == (payloads::remote_link_payload(args)->Ok_0).1
        },
{
}

/// The removal of a link is asked of the configured service exactly where the arguments
/// hold what they must, and with what they say.
pub proof fn law_remove_issue_link(
    server: AtlassianMcpServer,
    args: JiraRemoveIssueLinkArgs,
    plan: Plan,
)
    requires
        call_ensures(AtlassianMcpServer::jira_remove_issue_link, (&server, args), plan),
    ensures
        (plan is Ok) == {
            &&& can_ask(server)
            &&& laws::is_given(args.link_id@)
        },
        plan matches Ok((client, call)) ==> {
            &&& speaks_for(client, server)
            &&& call matches ClientCall::RemoveIssueLink { link_id }
            &&& link_id@ == text::trimmed(args.link_id@)
        },
{
}

/// The reading of the attachments of an issue is asked of the configured service exactly
/// where the arguments hold what they must, and with what they say.
pub proof fn law_download_attachments(
    server: AtlassianMcpServer,
    args: JiraDownloadAttachmentsArgs,
    plan: Plan,
)
    requires
        call_ensures(AtlassianMcpServer::jira_download_attachments, (&server, args), plan),
    ensures
        (plan is Ok) == {
            &&& can_ask(server)
            &&& laws::lists_texts(args.attachment_ids.deep_view(), "attachment_ids"@)
            &&& args.max_bytes matches Some(number) ==> number > 0
            &&& laws::is_given(args.issue_key@)
        },
        plan matches Ok((client, call)) ==> {
            &&& speaks_for(client, server)
            &&& call matches ClientCall::GetSafeIssueAttachments {
                issue_key,
                attachment_ids,
                include_content,
                images_only,
                max_bytes,
            }
            &&& issue_key@ == text::trimmed(args.issue_key@)
            &&& attachment_ids.deep_view() == listed(
                args.attachment_ids.deep_view(),
                "attachment_ids"@,
            )
            &&& include_content == (args.include_content == Some(true))
            &&& !images_only
            &&& max_bytes == args.max_bytes
        },
{
}

/// The reading of the images of an issue is asked of the configured service exactly where
/// the arguments hold what they must, and with what they say.
pub proof fn law_get_issue_images(
    server: AtlassianMcpServer,
    args: JiraGetIssueImagesArgs,
    plan: Plan,
)
    requires
        call_ensures(AtlassianMcpServer::jira_get_issue_images, (&server, args), plan),
    ensures
        (plan is Ok) == {
            &&& can_ask(server)
            &&& args.max_bytes matches Some(number) ==> number > 0
            &&& laws::is_given(args.issue_key@)
        },
        plan matches Ok((client, call)) ==> {
            &&& speaks_for(client, server)
            &&& call matches ClientCall::GetSafeIssueAttachments {
                issue_key,
                attachment_ids,
                include_content,
                images_only,
                max_bytes,
            }
            &&& issue_key@ == text::trimmed(args.issue_key@)
            &&& attachment_ids is None
            &&& include_content == (args.include_content == Some(true))
            &&& images_only
            &&& max_bytes == args.max_bytes
        },
{
}

/// The listing of boards is asked of the configured service exactly where the arguments
/// hold what they must, and with what they say.
pub proof fn law_get_agile_boards(
    server: AtlassianMcpServer,
    args: JiraGetAgileBoardsArgs,
    plan: Plan,
)
    requires
        call_ensures(AtlassianMcpServer::jira_get_agile_boards, (&server, args), plan),
    ensures
        (plan is Ok) == can_ask(server),
        plan matches Ok((client, call)) ==> {
            &&& speaks_for(client, server)
            &&& call matches ClientCall::GetAgileBoards {
                project_key,
                board_type,
                start_at,
                limit,
            }
            &&& project_key.deep_view() == args.project_key.deep_view()
            &&& board_type.deep_view() == args.board_type.deep_view()
            &&& start_at == args.start_at
            &&& limit == args.limit
        },
{
}

/// The listing of the issues of a board is asked of the configured service exactly where
/// the arguments hold what they must, and with what they say.
pub proof fn law_get_board_issues(
    server: AtlassianMcpServer,
    args: JiraGetBoardIssuesArgs,
    plan: Plan,
)
    requires
        call_ensures(AtlassianMcpServer::jira_get_board_issues, (&server, args), plan),
    ensures
        (plan is Ok) == {
            &&& can_ask(server)
            &&& laws::lists_texts(args.fields.deep_view(), "fields"@)
        },
        plan matches Ok((client, call)) ==> {
            &&& speaks_for(client, server)
            &&& call matches ClientCall::GetBoardIssues { board_id, jql, fields, start_at, limit }
            &&& board_id == args.board_id
            &&& jql.deep_view() == args.jql.deep_view()
            &&& fields.deep_view() == listed(args.fields.deep_view(), "fields"@)
            &&& start_at == args.start_at
            &&& limit == args.limit
        },
{
}

/// The listing of the sprints of a board is asked of the configured service exactly where
/// the arguments hold what they must, and with what they say.
pub proof fn law_get_sprints_from_board(
    server: AtlassianMcpServer,
    args: JiraGetSprintsFromBoardArgs,
    plan: Plan,
)
    requires
        call_ensures(AtlassianMcpServer::jira_get_sprints_from_board, (&server, args), plan),
    ensures
        (plan is Ok) == {
            &&& can_ask(server)
            &&& laws::lists_texts(args.state.deep_view(), "state"@)
        },
        plan matches Ok((client, call)) ==> {
            &&& speaks_for(client, server)
            &&& call matches ClientCall::GetSprintsFromBoard { board_id, state, start_at, limit }
            &&& board_id == args.board_id
            &&& state.deep_view() == listed(args.state.deep_view(), "state"@)
            &&& start_at == args.start_at
            &&& limit == args.limit
        },
{
}

/// The listing of the issues of a sprint is asked of the configured service exactly where
/// the arguments hold what they must, and with what they say.
pub proof fn law_get_sprint_issues(
    server: AtlassianMcpServer,
    args: JiraGetSprintIssuesArgs,
    plan: Plan,
)
    requires
        call_ensures(AtlassianMcpServer::jira_get_sprint_issues, (&server, args), plan),
    ensures
        (plan is Ok) == {
            &&& can_ask(server)
            &&& laws::lists_texts(args.fields.deep_view(), "fields"@)
        },
        plan matches Ok((client, call)) ==> {
            &&& speaks_for(client, server)
            &&& call matches ClientCall::GetSprintIssues { sprint_id, fields, start_at, limit }
            &&& sprint_id == args.sprint_id
            &&& fields.deep_view() == listed(args.fields.deep_view(), "fields"@)
            &&& start_at == args.start_at
            &&& limit == args.limit
        },
{
}

/// The creation of a sprint is asked of the configured service exactly where the
/// arguments hold what they must, and with what they say.
pub proof fn law_create_sprint(server: AtlassianMcpServer, args: JiraCreateSprintArgs, plan: Plan)
    requires
        call_ensures(AtlassianMcpServer::jira_create_sprint, (&server, args), plan),
    ensures
        (plan is Ok) == {
            &&& can_ask(server)
            &&& payloads::new_sprint_payload(args) is Ok
        },
        plan matches Ok((client, call)) ==> {
            &&& speaks_for(client, server)
            &&& call matches ClientCall::CreateSprint { payload }
            &&& payload@ == payloads::new_sprint_payload(args)->Ok_0
        },
{
}

/// The update of a sprint is asked of the configured service exactly where the arguments
/// hold what they must, and with what they say.
pub proof fn law_update_sprint(server: AtlassianMcpServer, args: JiraUpdateSprintArgs, plan: Plan)
    requires
        call_ensures(AtlassianMcpServer::jira_update_sprint, (&server, args), plan),
    ensures
        (plan is Ok) == {
            &&& can_ask(server)
            &&& payloads::sprint_update(args) is Ok
        },
        plan matches Ok((client, call)) ==> {
            &&& speaks_for(client, server)
            &&& call matches ClientCall::UpdateSprint { sprint_id, payload }
            &&& sprint_id == (payloads::sprint_update(args)->Ok_0).0
            &&& payload@ == (payloads::sprint_update(args)->Ok_0).1
        },
{
}

/// The addition of issues to a sprint is asked of the configured service exactly where
/// the arguments hold what they must, and with what they say.
pub proof fn law_add_issues_to_sprint(
    server: AtlassianMcpServer,
    args: JiraAddIssuesToSprintArgs,
    plan: Plan,
)
    requires
        call_ensures(AtlassianMcpServer::jira_add_issues_to_sprint, (&server, args), plan),
    ensures
        (plan is Ok) == {
            &&& can_ask(server)
            &&& laws::lists_texts(Some(args.issue_keys@), "issue_keys"@)
        },
        plan matches Ok((client, call)) ==> {
            &&& speaks_for(client, server)
            &&& call matches ClientCall::AddIssuesToSprint { sprint_id, issue_keys }
            &&& sprint_id == args.sprint_id
            &&& Some(issue_keys.deep_view()) == listed(Some(args.issue_keys@), "issue_keys"@)
        },
{
}

/// The search for the service desk of a project is asked of the configured service
/// exactly where the arguments hold what they must, and with what they say.
pub proof fn law_get_service_desk_for_project(
    server: AtlassianMcpServer,
    args: JiraGetServiceDeskForProjectArgs,
    plan: Plan,
)
    requires
        call_ensures(AtlassianMcpServer::jira_get_service_desk_for_project, (&server, args), plan),
    ensures
        (plan is Ok) == {
            &&& can_ask(server)
            &&& laws::is_given(args.project_key@)
        },
        plan matches Ok((client, call)) ==> {
            &&& speaks_for(client, server)
            &&& call matches ClientCall::GetServiceDeskForProject { project_key }
            &&& project_key@ == text::trimmed(args.project_key@)
        },
{
}

/// The listing of the queues of a service desk is asked of the configured service exactly
/// where the arguments hold what they must, and with what they say.
pub proof fn law_get_service_desk_queues(
    server: AtlassianMcpServer,
    args: JiraGetServiceDeskQueuesArgs,
    plan: Plan,
)
    requires
        call_ensures(AtlassianMcpServer::jira_get_service_desk_queues, (&server, args), plan),
    ensures
        (plan is Ok) == can_ask(server),
        plan matches Ok((client, call)) ==> {
            &&& speaks_for(client, server)
            &&& call matches ClientCall::GetServiceDeskQueues { service_desk_id, start_at, limit }
            &&& service_desk_id@ == args.service_desk_id@
            &&& start_at == args.start_at
            &&& limit == args.limit
        },
{
}

/// The listing of the issues of a queue is asked of the configured service exactly where
/// the arguments hold what they must, and with what they say.
pub proof fn law_get_queue_issues(
    server: AtlassianMcpServer,
    args: JiraGetQueueIssuesArgs,
    plan: Plan,
)
    requires
        call_ensures(AtlassianMcpServer::jira_get_queue_issues, (&server, args), plan),
    ensures
        (plan is Ok) == can_ask(server),
        plan matches Ok((client, call)) ==> {
            &&& speaks_for(client, server)
            &&& call matches ClientCall::GetQueueIssues {
                service_desk_id,
                queue_id,
                start_at,
                limit,
            }
            &&& service_desk_id@ == args.service_desk_id@
            &&& queue_id@ == args.queue_id@
            &&& start_at == args.start_at
            &&& limit == args.limit
        },
{
}

/// The listing of the forms of an issue is asked of the configured service exactly where
/// the arguments hold what they must, and with what they say.
pub proof fn law_get_issue_proforma_forms(
    server: AtlassianMcpServer,
    args: JiraGetIssueProformaFormsArgs,
    plan: Plan,
)
    requires
        call_ensures(AtlassianMcpServer::jira_get_issue_proforma_forms, (&server, args), plan),
    ensures
        (plan is Ok) == {
            &&& can_ask(server)
            &&& laws::is_given(args.issue_key@)
        },
        plan matches Ok((client, call)) ==> {
            &&& speaks_for(client, server)
            &&& call matches ClientCall::GetIssueProformaForms { issue_key, cloud_id }
            &&& issue_key@ == text::trimmed(args.issue_key@)
            &&& cloud_id.deep_view() == server.context.config.atlassian_oauth_cloud_id.deep_view()
        },
{
}

/// The reading of a form is asked of the configured service exactly where the arguments
/// hold what they must, and with what they say.
pub proof fn law_get_proforma_form_details(
    server: AtlassianMcpServer,
    args: JiraGetProformaFormDetailsArgs,
    plan: Plan,
)
    requires
        call_ensures(AtlassianMcpServer::jira_get_proforma_form_details, (&server, args), plan),
    ensures
        (plan is Ok) == {
            &&& can_ask(server)
            &&& laws::is_given(args.issue_key@)
            &&& laws::is_given(args.form_id@)
        },
        plan matches Ok((client, call)) ==> {
            &&& speaks_for(client, server)
            &&& call matches ClientCall::GetProformaFormDetails { issue_key, form_id, cloud_id }
            &&& issue_key@ == text::trimmed(args.issue_key@)
            &&& form_id@ == text::trimmed(args.form_id@)
            &&& cloud_id.deep_view() == server.context.config.atlassian_oauth_cloud_id.deep_view()
        },
{
}

/// The answers to a form is asked of the configured service exactly where the arguments
/// hold what they must, and with what they say.
pub proof fn law_update_proforma_form_answers(
    server: AtlassianMcpServer,
    args: JiraUpdateProformaFormAnswersArgs,
    plan: Plan,
)
    requires
        call_ensures(AtlassianMcpServer::jira_update_proforma_form_answers, (&server, args), plan),
    ensures
        (plan is Ok) == {
            &&& can_ask(server)
            &&& formatting::object_list_argument(args.answers@, "answers"@) is Ok
            &&& laws::is_given(args.issue_key@)
            &&& laws::is_given(args.form_id@)
        },
        plan matches Ok((client, call)) ==> {
            &&& speaks_for(client, server)
            &&& call matches ClientCall::UpdateProformaFormAnswers {
                issue_key,
                form_id,
                answers,
                cloud_id,
            }
            &&& issue_key@ == text::trimmed(args.issue_key@)
            &&& form_id@ == text::trimmed(args.form_id@)
            &&& answers.deep_view() == formatting::object_list_argument(
                args.answers@,
                "answers"@,
            )->Ok_0
            &&& cloud_id.deep_view() == server.context.config.atlassian_oauth_cloud_id.deep_view()
        },
{
}

/// The reading of the dates of an issue is asked of the configured service exactly where
/// the arguments hold what they must, and with what they say.
pub proof fn law_get_issue_dates(
    server: AtlassianMcpServer,
    args: JiraGetIssueDatesArgs,
    plan: Plan,
)
    requires
        call_ensures(AtlassianMcpServer::jira_get_issue_dates, (&server, args), plan),
    ensures
        (plan is Ok) == {
            &&& can_ask(server)
            &&& laws::is_given(args.issue_key@)
        },
        plan matches Ok((client, call)) ==> {
            &&& speaks_for(client, server)
            &&& call matches ClientCall::GetIssueDates {
                issue_key,
                include_status_changes,
                include_status_summary,
            }
            &&& issue_key@ == text::trimmed(args.issue_key@)
            &&& include_status_changes == (args.include_status_changes == Some(true))
            &&& include_status_summary == (args.include_status_summary == Some(true))
        },
{
}

/// The reading of the service levels of an issue is asked of the configured service
/// exactly where the arguments hold what they must, and with what they say.
pub proof fn law_get_issue_sla(server: AtlassianMcpServer, args: JiraGetIssueSlaArgs, plan: Plan)
    requires
        call_ensures(AtlassianMcpServer::jira_get_issue_sla, (&server, args), plan),
    ensures
        (plan is Ok) == {
            &&& can_ask(server)
            &&& laws::lists_texts(args.metrics.deep_view(), "metrics"@)
            &&& laws::is_given(args.issue_key@)
        },
        plan matches Ok((client, call)) ==> {
            &&& speaks_for(client, server)
            &&& call matches ClientCall::GetIssueSla {
                issue_key,
                metrics,
                working_hours_only,
                include_raw_dates,
            }
            &&& issue_key@ == text::trimmed(args.issue_key@)
            &&& metrics.deep_view() == listed(args.metrics.deep_view(), "metrics"@)
            &&& working_hours_only == args.working_hours_only
            &&& include_raw_dates == (args.include_raw_dates == Some(true))
        },
{
}

/// The reading of the development information of an issue is asked of the configured
/// service exactly where the arguments hold what they must, and with what they say.
pub proof fn law_get_issue_development_info(
    server: AtlassianMcpServer,
    args: JiraGetIssueDevelopmentInfoArgs,
    plan: Plan,
)
    requires
        call_ensures(AtlassianMcpServer::jira_get_issue_development_info, (&server, args), plan),
    ensures
        (plan is Ok) == {
            &&& can_ask(server)
            &&& laws::is_given(args.issue_key@)
        },
        plan matches Ok((client, call)) ==> {
            &&& speaks_for(client, server)
            &&& call matches ClientCall::GetIssueDevelopmentInfo {
                issue_key,
                application_type,
                data_type,
            }
            &&& issue_key@ == text::trimmed(args.issue_key@)
            &&& application_type.deep_view() == args.application_type.deep_view()
            &&& data_type.deep_view() == args.data_type.deep_view()
        },
{
}

/// The reading of the development information of issues is asked of the configured
/// service exactly where the arguments hold what they must, and with what they say.
pub proof fn law_get_issues_development_info(
    server: AtlassianMcpServer,
    args: JiraGetIssuesDevelopmentInfoArgs,
    plan: Plan,
)
    requires
        call_ensures(AtlassianMcpServer::jira_get_issues_development_info, (&server, args), plan),
    ensures
        (plan is Ok) == {
            &&& can_ask(server)
            &&& laws::lists_texts(Some(args.issue_keys@), "issue_keys"@)
        },
        plan matches Ok((client, call)) ==> {
            &&& speaks_for(client, server)
            &&& call matches ClientCall::GetIssuesDevelopmentInfo {
                issue_keys,
                application_type,
                data_type,
            }
            &&& Some(issue_keys.deep_view()) == listed(Some(args.issue_keys@), "issue_keys"@)
            &&& application_type.deep_view() == args.application_type.deep_view()
            &&& data_type.deep_view() == args.data_type.deep_view()
        },
{
}

/// Whether a client is the one that a server asks through.
pub open spec fn is_client_of(client: JiraClient, server: AtlassianMcpServer) -> bool {
    mcp::client_for(server@) == Ok::<jira::client::ClientView, FailureView>(client@)
}

/// The tool that reads an issue asks the client for the issue that is named, with the lists
/// that the arguments hold, each as itself; it refuses arguments that are no lists.
pub proof fn law_get_issue(
    server: AtlassianMcpServer,
    args: JiraGetIssueArgs,
    made: Made,
    client: JiraClient,
    request: GetIssueRequest,
)
    requires
        call_ensures(AtlassianMcpServer::jira_get_issue, (&server, args), made),
        is_client_of(client, server),
        request.issue_key@ == args.issue_key@,
        request.fields.deep_view() == listed(args.fields.deep_view(), "fields"@),
        request.expand.deep_view() == listed(args.expand.deep_view(), "expand"@),
        request.properties.deep_view() == listed(args.properties.deep_view(), "properties"@),
        request.comment_limit == args.comment_limit,
        request.update_history == args.update_history,
    ensures
        laws::lists_texts(args.fields.deep_view(), "fields"@) && laws::lists_texts(
            args.expand.deep_view(),
            "expand"@,
        ) && laws::lists_texts(args.properties.deep_view(), "properties"@) ==> outcome::of(made)
            == args::answered(client@.get_issue_request(request@)),
        made is Ok ==> laws::lists_texts(args.fields.deep_view(), "fields"@) && laws::lists_texts(
            args.expand.deep_view(),
            "expand"@,
        ) && laws::lists_texts(args.properties.deep_view(), "properties"@),
{
}

/// The tool that searches issues asks the client for the query, the page and the limit that
/// are given, with the lists that the arguments hold, each as itself; it refuses arguments
/// that are no lists.
pub proof fn law_search(
    server: AtlassianMcpServer,
    args: JiraSearchArgs,
    made: Made,
    client: JiraClient,
    request: SearchRequest,
)
    requires
        call_ensures(AtlassianMcpServer::jira_search, (&server, args), made),
        is_client_of(client, server),
        request.jql@ == args.jql@,
        request.fields.deep_view() == listed(args.fields.deep_view(), "fields"@),
        request.expand.deep_view() == listed(args.expand.deep_view(), "expand"@),
        request.projects_filter.deep_view() == listed(
            args.projects_filter.deep_view(),
            "projects_filter"@,
        ),
        request.limit == args.limit,
        request.start_at == args.start_at,
        request.page_token.deep_view() == args.page_token.deep_view(),
    ensures
        laws::lists_texts(args.fields.deep_view(), "fields"@) && laws::lists_texts(
            args.expand.deep_view(),
            "expand"@,
        ) && laws::lists_texts(args.projects_filter.deep_view(), "projects_filter"@)
            ==> outcome::of(made) == args::answered(client@.search_request(request@)),
        made is Ok ==> laws::lists_texts(args.fields.deep_view(), "fields"@) && laws::lists_texts(
            args.expand.deep_view(),
            "expand"@,
        ) && laws::lists_texts(args.projects_filter.deep_view(), "projects_filter"@),
{
}

/// The tool that lists the issues of a project asks the client for the project, the page and
/// the limit that are given.
pub proof fn law_get_project_issues(
    server: AtlassianMcpServer,
    args: JiraGetProjectIssuesArgs,
    made: Made,
    client: JiraClient,
)
    requires
        call_ensures(AtlassianMcpServer::jira_get_project_issues, (&server, args), made),
        is_client_of(client, server),
    ensures
        outcome::of(made) == args::answered(
            client@.project_issues_request(args.project_key@, args.limit, args.start_at),
        ),
{
}

/// The tool that searches fields reads the listing of all fields.
pub proof fn law_search_fields(server: AtlassianMcpServer, made: Made, client: JiraClient)
    requires
        call_ensures(AtlassianMcpServer::jira_search_fields, (&server,), made),
        is_client_of(client, server),
    ensures
        made matches Ok(request) ==> jira::laws::is_sent_to(
            request@,
            client,
            Method::Get,
            "/rest/api/2/field"@,
        ) && request@.body is None && request@.query.len() == 0,
        (made is Ok) == jira::laws::can_be_sent_to(client, "/rest/api/2/field"@),
{
}

/// The tool that lists the options of a field asks the client for those that the arguments
/// name, and reads the reply by the same arguments.
pub proof fn law_get_field_options(
    server: AtlassianMcpServer,
    args: JiraGetFieldOptionsArgs,
    made: Made,
    client: JiraClient,
    request: FieldOptionsRequest,
)
    requires
        call_ensures(AtlassianMcpServer::jira_get_field_options, (&server, &args), made),
        call_ensures(mcp::field_options_request, (&args,), request),
        is_client_of(client, server),
    ensures
        request.field_id@ == args.field_id@,
        request.context_id.deep_view() == args.context_id.deep_view(),
        request.project_key.deep_view() == args.project_key.deep_view(),
        request.issue_type.deep_view() == args.issue_type.deep_view(),
        request.contains.deep_view() == args.contains.deep_view(),
        request.return_limit == args.return_limit,
        request.values_only == (args.values_only == Some(true)),
        outcome::of(made) == args::answered(client@.field_options_request(request@)),
{
}

/// The tools that add and edit a comment ask the client for the issue, the comment and the
/// text that are given, with the object that says who sees it.
pub proof fn law_add_and_edit_comment(
    server: AtlassianMcpServer,
    add: JiraAddCommentArgs,
    added: Made,
    edit: JiraEditCommentArgs,
    edited: Made,
    client: JiraClient,
)
    requires
        call_ensures(AtlassianMcpServer::jira_add_comment, (&server, add), added),
        call_ensures(AtlassianMcpServer::jira_edit_comment, (&server, edit), edited),
        is_client_of(client, server),
    ensures
        jira::laws::is_object_or_absent(add.visibility.deep_view()) ==> outcome::of(added)
            == args::answered(
            client@.add_comment_request(
                add.issue_key@,
                add.body@,
                jira::laws::optional_object(add.visibility.deep_view()),
            ),
        ),
        added is Ok ==> jira::laws::is_object_or_absent(add.visibility.deep_view()),
        jira::laws::is_object_or_absent(edit.visibility.deep_view()) ==> outcome::of(edited)
            == args::answered(
            client@.edit_comment_request(
                edit.issue_key@,
                edit.comment_id@,
                edit.body@,
                jira::laws::optional_object(edit.visibility.deep_view()),
            ),
        ),
        edited is Ok ==> jira::laws::is_object_or_absent(edit.visibility.deep_view()),
{
}

/// The tools that list transitions and take an issue through one ask the client for the
/// issue, the transition, the fields and the comment that are given.
pub proof fn law_transitions(
    server: AtlassianMcpServer,
    list: JiraGetTransitionsArgs,
    asked: Made,
    take: JiraTransitionIssueArgs,
    taken: Made,
    client: JiraClient,
)
    requires
        call_ensures(AtlassianMcpServer::jira_get_transitions, (&server, list), asked),
        call_ensures(AtlassianMcpServer::jira_transition_issue, (&server, take), taken),
        is_client_of(client, server),
    ensures
        outcome::of(asked) == args::answered(client@.transitions_request(list.issue_key@)),
        jira::laws::is_object_or_absent(take.fields.deep_view()) ==> outcome::of(taken)
            == args::answered(
            client@.transition_request(
                take.issue_key@,
                take.transition_id@,
                jira::laws::optional_object(take.fields.deep_view()),
                take.comment.deep_view(),
            ),
        ),
        taken is Ok ==> jira::laws::is_object_or_absent(take.fields.deep_view()),
{
}

/// Without a Jira service that can be asked no tool of Jira makes a request.
pub proof fn law_requests_need_a_service(
    server: AtlassianMcpServer,
    read: JiraGetIssueArgs,
    search: JiraSearchArgs,
    list: JiraGetProjectIssuesArgs,
    add: JiraAddCommentArgs,
    edit: JiraEditCommentArgs,
    take: JiraTransitionIssueArgs,
    made: Made,
)
    requires
        !can_ask(server),
        call_ensures(AtlassianMcpServer::jira_get_issue, (&server, read), made) || call_ensures(
            AtlassianMcpServer::jira_search,
            (&server, search),
            made,
        ) || call_ensures(AtlassianMcpServer::jira_get_project_issues, (&server, list), made)
            || call_ensures(AtlassianMcpServer::jira_search_fields, (&server,), made)
            || call_ensures(AtlassianMcpServer::jira_add_comment, (&server, add), made)
            || call_ensures(AtlassianMcpServer::jira_edit_comment, (&server, edit), made)
            || call_ensures(AtlassianMcpServer::jira_transition_issue, (&server, take), made),
    ensures
        made is Err,
{
}

/// A call is let through exactly where its tool is registered and on; the tool is shown then
/// too, under its name and with its description, and to nobody else.
pub proof fn law_calls_are_let_through_where_tools_are_shown(
    server: AtlassianMcpServer,
    name: &str,
    allowed: Result<(), ErrorData>,
    tool: Option<Tool>,
    i: int,
)
    requires
        call_ensures(AtlassianMcpServer::guard_registered_tool_call, (&server, name), allowed),
        call_ensures(AtlassianMcpServer::get_tool, (&server, name), tool),
    ensures
        (allowed is Ok) == (tool is Some),
        0 <= i < tool_registry::registered().len() && tool_registry::registered()[i].name == name@
            ==> {
            &&& (allowed is Ok) == tool_registry::discoverable(
                tool_registry::registered()[i],
                server.context@,
            )
            &&& tool matches Some(tool) ==> tool.name@ == name@ && tool.description@
                == tool_registry::registered()[i].description
        },
        (forall|k: int|
            0 <= k < tool_registry::registered().len() ==> (
            #[trigger] tool_registry::registered()[k]).name != name@) ==> (allowed matches Err(
            error,
        ) && error.code == ErrorCode::InvalidParams && error.message@
            == tool_registry::TOOL_UNAVAILABLE_MESSAGE@),
{
    if 0 <= i < tool_registry::registered().len() {
        tool_registry::lookup::law_registered_tools_are_found(i);
    }
    if forall|k: int|
        0 <= k < tool_registry::registered().len() ==> (
        #[trigger] tool_registry::registered()[k]).name != name@ {
        tool_registry::law_unregistered_tools_fail_closed(name@, server.context@);
    }
}

/// What is listed are the registered tools that are on, each once and in the order of their
/// names.
pub proof fn law_listing_shows_the_tools_that_are_on(
    server: AtlassianMcpServer,
    listing: Vec<Tool>,
    i: int,
)
    requires
        call_ensures(AtlassianMcpServer::current_tools_result, (&server,), listing),
        0 <= i < tool_registry::registered().len(),
    ensures
        ({
            let entry = tool_registry::registered()[i];
            let tool = ToolView { name: entry.name, description: entry.description };
            listing.deep_view().contains(tool) == tool_registry::discoverable(
                entry,
                server.context@,
            )
        }),
        forall|k: int, l: int|
            0 <= k < l < listing@.len() ==> !text::text_before(
                (#[trigger] listing.deep_view()[l]).name,
                (#[trigger] listing.deep_view()[k]).name,
            ),
{
    let entry = tool_registry::registered()[i];
    let tool = ToolView { name: entry.name, description: entry.description };
    tool_registry::lookup::law_registered_tools_are_found(i);
    assert(mcp::routes()[i] == tool);
    tool_registry::law_listed_tools_are_shown(
        listing.deep_view(),
        mcp::routes(),
        server.context@,
        tool,
    );
}

/// A listing of link types is narrowed as its law says.
pub proof fn law_link_types_are_filtered(
    listing: Json,
    name_filter: Option<String>,
    narrowed: Json,
)
    requires
        call_ensures(mcp::filter_link_types, (listing, name_filter), narrowed),
    ensures
        narrowed@ == mcp::narrowed_link_types(listing@, name_filter.deep_view()),
{
}

/// The caller is at fault for input that was refused, and for nothing else of Jira's errors;
/// behind another service the caller is at fault for its base URL too. The answer names the
/// kind of the error and ends with what may be told of it.
pub proof fn law_errors_are_answered_by_their_kind(
    error: AtlassianError,
    answer: ErrorData,
    redacted: &str,
    message: String,
)
    requires
        call_ensures(crate::mcp_errors::jira_error, (error,), answer),
        call_ensures(crate::mcp_errors::upstream_error_message, (&error, redacted), message),
    ensures
        (answer.code == ErrorCode::InvalidParams) == (error is InvalidInput),
        answer.message@ == error@.shown(),
        (crate::mcp_errors::upstream_failure(error@, redacted@).code == ErrorCode::InvalidParams)
            == (error is InvalidInput || error is InvalidBaseUrl),
        crate::mcp_errors::upstream_failure(error@, redacted@).message == message@,
        message@ == "Upstream error category="@ + (match error {
            AtlassianError::InvalidInput { .. } => "invalid_input"@,
            AtlassianError::InvalidBaseUrl { .. } => "invalid_base_url"@,
            AtlassianError::HttpStatus { status, .. } => "http_status status="@ + text::decimal(
                status as nat,
            ),
            AtlassianError::Transport { .. } => "transport"@,
            AtlassianError::JsonDecode { .. } => "json_decode"@,
            AtlassianError::UnexpectedShape { .. } => "unexpected_shape"@,
        }) + ": "@ + redacted@,
{
    reveal_strlit("Upstream error category=");
    reveal_strlit("Upstream error category=invalid_input: ");
    reveal_strlit("Upstream error category=invalid_base_url: ");
    reveal_strlit("Upstream error category=http_status status=");
    reveal_strlit("Upstream error category=transport: ");
    reveal_strlit("Upstream error category=json_decode: ");
    reveal_strlit("Upstream error category=unexpected_shape: ");
    reveal_strlit("invalid_input");
    reveal_strlit("invalid_base_url");
    reveal_strlit("http_status status=");
    reveal_strlit("transport");
    reveal_strlit("json_decode");
    reveal_strlit("unexpected_shape");
    reveal_strlit(": ");
    assert("Upstream error category=invalid_input: "@ =~= "Upstream error category="@
        + "invalid_input"@ + ": "@);
    assert("Upstream error category=invalid_base_url: "@ =~= "Upstream error category="@
        + "invalid_base_url"@ + ": "@);
    assert("Upstream error category=http_status status="@ =~= "Upstream error category="@
        + "http_status status="@);
    assert("Upstream error category=transport: "@ =~= "Upstream error category="@ + "transport"@
        + ": "@);
    assert("Upstream error category=json_decode: "@ =~= "Upstream error category="@
        + "json_decode"@ + ": "@);
    assert("Upstream error category=unexpected_shape: "@ =~= "Upstream error category="@
        + "unexpected_shape"@ + ": "@);
    if let AtlassianError::HttpStatus { status, .. } = error {
        assert(message@ =~= "Upstream error category="@ + ("http_status status="@ + text::decimal(
            status as nat,
        )) + ": "@ + redacted@);
    }
}

/// An error is shown with its own message at the end, and a refusal of the service with its
/// status before it.
pub proof fn law_errors_show_their_message(error: AtlassianError, shown: String)
    requires
        call_ensures(AtlassianError::shown, (&error,), shown),
    ensures
        ({
            let message = match error {
                AtlassianError::InvalidBaseUrl { message } => message@,
                AtlassianError::InvalidInput { message } => message@,
                AtlassianError::HttpStatus { message, .. } => message@,
                AtlassianError::Transport { message } => message@,
                AtlassianError::JsonDecode { message } => message@,
                AtlassianError::UnexpectedShape { message } => message@,
            };
            let head = match error {
                AtlassianError::InvalidBaseUrl { .. } => "invalid base URL"@,
                AtlassianError::InvalidInput { .. } => "invalid input"@,
                AtlassianError::HttpStatus { status, .. } => "HTTP "@ + text::decimal(
                    status as nat,
                ),
                AtlassianError::Transport { .. } => "transport error"@,
                AtlassianError::JsonDecode { .. } => "JSON decode error"@,
                AtlassianError::UnexpectedShape { .. } => "unexpected response shape"@,
            };
            shown@ == head + ": "@ + message
        }),
{
    reveal_strlit(": ");
    reveal_strlit("invalid base URL");
    reveal_strlit("invalid base URL: ");
    reveal_strlit("invalid input");
    reveal_strlit("invalid input: ");
    reveal_strlit("transport error");
    reveal_strlit("transport error: ");
    reveal_strlit("JSON decode error");
    reveal_strlit("JSON decode error: ");
    reveal_strlit("unexpected response shape");
    reveal_strlit("unexpected response shape: ");
    assert("invalid base URL: "@ =~= "invalid base URL"@ + ": "@);
    assert("invalid input: "@ =~= "invalid input"@ + ": "@);
    assert("transport error: "@ =~= "transport error"@ + ": "@);
    assert("JSON decode error: "@ =~= "JSON decode error"@ + ": "@);
    assert("unexpected response shape: "@ =~= "unexpected response shape"@ + ": "@);
}

/// A token goes out as a bearer token as it is; a user name and an API token do not go out
/// in that way.
pub proof fn law_tokens_go_out_as_bearer_tokens(auth: AtlassianAuth, header: Option<String>)
    requires
        call_ensures(AtlassianAuth::bearer_header, (&auth,), header),
    ensures
        match auth {
            AtlassianAuth::Pat { personal_token } => header matches Some(header) && header@
                == "Bearer "@ + personal_token@,
            AtlassianAuth::Basic { .. } => header is None,
        },
{
}

} // verus!
