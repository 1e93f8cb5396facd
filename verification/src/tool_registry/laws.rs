//! What holds of the registered tools and of the rules by which they are shown.

use vstd::prelude::*;

use crate::context::AppContext;
use crate::mcp_errors::{ErrorCode, FailureView};
use crate::text;
use crate::tool_registry;
use crate::tool_registry::jira;
use crate::tool_registry::{
    MetadataView, ToolAccess, ToolMetadata, ToolService, MIGRATION_STATUS_TOOL_NAME,
    READ_ONLY_MESSAGE, TOOL_UNAVAILABLE_MESSAGE,
};

verus! {

/// Whether the settings leave a tool on and have its service: it is not disabled; it is
/// enabled, where tools are named; its toolset is enabled, where it has one; and the service
/// that it speaks to is configured.
pub open spec fn is_on(tool: ToolMetadata, context: AppContext) -> bool {
    &&& !context.config.disabled_tools@.contains(tool.name@)
    &&& context.config.enabled_tools matches Some(tools) ==> tools@.len() == 0 || tools@.contains(
        tool.name@,
    )
    &&& tool.toolset matches Some(toolset) ==> context.config.enabled_toolsets@.contains(toolset@)
    &&& tool.service == ToolService::Jira ==> context.config.jira is Some
    &&& tool.service == ToolService::Confluence ==> context.config.confluence_url is Some
}

/// A tool is shown, and a call of it let through, exactly where the settings leave it on and
/// it may do what it does: in read-only mode only reading. A call of a tool that is off, and
/// of none, is answered in one way, and a write in read-only mode in another.
pub proof fn law_tools_are_shown_where_they_are_on(tool: ToolMetadata, context: AppContext)
    ensures
        tool_registry::discoverable(tool.deep_view(), context@) == (is_on(tool, context) && !(
        context.config.read_only && tool.access == ToolAccess::Write)),
        tool_registry::call_allowed(Some(tool.deep_view()), context@) == (if !is_on(tool, context) {
            Err::<(), FailureView>(
                FailureView {
                    code: ErrorCode::InvalidParams,
                    message: TOOL_UNAVAILABLE_MESSAGE@,
                },
            )
        } else if context.config.read_only && tool.access == ToolAccess::Write {
            Err(FailureView { code: ErrorCode::InvalidParams, message: READ_ONLY_MESSAGE@ })
        } else {
            Ok(())
        }),
        tool_registry::call_allowed(None, context@) == Err::<(), FailureView>(
            FailureView { code: ErrorCode::InvalidParams, message: TOOL_UNAVAILABLE_MESSAGE@ },
        ),
{
}

/// Whether a text begins with another.
pub open spec fn begins_with(s: Seq<char>, start: Seq<char>) -> bool {
    start.len() <= s.len() && s.take(start.len() as int) == start
}

/// Whether a name is that of a tool that gets, searches or downloads something.
pub open spec fn is_named_for_reading(name: Seq<char>) -> bool {
    begins_with(name, "jira_get_"@) || begins_with(name, "jira_search"@) || begins_with(
        name,
        "jira_batch_get_"@,
    ) || begins_with(name, "jira_download_"@)
}

/// Whether these are tools of Jira that only read exactly where they are named for it.
spec fn are_named_for_access(entries: Seq<MetadataView>) -> bool {
    forall|k: int|
        0 <= k < entries.len() ==> {
            &&& ((#[trigger] entries[k]).access == ToolAccess::Read) == is_named_for_reading(
                entries[k].name,
            )
            &&& entries[k].service == ToolService::Jira
        }
}

proof fn lemma_both_named(left: Seq<MetadataView>, right: Seq<MetadataView>)
    requires
        are_named_for_access(left),
        are_named_for_access(right),
    ensures
        are_named_for_access(left + right),
{
    let all = left + right;
    assert forall|k: int| 0 <= k < all.len() implies {
        &&& ((#[trigger] all[k]).access == ToolAccess::Read) == is_named_for_reading(all[k].name)
        &&& all[k].service == ToolService::Jira
    } by {
        if k < left.len() {
            assert(all[k] == left[k]);
        } else {
            assert(all[k] == right[k - left.len()]);
        }
    }
}

/// A text that differs from another in a character of its start does not begin with it.
proof fn lemma_begins_otherwise(s: Seq<char>, start: Seq<char>, i: int)
    requires
        0 <= i < start.len(),
        i < s.len() ==> s[i] != start[i],
    ensures
        !begins_with(s, start),
{
    if begins_with(s, start) {
        assert(s.take(start.len() as int)[i] == s[i]);
    }
}

proof fn lemma_issues_access()
    ensures
        are_named_for_access(jira::issues_entries()),
{
    reveal_strlit("jira_get_");
    reveal_strlit("jira_search");
    reveal_strlit("jira_batch_get_");
    reveal_strlit("jira_download_");
    reveal_strlit("jira_get_issue");
    reveal_strlit("jira_search");
    reveal_strlit("jira_get_project_issues");
    reveal_strlit("jira_create_issue");
    reveal_strlit("jira_batch_create_issues");
    reveal_strlit("jira_batch_get_changelogs");
    reveal_strlit("jira_update_issue");
    reveal_strlit("jira_delete_issue");
    assert("jira_get_issue"@.take(9) =~= "jira_get_"@);
    assert("jira_search"@.take(11) =~= "jira_search"@);
    assert("jira_get_project_issues"@.take(9) =~= "jira_get_"@);
    lemma_begins_otherwise("jira_create_issue"@, "jira_get_"@, 5);
    lemma_begins_otherwise("jira_create_issue"@, "jira_search"@, 5);
    lemma_begins_otherwise("jira_create_issue"@, "jira_batch_get_"@, 5);
    lemma_begins_otherwise("jira_create_issue"@, "jira_download_"@, 5);
    lemma_begins_otherwise("jira_batch_create_issues"@, "jira_get_"@, 5);
    lemma_begins_otherwise("jira_batch_create_issues"@, "jira_search"@, 5);
    lemma_begins_otherwise("jira_batch_create_issues"@, "jira_batch_get_"@, 11);
    lemma_begins_otherwise("jira_batch_create_issues"@, "jira_download_"@, 5);
    assert("jira_batch_get_changelogs"@.take(15) =~= "jira_batch_get_"@);
    lemma_begins_otherwise("jira_update_issue"@, "jira_get_"@, 5);
    lemma_begins_otherwise("jira_update_issue"@, "jira_search"@, 5);
    lemma_begins_otherwise("jira_update_issue"@, "jira_batch_get_"@, 5);
    lemma_begins_otherwise("jira_update_issue"@, "jira_download_"@, 5);
    lemma_begins_otherwise("jira_delete_issue"@, "jira_get_"@, 5);
    lemma_begins_otherwise("jira_delete_issue"@, "jira_search"@, 5);
    lemma_begins_otherwise("jira_delete_issue"@, "jira_batch_get_"@, 5);
    lemma_begins_otherwise("jira_delete_issue"@, "jira_download_"@, 6);
}

proof fn lemma_fields_access()
    ensures
        are_named_for_access(jira::fields_entries()),
{
    reveal_strlit("jira_get_");
    reveal_strlit("jira_search");
    reveal_strlit("jira_batch_get_");
    reveal_strlit("jira_download_");
    reveal_strlit("jira_search_fields");
    reveal_strlit("jira_get_field_options");
    assert("jira_search_fields"@.take(11) =~= "jira_search"@);
    assert("jira_get_field_options"@.take(9) =~= "jira_get_"@);
}

proof fn lemma_comments_access()
    ensures
        are_named_for_access(jira::comments_entries()),
{
    reveal_strlit("jira_get_");
    reveal_strlit("jira_search");
    reveal_strlit("jira_batch_get_");
    reveal_strlit("jira_download_");
    reveal_strlit("jira_add_comment");
    reveal_strlit("jira_edit_comment");
    lemma_begins_otherwise("jira_add_comment"@, "jira_get_"@, 5);
    lemma_begins_otherwise("jira_add_comment"@, "jira_search"@, 5);
    lemma_begins_otherwise("jira_add_comment"@, "jira_batch_get_"@, 5);
    lemma_begins_otherwise("jira_add_comment"@, "jira_download_"@, 5);
    lemma_begins_otherwise("jira_edit_comment"@, "jira_get_"@, 5);
    lemma_begins_otherwise("jira_edit_comment"@, "jira_search"@, 5);
    lemma_begins_otherwise("jira_edit_comment"@, "jira_batch_get_"@, 5);
    lemma_begins_otherwise("jira_edit_comment"@, "jira_download_"@, 5);
}

proof fn lemma_transitions_access()
    ensures
        are_named_for_access(jira::transitions_entries()),
{
    reveal_strlit("jira_get_");
    reveal_strlit("jira_search");
    reveal_strlit("jira_batch_get_");
    reveal_strlit("jira_download_");
    reveal_strlit("jira_get_transitions");
    reveal_strlit("jira_transition_issue");
    assert("jira_get_transitions"@.take(9) =~= "jira_get_"@);
    lemma_begins_otherwise("jira_transition_issue"@, "jira_get_"@, 5);
    lemma_begins_otherwise("jira_transition_issue"@, "jira_search"@, 5);
    lemma_begins_otherwise("jira_transition_issue"@, "jira_batch_get_"@, 5);
    lemma_begins_otherwise("jira_transition_issue"@, "jira_download_"@, 5);
}

proof fn lemma_projects_access()
    ensures
        are_named_for_access(jira::projects_entries()),
{
    reveal_strlit("jira_get_");
    reveal_strlit("jira_search");
    reveal_strlit("jira_batch_get_");
    reveal_strlit("jira_download_");
    reveal_strlit("jira_get_all_projects");
    reveal_strlit("jira_get_project_versions");
    reveal_strlit("jira_get_project_components");
    reveal_strlit("jira_create_version");
    reveal_strlit("jira_batch_create_versions");
    assert("jira_get_all_projects"@.take(9) =~= "jira_get_"@);
    assert("jira_get_project_versions"@.take(9) =~= "jira_get_"@);
    assert("jira_get_project_components"@.take(9) =~= "jira_get_"@);
    lemma_begins_otherwise("jira_create_version"@, "jira_get_"@, 5);
    lemma_begins_otherwise("jira_create_version"@, "jira_search"@, 5);
    lemma_begins_otherwise("jira_create_version"@, "jira_batch_get_"@, 5);
    lemma_begins_otherwise("jira_create_version"@, "jira_download_"@, 5);
    lemma_begins_otherwise("jira_batch_create_versions"@, "jira_get_"@, 5);
    lemma_begins_otherwise("jira_batch_create_versions"@, "jira_search"@, 5);
    lemma_begins_otherwise("jira_batch_create_versions"@, "jira_batch_get_"@, 11);
    lemma_begins_otherwise("jira_batch_create_versions"@, "jira_download_"@, 5);
}

proof fn lemma_users_access()
    ensures
        are_named_for_access(jira::users_entries()),
{
    reveal_strlit("jira_get_");
    reveal_strlit("jira_search");
    reveal_strlit("jira_batch_get_");
    reveal_strlit("jira_download_");
    reveal_strlit("jira_get_user_profile");
    assert("jira_get_user_profile"@.take(9) =~= "jira_get_"@);
}

proof fn lemma_watchers_access()
    ensures
        are_named_for_access(jira::watchers_entries()),
{
    reveal_strlit("jira_get_");
    reveal_strlit("jira_search");
    reveal_strlit("jira_batch_get_");
    reveal_strlit("jira_download_");
    reveal_strlit("jira_get_issue_watchers");
    reveal_strlit("jira_add_watcher");
    reveal_strlit("jira_remove_watcher");
    assert("jira_get_issue_watchers"@.take(9) =~= "jira_get_"@);
    lemma_begins_otherwise("jira_add_watcher"@, "jira_get_"@, 5);
    lemma_begins_otherwise("jira_add_watcher"@, "jira_search"@, 5);
    lemma_begins_otherwise("jira_add_watcher"@, "jira_batch_get_"@, 5);
    lemma_begins_otherwise("jira_add_watcher"@, "jira_download_"@, 5);
    lemma_begins_otherwise("jira_remove_watcher"@, "jira_get_"@, 5);
    lemma_begins_otherwise("jira_remove_watcher"@, "jira_search"@, 5);
    lemma_begins_otherwise("jira_remove_watcher"@, "jira_batch_get_"@, 5);
    lemma_begins_otherwise("jira_remove_watcher"@, "jira_download_"@, 5);
}

proof fn lemma_worklog_access()
    ensures
        are_named_for_access(jira::worklog_entries()),
{
    reveal_strlit("jira_get_");
    reveal_strlit("jira_search");
    reveal_strlit("jira_batch_get_");
    reveal_strlit("jira_download_");
    reveal_strlit("jira_get_worklog");
    reveal_strlit("jira_add_worklog");
    assert("jira_get_worklog"@.take(9) =~= "jira_get_"@);
    lemma_begins_otherwise("jira_add_worklog"@, "jira_get_"@, 5);
    lemma_begins_otherwise("jira_add_worklog"@, "jira_search"@, 5);
    lemma_begins_otherwise("jira_add_worklog"@, "jira_batch_get_"@, 5);
    lemma_begins_otherwise("jira_add_worklog"@, "jira_download_"@, 5);
}

proof fn lemma_links_access()
    ensures
        are_named_for_access(jira::links_entries()),
{
    reveal_strlit("jira_get_");
    reveal_strlit("jira_search");
    reveal_strlit("jira_batch_get_");
    reveal_strlit("jira_download_");
    reveal_strlit("jira_get_link_types");
    reveal_strlit("jira_link_to_epic");
    reveal_strlit("jira_create_issue_link");
    reveal_strlit("jira_create_remote_issue_link");
    reveal_strlit("jira_remove_issue_link");
    assert("jira_get_link_types"@.take(9) =~= "jira_get_"@);
    lemma_begins_otherwise("jira_link_to_epic"@, "jira_get_"@, 5);
    lemma_begins_otherwise("jira_link_to_epic"@, "jira_search"@, 5);
    lemma_begins_otherwise("jira_link_to_epic"@, "jira_batch_get_"@, 5);
    lemma_begins_otherwise("jira_link_to_epic"@, "jira_download_"@, 5);
    lemma_begins_otherwise("jira_create_issue_link"@, "jira_get_"@, 5);
    lemma_begins_otherwise("jira_create_issue_link"@, "jira_search"@, 5);
    lemma_begins_otherwise("jira_create_issue_link"@, "jira_batch_get_"@, 5);
    lemma_begins_otherwise("jira_create_issue_link"@, "jira_download_"@, 5);
    lemma_begins_otherwise("jira_create_remote_issue_link"@, "jira_get_"@, 5);
    lemma_begins_otherwise("jira_create_remote_issue_link"@, "jira_search"@, 5);
    lemma_begins_otherwise("jira_create_remote_issue_link"@, "jira_batch_get_"@, 5);
    lemma_begins_otherwise("jira_create_remote_issue_link"@, "jira_download_"@, 5);
    lemma_begins_otherwise("jira_remove_issue_link"@, "jira_get_"@, 5);
    lemma_begins_otherwise("jira_remove_issue_link"@, "jira_search"@, 5);
    lemma_begins_otherwise("jira_remove_issue_link"@, "jira_batch_get_"@, 5);
    lemma_begins_otherwise("jira_remove_issue_link"@, "jira_download_"@, 5);
}

proof fn lemma_attachments_access()
    ensures
        are_named_for_access(jira::attachments_entries()),
{
    reveal_strlit("jira_get_");
    reveal_strlit("jira_search");
    reveal_strlit("jira_batch_get_");
    reveal_strlit("jira_download_");
    reveal_strlit("jira_download_attachments");
    reveal_strlit("jira_get_issue_images");
    assert("jira_download_attachments"@.take(14) =~= "jira_download_"@);
    assert("jira_get_issue_images"@.take(9) =~= "jira_get_"@);
}

proof fn lemma_agile_access()
    ensures
        are_named_for_access(jira::agile_entries()),
{
    reveal_strlit("jira_get_");
    reveal_strlit("jira_search");
    reveal_strlit("jira_batch_get_");
    reveal_strlit("jira_download_");
    reveal_strlit("jira_get_agile_boards");
    reveal_strlit("jira_get_board_issues");
    reveal_strlit("jira_get_sprints_from_board");
    reveal_strlit("jira_get_sprint_issues");
    reveal_strlit("jira_create_sprint");
    reveal_strlit("jira_update_sprint");
    reveal_strlit("jira_add_issues_to_sprint");
    assert("jira_get_agile_boards"@.take(9) =~= "jira_get_"@);
    assert("jira_get_board_issues"@.take(9) =~= "jira_get_"@);
    assert("jira_get_sprints_from_board"@.take(9) =~= "jira_get_"@);
    assert("jira_get_sprint_issues"@.take(9) =~= "jira_get_"@);
    lemma_begins_otherwise("jira_create_sprint"@, "jira_get_"@, 5);
    lemma_begins_otherwise("jira_create_sprint"@, "jira_search"@, 5);
    lemma_begins_otherwise("jira_create_sprint"@, "jira_batch_get_"@, 5);
    lemma_begins_otherwise("jira_create_sprint"@, "jira_download_"@, 5);
    lemma_begins_otherwise("jira_update_sprint"@, "jira_get_"@, 5);
    lemma_begins_otherwise("jira_update_sprint"@, "jira_search"@, 5);
    lemma_begins_otherwise("jira_update_sprint"@, "jira_batch_get_"@, 5);
    lemma_begins_otherwise("jira_update_sprint"@, "jira_download_"@, 5);
    lemma_begins_otherwise("jira_add_issues_to_sprint"@, "jira_get_"@, 5);
    lemma_begins_otherwise("jira_add_issues_to_sprint"@, "jira_search"@, 5);
    lemma_begins_otherwise("jira_add_issues_to_sprint"@, "jira_batch_get_"@, 5);
    lemma_begins_otherwise("jira_add_issues_to_sprint"@, "jira_download_"@, 5);
}

proof fn lemma_service_desk_access()
    ensures
        are_named_for_access(jira::service_desk_entries()),
{
    reveal_strlit("jira_get_");
    reveal_strlit("jira_search");
    reveal_strlit("jira_batch_get_");
    reveal_strlit("jira_download_");
    reveal_strlit("jira_get_service_desk_for_project");
    reveal_strlit("jira_get_service_desk_queues");
    reveal_strlit("jira_get_queue_issues");
    assert("jira_get_service_desk_for_project"@.take(9) =~= "jira_get_"@);
    assert("jira_get_service_desk_queues"@.take(9) =~= "jira_get_"@);
    assert("jira_get_queue_issues"@.take(9) =~= "jira_get_"@);
}

proof fn lemma_forms_access()
    ensures
        are_named_for_access(jira::forms_entries()),
{
    reveal_strlit("jira_get_");
    reveal_strlit("jira_search");
    reveal_strlit("jira_batch_get_");
    reveal_strlit("jira_download_");
    reveal_strlit("jira_get_issue_proforma_forms");
    reveal_strlit("jira_get_proforma_form_details");
    reveal_strlit("jira_update_proforma_form_answers");
    assert("jira_get_issue_proforma_forms"@.take(9) =~= "jira_get_"@);
    assert("jira_get_proforma_form_details"@.take(9) =~= "jira_get_"@);
    lemma_begins_otherwise("jira_update_proforma_form_answers"@, "jira_get_"@, 5);
    lemma_begins_otherwise("jira_update_proforma_form_answers"@, "jira_search"@, 5);
    lemma_begins_otherwise("jira_update_proforma_form_answers"@, "jira_batch_get_"@, 5);
    lemma_begins_otherwise("jira_update_proforma_form_answers"@, "jira_download_"@, 5);
}

proof fn lemma_metrics_access()
    ensures
        are_named_for_access(jira::metrics_entries()),
{
    reveal_strlit("jira_get_");
    reveal_strlit("jira_search");
    reveal_strlit("jira_batch_get_");
    reveal_strlit("jira_download_");
    reveal_strlit("jira_get_issue_dates");
    reveal_strlit("jira_get_issue_sla");
    assert("jira_get_issue_dates"@.take(9) =~= "jira_get_"@);
    assert("jira_get_issue_sla"@.take(9) =~= "jira_get_"@);
}

proof fn lemma_development_access()
    ensures
        are_named_for_access(jira::development_entries()),
{
    reveal_strlit("jira_get_");
    reveal_strlit("jira_search");
    reveal_strlit("jira_batch_get_");
    reveal_strlit("jira_download_");
    reveal_strlit("jira_get_issue_development_info");
    reveal_strlit("jira_get_issues_development_info");
    assert("jira_get_issue_development_info"@.take(9) =~= "jira_get_"@);
    assert("jira_get_issues_development_info"@.take(9) =~= "jira_get_"@);
}

/// A registered tool only reads exactly where it is named for it, but for the server's own
/// tool, which only reads too: whatever creates, changes, moves or removes something counts
/// as writing.
pub proof fn law_tools_write_unless_they_are_named_for_reading(i: int)
    requires
        0 <= i < tool_registry::registered().len(),
    ensures
        (tool_registry::registered()[i].access == ToolAccess::Read) == (is_named_for_reading(
            tool_registry::registered()[i].name,
        ) || tool_registry::registered()[i].name == MIGRATION_STATUS_TOOL_NAME@),
        (tool_registry::registered()[i].service == ToolService::Server)
            == (tool_registry::registered()[i].name == MIGRATION_STATUS_TOOL_NAME@),
{
    lemma_issues_access();
    lemma_fields_access();
    lemma_comments_access();
    lemma_transitions_access();
    lemma_projects_access();
    lemma_users_access();
    lemma_watchers_access();
    lemma_worklog_access();
    lemma_links_access();
    lemma_attachments_access();
    lemma_agile_access();
    lemma_service_desk_access();
    lemma_forms_access();
    lemma_metrics_access();
    lemma_development_access();
    let all = jira::issues_entries();
    lemma_both_named(all, jira::fields_entries());
    let all = all + jira::fields_entries();
    lemma_both_named(all, jira::comments_entries());
    let all = all + jira::comments_entries();
    lemma_both_named(all, jira::transitions_entries());
    let all = all + jira::transitions_entries();
    lemma_both_named(all, jira::projects_entries());
    let all = all + jira::projects_entries();
    lemma_both_named(all, jira::users_entries());
    let all = all + jira::users_entries();
    lemma_both_named(all, jira::watchers_entries());
    let all = all + jira::watchers_entries();
    lemma_both_named(all, jira::worklog_entries());
    let all = all + jira::worklog_entries();
    lemma_both_named(all, jira::links_entries());
    let all = all + jira::links_entries();
    lemma_both_named(all, jira::attachments_entries());
    let all = all + jira::attachments_entries();
    lemma_both_named(all, jira::agile_entries());
    let all = all + jira::agile_entries();
    lemma_both_named(all, jira::service_desk_entries());
    let all = all + jira::service_desk_entries();
    lemma_both_named(all, jira::forms_entries());
    let all = all + jira::forms_entries();
    lemma_both_named(all, jira::metrics_entries());
    let all = all + jira::metrics_entries();
    lemma_both_named(all, jira::development_entries());
    let all = all + jira::development_entries();
    let entries = tool_registry::registered();
    tool_registry::lookup::law_registered_tools_are_found(i);
    tool_registry::lookup::law_registered_tools_are_found(entries.len() - 1);
    assert(entries.last() == tool_registry::migration_status_entry());
    if i < all.len() {
        assert(entries[i] == jira::jira_entries()[i]);
    }
}

/// A profile is found by its name, whatever the white space around it and the case of its
/// letters. The full profile has every toolset and the custom one none, and of the others
/// each has the toolsets of the one before it; there is no other profile.
pub proof fn law_profiles_are_found_by_name(
    profile: &str,
    toolsets: Option<Vec<&'static str>>,
    i: int,
)
    requires
        call_ensures(tool_registry::toolsets_for_profile, (profile,), toolsets),
    ensures
        ({
            let name = text::lowercase_ascii(text::trimmed(profile@));
            let known = toolsets.deep_view();
            &&& toolsets is Some == (name == "basic"@ || name == "developer"@ || name == "manager"@
                || name == "full"@ || name == "custom"@)
            &&& name == "full"@ ==> known == Some(tool_registry::all_toolset_names())
            &&& name == "custom"@ ==> known->0.len() == 0
            &&& name == "basic"@ ==> known == Some(tool_registry::default_toolset_names())
            &&& name == "developer"@ && 0 <= i < tool_registry::default_toolset_names().len()
                ==> known->0.contains(tool_registry::default_toolset_names()[i])
            &&& name == "manager"@ && 0 <= i < (tool_registry::default_toolset_names()
                + tool_registry::developer_extras()).len() ==> known->0.contains(
                (tool_registry::default_toolset_names() + tool_registry::developer_extras())[i],
            )
            &&& name == "full"@ && 0 <= i < (tool_registry::default_toolset_names()
                + tool_registry::developer_extras() + tool_registry::manager_extras()).len()
                ==> known->0.contains(
                (tool_registry::default_toolset_names() + tool_registry::developer_extras()
                    + tool_registry::manager_extras())[i],
            )
        }),
{
    reveal_strlit("basic");
    reveal_strlit("developer");
    reveal_strlit("manager");
    reveal_strlit("full");
    reveal_strlit("custom");
    assert("basic"@.len() == 5);
    assert("developer"@.len() == 9);
    assert("manager"@.len() == 7);
    assert("full"@.len() == 4);
    assert("custom"@.len() == 6);
    tool_registry::law_profiles_grow();
}

/// The tools of each toolset, as they are registered one toolset after the other, are of
/// that toolset.
pub proof fn law_tools_are_of_their_toolset(k: int)
    ensures
        0 <= k < jira::issues_entries().len() ==> jira::issues_entries()[k].toolset == Some(
            "jira_issues"@,
        ),
        0 <= k < jira::fields_entries().len() ==> jira::fields_entries()[k].toolset == Some(
            "jira_fields"@,
        ),
        0 <= k < jira::comments_entries().len() ==> jira::comments_entries()[k].toolset == Some(
            "jira_comments"@,
        ),
        0 <= k < jira::transitions_entries().len()
            ==> jira::transitions_entries()[k].toolset == Some(
            "jira_transitions"@,
        ),
        0 <= k < jira::projects_entries().len() ==> jira::projects_entries()[k].toolset == Some(
            "jira_projects"@,
        ),
        0 <= k < jira::users_entries().len() ==> jira::users_entries()[k].toolset == Some(
            "jira_users"@,
        ),
        0 <= k < jira::watchers_entries().len() ==> jira::watchers_entries()[k].toolset == Some(
            "jira_watchers"@,
        ),
        0 <= k < jira::worklog_entries().len() ==> jira::worklog_entries()[k].toolset == Some(
            "jira_worklog"@,
        ),
        0 <= k < jira::links_entries().len() ==> jira::links_entries()[k].toolset == Some(
            "jira_links"@,
        ),
        0 <= k < jira::attachments_entries().len()
            ==> jira::attachments_entries()[k].toolset == Some(
            "jira_attachments"@,
        ),
        0 <= k < jira::agile_entries().len() ==> jira::agile_entries()[k].toolset == Some(
            "jira_agile"@,
        ),
        0 <= k < jira::service_desk_entries().len()
            ==> jira::service_desk_entries()[k].toolset == Some(
            "jira_service_desk"@,
        ),
        0 <= k < jira::forms_entries().len() ==> jira::forms_entries()[k].toolset == Some(
            "jira_forms"@,
        ),
        0 <= k < jira::metrics_entries().len() ==> jira::metrics_entries()[k].toolset == Some(
            "jira_metrics"@,
        ),
        0 <= k < jira::development_entries().len()
            ==> jira::development_entries()[k].toolset == Some(
            "jira_development"@,
        ),
{
}

} // verus!
