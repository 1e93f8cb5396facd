//! Every registered tool is found under its own name.

use vstd::prelude::*;

use crate::config::RuntimeView;
use crate::tool_registry;
use crate::tool_registry::jira;
use crate::tool_registry::{MetadataView, ToolService, MIGRATION_STATUS_TOOL_NAME};

verus! {

/// What tells the names of the registered tools apart: the length and three characters.
spec fn mark(name: Seq<char>) -> (int, char, char, char) {
    (name.len() as int, name[name.len() - 11], name[name.len() - 6], name[9])
}

/// The place of the tool whose name has this mark.
spec fn place(mark: (int, char, char, char)) -> int {
    if mark == (14int, 'a', '_', 'i') {
        0
    } else if mark == (11int, 'j', 's', 'c') {
        1
    } else if mark == (23int, 'j', 'i', 'p') {
        2
    } else if mark == (17int, 'r', '_', 't') {
        3
    } else if mark == (24int, 'e', 'i', 'h') {
        4
    } else if mark == (25int, '_', 'g', 'h') {
        5
    } else if mark == (17int, 'p', '_', 't') {
        6
    } else if mark == (17int, 'e', '_', 't') {
        7
    } else if mark == (18int, 'a', 'f', 'c') {
        8
    } else if mark == (22int, 'e', 'p', 'f') {
        9
    } else if mark == (16int, 'a', 'o', 'c') {
        10
    } else if mark == (17int, 'd', 'o', '_') {
        11
    } else if mark == (20int, 't', 'i', 't') {
        12
    } else if mark == (21int, 'i', '_', 's') {
        13
    } else if mark == (21int, 'l', 'o', 'a') {
        14
    } else if mark == (25int, 'c', 'r', 'p') {
        15
    } else if mark == (27int, '_', 'o', 'p') {
        16
    } else if mark == (19int, 'a', 'e', 't') {
        17
    } else if mark == (26int, 't', 'r', 'h') {
        18
    } else if mark == (21int, 's', 'r', 'u') {
        19
    } else if mark == (23int, 'u', 't', 'i') {
        20
    } else if mark == (16int, 'a', 'a', 'w') {
        21
    } else if mark == (19int, 'o', 'a', 'v') {
        22
    } else if mark == (16int, 'g', 'o', 'w') {
        23
    } else if mark == (16int, 'a', 'o', 'w') {
        24
    } else if mark == (19int, '_', '_', 'l') {
        25
    } else if mark == (17int, 'i', 'o', '_') {
        26
    } else if mark == (22int, '_', 'e', 't') {
        27
    } else if mark == (29int, '_', 'e', 't') {
        28
    } else if mark == (22int, '_', 'e', 'v') {
        29
    } else if mark == (25int, 'a', 'h', 'l') {
        30
    } else if mark == (21int, 's', 'i', 'i') {
        31
    } else if mark == (21int, 'g', 'b', 'a') {
        32
    } else if mark == (21int, 'o', 'i', 'b') {
        33
    } else if mark == (27int, '_', '_', 's') {
        34
    } else if mark == (22int, 'r', 'i', 's') {
        35
    } else if mark == (18int, 'e', 's', 't') {
        36
    } else if mark == (18int, 'd', 's', 't') {
        37
    } else if mark == (25int, 's', 's', 'i') {
        38
    } else if mark == (33int, 'f', 'r', 's') {
        39
    } else if mark == (28int, 'd', 'q', 's') {
        40
    } else if mark == (21int, 'u', 'i', 'q') {
        41
    } else if mark == (29int, 'f', '_', 'i') {
        42
    } else if mark == (30int, 'o', 'e', 'p') {
        43
    } else if mark == (33int, 'o', 'n', 't') {
        44
    } else if mark == (20int, 'i', '_', 'i') {
        45
    } else if mark == (18int, 't', 'u', 'i') {
        46
    } else if mark == (31int, 'o', 't', 'i') {
        47
    } else if mark == (32int, 'o', 't', 'i') {
        48
    } else if mark == (16int, 't', 's', '_') {
        49
    } else {
        -1
    }
}

/// Whether these are Jira tools whose names lead back to their places, from `at` on.
spec fn placed(entries: Seq<MetadataView>, at: int) -> bool {
    forall|k: int|
        0 <= k < entries.len() ==> {
            &&& place(mark((#[trigger] entries[k]).name)) == at + k
            &&& entries[k].service == ToolService::Jira
        }
}

/// Tools that lead back to their places, and others behind them that do.
proof fn lemma_placed(left: Seq<MetadataView>, right: Seq<MetadataView>, at: int)
    requires
        placed(left, at),
        placed(right, at + left.len()),
    ensures
        placed(left + right, at),
{
    let all = left + right;
    assert forall|k: int| 0 <= k < all.len() implies {
        &&& place(mark((#[trigger] all[k]).name)) == at + k
        &&& all[k].service == ToolService::Jira
    } by {
        if k < left.len() {
            assert(all[k] == left[k]);
        } else {
            assert(all[k] == right[k - left.len()]);
        }
    }
}

proof fn lemma_issues()
    ensures
        placed(jira::issues_entries(), 0),
{
    reveal_strlit("jira_get_issue");
    reveal_strlit("jira_search");
    reveal_strlit("jira_get_project_issues");
    reveal_strlit("jira_create_issue");
    reveal_strlit("jira_batch_create_issues");
    reveal_strlit("jira_batch_get_changelogs");
    reveal_strlit("jira_update_issue");
    reveal_strlit("jira_delete_issue");
    let entries = jira::issues_entries();
    assert(place(mark(entries[0].name)) == 0);
    assert(place(mark(entries[1].name)) == 1);
    assert(place(mark(entries[2].name)) == 2);
    assert(place(mark(entries[3].name)) == 3);
    assert(place(mark(entries[4].name)) == 4);
    assert(place(mark(entries[5].name)) == 5);
    assert(place(mark(entries[6].name)) == 6);
    assert(place(mark(entries[7].name)) == 7);
}

proof fn lemma_fields()
    ensures
        placed(jira::fields_entries(), 8),
{
    reveal_strlit("jira_search_fields");
    reveal_strlit("jira_get_field_options");
    let entries = jira::fields_entries();
    assert(place(mark(entries[0].name)) == 8);
    assert(place(mark(entries[1].name)) == 9);
}

proof fn lemma_comments()
    ensures
        placed(jira::comments_entries(), 10),
{
    reveal_strlit("jira_add_comment");
    reveal_strlit("jira_edit_comment");
    let entries = jira::comments_entries();
    assert(place(mark(entries[0].name)) == 10);
    assert(place(mark(entries[1].name)) == 11);
}

proof fn lemma_transitions()
    ensures
        placed(jira::transitions_entries(), 12),
{
    reveal_strlit("jira_get_transitions");
    reveal_strlit("jira_transition_issue");
    let entries = jira::transitions_entries();
    assert(place(mark(entries[0].name)) == 12);
    assert(place(mark(entries[1].name)) == 13);
}

proof fn lemma_projects()
    ensures
        placed(jira::projects_entries(), 14),
{
    reveal_strlit("jira_get_all_projects");
    reveal_strlit("jira_get_project_versions");
    reveal_strlit("jira_get_project_components");
    reveal_strlit("jira_create_version");
    reveal_strlit("jira_batch_create_versions");
    let entries = jira::projects_entries();
    assert(place(mark(entries[0].name)) == 14);
    assert(place(mark(entries[1].name)) == 15);
    assert(place(mark(entries[2].name)) == 16);
    assert(place(mark(entries[3].name)) == 17);
    assert(place(mark(entries[4].name)) == 18);
}

proof fn lemma_users()
    ensures
        placed(jira::users_entries(), 19),
{
    reveal_strlit("jira_get_user_profile");
    let entries = jira::users_entries();
    assert(place(mark(entries[0].name)) == 19);
}

proof fn lemma_watchers()
    ensures
        placed(jira::watchers_entries(), 20),
{
    reveal_strlit("jira_get_issue_watchers");
    reveal_strlit("jira_add_watcher");
    reveal_strlit("jira_remove_watcher");
    let entries = jira::watchers_entries();
    assert(place(mark(entries[0].name)) == 20);
    assert(place(mark(entries[1].name)) == 21);
    assert(place(mark(entries[2].name)) == 22);
}

proof fn lemma_worklog()
    ensures
        placed(jira::worklog_entries(), 23),
{
    reveal_strlit("jira_get_worklog");
    reveal_strlit("jira_add_worklog");
    let entries = jira::worklog_entries();
    assert(place(mark(entries[0].name)) == 23);
    assert(place(mark(entries[1].name)) == 24);
}

proof fn lemma_links()
    ensures
        placed(jira::links_entries(), 25),
{
    reveal_strlit("jira_get_link_types");
    reveal_strlit("jira_link_to_epic");
    reveal_strlit("jira_create_issue_link");
    reveal_strlit("jira_create_remote_issue_link");
    reveal_strlit("jira_remove_issue_link");
    let entries = jira::links_entries();
    assert(place(mark(entries[0].name)) == 25);
    assert(place(mark(entries[1].name)) == 26);
    assert(place(mark(entries[2].name)) == 27);
    assert(place(mark(entries[3].name)) == 28);
    assert(place(mark(entries[4].name)) == 29);
}

proof fn lemma_attachments()
    ensures
        placed(jira::attachments_entries(), 30),
{
    reveal_strlit("jira_download_attachments");
    reveal_strlit("jira_get_issue_images");
    let entries = jira::attachments_entries();
    assert(place(mark(entries[0].name)) == 30);
    assert(place(mark(entries[1].name)) == 31);
}

proof fn lemma_agile()
    ensures
        placed(jira::agile_entries(), 32),
{
    reveal_strlit("jira_get_agile_boards");
    reveal_strlit("jira_get_board_issues");
    reveal_strlit("jira_get_sprints_from_board");
    reveal_strlit("jira_get_sprint_issues");
    reveal_strlit("jira_create_sprint");
    reveal_strlit("jira_update_sprint");
    reveal_strlit("jira_add_issues_to_sprint");
    let entries = jira::agile_entries();
    assert(place(mark(entries[0].name)) == 32);
    assert(place(mark(entries[1].name)) == 33);
    assert(place(mark(entries[2].name)) == 34);
    assert(place(mark(entries[3].name)) == 35);
    assert(place(mark(entries[4].name)) == 36);
    assert(place(mark(entries[5].name)) == 37);
    assert(place(mark(entries[6].name)) == 38);
}

proof fn lemma_service_desk()
    ensures
        placed(jira::service_desk_entries(), 39),
{
    reveal_strlit("jira_get_service_desk_for_project");
    reveal_strlit("jira_get_service_desk_queues");
    reveal_strlit("jira_get_queue_issues");
    let entries = jira::service_desk_entries();
    assert(place(mark(entries[0].name)) == 39);
    assert(place(mark(entries[1].name)) == 40);
    assert(place(mark(entries[2].name)) == 41);
}

proof fn lemma_forms()
    ensures
        placed(jira::forms_entries(), 42),
{
    reveal_strlit("jira_get_issue_proforma_forms");
    reveal_strlit("jira_get_proforma_form_details");
    reveal_strlit("jira_update_proforma_form_answers");
    let entries = jira::forms_entries();
    assert(place(mark(entries[0].name)) == 42);
    assert(place(mark(entries[1].name)) == 43);
    assert(place(mark(entries[2].name)) == 44);
}

proof fn lemma_metrics()
    ensures
        placed(jira::metrics_entries(), 45),
{
    reveal_strlit("jira_get_issue_dates");
    reveal_strlit("jira_get_issue_sla");
    let entries = jira::metrics_entries();
    assert(place(mark(entries[0].name)) == 45);
    assert(place(mark(entries[1].name)) == 46);
}

proof fn lemma_development()
    ensures
        placed(jira::development_entries(), 47),
{
    reveal_strlit("jira_get_issue_development_info");
    reveal_strlit("jira_get_issues_development_info");
    let entries = jira::development_entries();
    assert(place(mark(entries[0].name)) == 47);
    assert(place(mark(entries[1].name)) == 48);
}

/// All Jira tools are such, and their names lead back to their places.
proof fn lemma_jira_entries()
    ensures
        placed(jira::jira_entries(), 0),
{
    lemma_issues();
    let all = jira::issues_entries();
    lemma_fields();
    lemma_placed(all, jira::fields_entries(), 0);
    let all = all + jira::fields_entries();
    lemma_comments();
    lemma_placed(all, jira::comments_entries(), 0);
    let all = all + jira::comments_entries();
    lemma_transitions();
    lemma_placed(all, jira::transitions_entries(), 0);
    let all = all + jira::transitions_entries();
    lemma_projects();
    lemma_placed(all, jira::projects_entries(), 0);
    let all = all + jira::projects_entries();
    lemma_users();
    lemma_placed(all, jira::users_entries(), 0);
    let all = all + jira::users_entries();
    lemma_watchers();
    lemma_placed(all, jira::watchers_entries(), 0);
    let all = all + jira::watchers_entries();
    lemma_worklog();
    lemma_placed(all, jira::worklog_entries(), 0);
    let all = all + jira::worklog_entries();
    lemma_links();
    lemma_placed(all, jira::links_entries(), 0);
    let all = all + jira::links_entries();
    lemma_attachments();
    lemma_placed(all, jira::attachments_entries(), 0);
    let all = all + jira::attachments_entries();
    lemma_agile();
    lemma_placed(all, jira::agile_entries(), 0);
    let all = all + jira::agile_entries();
    lemma_service_desk();
    lemma_placed(all, jira::service_desk_entries(), 0);
    let all = all + jira::service_desk_entries();
    lemma_forms();
    lemma_placed(all, jira::forms_entries(), 0);
    let all = all + jira::forms_entries();
    lemma_metrics();
    lemma_placed(all, jira::metrics_entries(), 0);
    let all = all + jira::metrics_entries();
    lemma_development();
    lemma_placed(all, jira::development_entries(), 0);
    let all = all + jira::development_entries();
}

/// The registration at a place is the first under its name where no earlier one has it.
proof fn lemma_first_at(entries: Seq<MetadataView>, i: int)
    requires
        0 <= i < entries.len(),
        forall|k: int| 0 <= k < i ==> (#[trigger] entries[k]).name != entries[i].name,
    ensures
        tool_registry::first_named(entries, entries[i].name) == Some(entries[i]),
    decreases i,
{
    if i > 0 {
        let rest = entries.drop_first();
        assert(entries[0].name != entries[i].name);
        assert(rest[i - 1] == entries[i]);
        assert forall|k: int| 0 <= k < i - 1 implies (#[trigger] rest[k]).name != rest[i
            - 1].name by {
            assert(rest[k] == entries[k + 1]);
        }
        lemma_first_at(rest, i - 1);
    }
}

/// Every registered tool is found under its own name; no two have the same.
pub proof fn law_registered_tools_are_found(i: int)
    requires
        0 <= i < tool_registry::registered().len(),
    ensures
        tool_registry::registration(tool_registry::registered()[i].name) == Some(
            tool_registry::registered()[i],
        ),
{
    let entries = tool_registry::registered();
    lemma_jira_entries();
    reveal_strlit("migration_status");
    assert forall|k: int| 0 <= k < i implies (#[trigger] entries[k]).name != entries[i].name by {
        assert(entries[k] == jira::jira_entries()[k]);
        if i < jira::jira_entries().len() {
            assert(entries[i] == jira::jira_entries()[i]);
        } else {
            assert(entries[i].name == MIGRATION_STATUS_TOOL_NAME@);
        }
    }
    lemma_first_at(entries, i);
}

/// The tool that tells of the server's own state belongs to no toolset and needs no
/// service: it is shown unless its name is filtered out.
pub proof fn law_server_tool_is_always_there(context: RuntimeView)
    ensures
        tool_registry::is_shown(MIGRATION_STATUS_TOOL_NAME@, context)
            == tool_registry::name_enabled(MIGRATION_STATUS_TOOL_NAME@, context),
{
    let entries = tool_registry::registered();
    law_registered_tools_are_found(entries.len() - 1);
    assert(entries.last() == tool_registry::migration_status_entry());
}

/// Without Jira no other tool than the server's own is shown.
pub proof fn law_jira_tools_need_jira(name: Seq<char>, context: RuntimeView)
    requires
        context.jira is None,
        name != MIGRATION_STATUS_TOOL_NAME@,
    ensures
        !tool_registry::is_shown(name, context),
{
    let entries = tool_registry::registered();
    lemma_jira_entries();
    if let Some(metadata) = tool_registry::registration(name) {
        lemma_named_is_listed(entries, name);
        let i = choose|i: int| 0 <= i < entries.len() && entries[i] == metadata;
        tool_registry::lemma_first_named(entries, name);
        if i < jira::jira_entries().len() {
            assert(entries[i] == jira::jira_entries()[i]);
        }
    }
}

proof fn lemma_named_is_listed(entries: Seq<MetadataView>, name: Seq<char>)
    ensures
        tool_registry::first_named(entries, name) matches Some(metadata) ==> entries.contains(
            metadata,
        ),
    decreases entries.len(),
{
    if entries.len() > 0 {
        if entries.first().name == name {
            assert(entries[0] == entries.first());
        } else {
            let rest = entries.drop_first();
            lemma_named_is_listed(rest, name);
            if let Some(metadata) = tool_registry::first_named(rest, name) {
                let k = choose|k: int| 0 <= k < rest.len() && rest[k] == metadata;
                assert(entries[k + 1] == metadata);
            }
        }
    }
}

/// Whether these tools are of one toolset, which is among all toolsets.
spec fn of_listed_toolset(entries: Seq<MetadataView>) -> bool {
    forall|k: int|
        0 <= k < entries.len() ==> ((#[trigger] entries[k]).toolset matches Some(toolset)
            && tool_registry::all_toolset_names().contains(toolset))
}

/// Tools of listed toolsets, and others behind them that are.
proof fn lemma_listed(left: Seq<MetadataView>, right: Seq<MetadataView>)
    requires
        of_listed_toolset(left),
        of_listed_toolset(right),
    ensures
        of_listed_toolset(left + right),
{
    let all = left + right;
    assert forall|k: int| 0 <= k < all.len() implies ((#[trigger] all[k]).toolset matches Some(
        toolset,
    ) && tool_registry::all_toolset_names().contains(toolset)) by {
        if k < left.len() {
            assert(all[k] == left[k]);
        } else {
            assert(all[k] == right[k - left.len()]);
        }
    }
}

/// The toolset of every registered tool is among all toolsets; the server's own tool has
/// none.
pub proof fn law_tools_are_of_listed_toolsets(i: int)
    requires
        0 <= i < tool_registry::registered().len(),
    ensures
        match tool_registry::registered()[i].toolset {
            Some(toolset) => tool_registry::all_toolset_names().contains(toolset),
            None => tool_registry::registered()[i].name == MIGRATION_STATUS_TOOL_NAME@,
        },
{
    let toolsets = tool_registry::all_toolset_names();
    assert(toolsets[37] == "jira_issues"@);
    assert(toolsets[38] == "jira_fields"@);
    assert(toolsets[39] == "jira_comments"@);
    assert(toolsets[40] == "jira_transitions"@);
    assert(toolsets[41] == "jira_projects"@);
    assert(toolsets[19] == "jira_users"@);
    assert(toolsets[20] == "jira_watchers"@);
    assert(toolsets[17] == "jira_worklog"@);
    assert(toolsets[18] == "jira_links"@);
    assert(toolsets[43] == "jira_attachments"@);
    assert(toolsets[42] == "jira_agile"@);
    assert(toolsets[21] == "jira_service_desk"@);
    assert(toolsets[22] == "jira_forms"@);
    assert(toolsets[44] == "jira_metrics"@);
    assert(toolsets[45] == "jira_development"@);
    let all = jira::issues_entries();
    assert(of_listed_toolset(all));
    lemma_listed(all, jira::fields_entries());
    let all = all + jira::fields_entries();
    lemma_listed(all, jira::comments_entries());
    let all = all + jira::comments_entries();
    lemma_listed(all, jira::transitions_entries());
    let all = all + jira::transitions_entries();
    lemma_listed(all, jira::projects_entries());
    let all = all + jira::projects_entries();
    lemma_listed(all, jira::users_entries());
    let all = all + jira::users_entries();
    lemma_listed(all, jira::watchers_entries());
    let all = all + jira::watchers_entries();
    lemma_listed(all, jira::worklog_entries());
    let all = all + jira::worklog_entries();
    lemma_listed(all, jira::links_entries());
    let all = all + jira::links_entries();
    lemma_listed(all, jira::attachments_entries());
    let all = all + jira::attachments_entries();
    lemma_listed(all, jira::agile_entries());
    let all = all + jira::agile_entries();
    lemma_listed(all, jira::service_desk_entries());
    let all = all + jira::service_desk_entries();
    lemma_listed(all, jira::forms_entries());
    let all = all + jira::forms_entries();
    lemma_listed(all, jira::metrics_entries());
    let all = all + jira::metrics_entries();
    lemma_listed(all, jira::development_entries());
    let all = all + jira::development_entries();
    let entries = tool_registry::registered();
    if i < all.len() {
        assert(entries[i] == jira::jira_entries()[i]);
    }
}

/// The server's own tool is no toolset.
pub proof fn law_status_tool_is_no_toolset()
    ensures
        !tool_registry::all_toolset_names().contains(MIGRATION_STATUS_TOOL_NAME@),
{
    reveal_strlit("migration_status");
    let toolsets = tool_registry::all_toolset_names();
    reveal_strlit("jira_issue_read");
    reveal_strlit("jira_issue_write");
    reveal_strlit("jira_issue_delete");
    reveal_strlit("jira_issue_bulk_write");
    reveal_strlit("jira_issue_history_read");
    reveal_strlit("jira_fields_read");
    reveal_strlit("jira_comments_write");
    reveal_strlit("jira_workflow_read");
    reveal_strlit("jira_workflow_write");
    reveal_strlit("jira_project_read");
    reveal_strlit("jira_project_metadata_read");
    reveal_strlit("jira_project_write");
    reveal_strlit("jira_agile_read");
    reveal_strlit("jira_sprint_planning");
    reveal_strlit("jira_sprint_manage");
    reveal_strlit("jira_development_read");
    reveal_strlit("jira_attachments_read");
    reveal_strlit("jira_worklog");
    reveal_strlit("jira_links");
    reveal_strlit("jira_users");
    reveal_strlit("jira_watchers");
    reveal_strlit("jira_service_desk");
    reveal_strlit("jira_forms");
    reveal_strlit("jira_metrics_read");
    reveal_strlit("confluence_content_read");
    reveal_strlit("confluence_content_write");
    reveal_strlit("confluence_content_delete");
    reveal_strlit("confluence_versions_read");
    reveal_strlit("confluence_comments_read");
    reveal_strlit("confluence_comments_write");
    reveal_strlit("confluence_labels_read");
    reveal_strlit("confluence_labels_write");
    reveal_strlit("confluence_users_read");
    reveal_strlit("confluence_analytics_read");
    reveal_strlit("confluence_attachments_read");
    reveal_strlit("confluence_attachments_write");
    reveal_strlit("confluence_attachments_delete");
    reveal_strlit("jira_issues");
    reveal_strlit("jira_fields");
    reveal_strlit("jira_comments");
    reveal_strlit("jira_transitions");
    reveal_strlit("jira_projects");
    reveal_strlit("jira_agile");
    reveal_strlit("jira_attachments");
    reveal_strlit("jira_metrics");
    reveal_strlit("jira_development");
    reveal_strlit("confluence_pages");
    assert forall|i: int| 0 <= i < toolsets.len() implies #[trigger] toolsets[i]
        != MIGRATION_STATUS_TOOL_NAME@ by {
        assert(toolsets[i][0] == 'j' || toolsets[i][0] == 'c');
    }
}

} // verus!
