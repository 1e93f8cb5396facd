//! Which tools there are, and which of them may be seen and called.

use vstd::prelude::*;

use crate::config::RuntimeView;
use crate::context::AppContext;
use crate::mcp_errors;
use crate::mcp_errors::{ErrorData, FailureView};
use crate::string_set::StringSet;
use crate::text::{comes_before, same_text, to_ascii_lowercase, trim};
use crate::tool_registry::jira::jira_tools;
use crate::{outcome, string_set, text};

pub mod jira;
pub mod laws;
pub mod lookup;

verus! {

pub const TOOL_UNAVAILABLE_MESSAGE: &'static str = "tool not available";

pub const READ_ONLY_MESSAGE: &'static str = "tool is disabled in read-only mode";

/// The profile where none is named.
pub const DEFAULT_TOOL_PROFILE: &'static str = "basic";

pub const MIGRATION_STATUS_TOOL_NAME: &'static str = "migration_status";

/// All toolsets: those of the registered tools, and those that a profile can name.
pub open spec fn all_toolset_names() -> Seq<Seq<char>> {
    seq![
        "jira_issue_read"@,
        "jira_issue_write"@,
        "jira_issue_delete"@,
        "jira_issue_bulk_write"@,
        "jira_issue_history_read"@,
        "jira_fields_read"@,
        "jira_comments_write"@,
        "jira_workflow_read"@,
        "jira_workflow_write"@,
        "jira_project_read"@,
        "jira_project_metadata_read"@,
        "jira_project_write"@,
        "jira_agile_read"@,
        "jira_sprint_planning"@,
        "jira_sprint_manage"@,
        "jira_development_read"@,
        "jira_attachments_read"@,
        "jira_worklog"@,
        "jira_links"@,
        "jira_users"@,
        "jira_watchers"@,
        "jira_service_desk"@,
        "jira_forms"@,
        "jira_metrics_read"@,
        "confluence_content_read"@,
        "confluence_content_write"@,
        "confluence_content_delete"@,
        "confluence_versions_read"@,
        "confluence_comments_read"@,
        "confluence_comments_write"@,
        "confluence_labels_read"@,
        "confluence_labels_write"@,
        "confluence_users_read"@,
        "confluence_analytics_read"@,
        "confluence_attachments_read"@,
        "confluence_attachments_write"@,
        "confluence_attachments_delete"@,
        "jira_issues"@,
        "jira_fields"@,
        "jira_comments"@,
        "jira_transitions"@,
        "jira_projects"@,
        "jira_agile"@,
        "jira_attachments"@,
        "jira_metrics"@,
        "jira_development"@,
        "confluence_pages"@,
    ]
}

/// The toolsets of the basic profile.
pub open spec fn default_toolset_names() -> Seq<Seq<char>> {
    seq![
        "jira_issue_read"@,
        "jira_issue_write"@,
        "jira_fields_read"@,
        "jira_comments_write"@,
        "jira_workflow_read"@,
        "jira_workflow_write"@,
        "jira_project_read"@,
        "confluence_content_read"@,
        "confluence_comments_read"@,
        "confluence_labels_read"@,
    ]
}

/// What the developer profile adds to them.
pub open spec fn developer_extras() -> Seq<Seq<char>> {
    seq![
        "jira_agile_read"@,
        "jira_sprint_planning"@,
        "jira_development_read"@,
        "jira_attachments_read"@,
        "jira_worklog"@,
        "jira_metrics_read"@,
        "confluence_versions_read"@,
        "confluence_attachments_read"@,
    ]
}

/// What the manager profile adds to those of the developer profile.
pub open spec fn manager_extras() -> Seq<Seq<char>> {
    seq![
        "jira_sprint_manage"@,
        "jira_issue_delete"@,
        "jira_issue_bulk_write"@,
        "jira_issue_history_read"@,
        "jira_project_metadata_read"@,
        "jira_project_write"@,
        "jira_links"@,
        "jira_users"@,
        "jira_watchers"@,
        "confluence_content_write"@,
        "confluence_comments_write"@,
        "confluence_labels_write"@,
        "confluence_attachments_write"@,
    ]
}

/// The toolsets of a profile, whose name may have white space around it and capital
/// letters in it; none where there is no such profile.
pub open spec fn profile_toolset_names(profile: Seq<char>) -> Option<Seq<Seq<char>>> {
    let profile = text::lowercase_ascii(text::trimmed(profile));
    if profile == "basic"@ {
        Some(default_toolset_names())
    } else if profile == "developer"@ {
        Some(default_toolset_names() + developer_extras())
    } else if profile == "manager"@ {
        Some(default_toolset_names() + developer_extras() + manager_extras())
    } else if profile == "full"@ {
        Some(all_toolset_names())
    } else if profile == "custom"@ {
        Some(Seq::empty())
    } else {
        None
    }
}

/// All toolsets.
fn all_toolset_list() -> (names: Vec<&'static str>)
    ensures
        names.deep_view() == all_toolset_names(),
{
    let names: Vec<&'static str> = vec![
        "jira_issue_read",
        "jira_issue_write",
        "jira_issue_delete",
        "jira_issue_bulk_write",
        "jira_issue_history_read",
        "jira_fields_read",
        "jira_comments_write",
        "jira_workflow_read",
        "jira_workflow_write",
        "jira_project_read",
        "jira_project_metadata_read",
        "jira_project_write",
        "jira_agile_read",
        "jira_sprint_planning",
        "jira_sprint_manage",
        "jira_development_read",
        "jira_attachments_read",
        "jira_worklog",
        "jira_links",
        "jira_users",
        "jira_watchers",
        "jira_service_desk",
        "jira_forms",
        "jira_metrics_read",
        "confluence_content_read",
        "confluence_content_write",
        "confluence_content_delete",
        "confluence_versions_read",
        "confluence_comments_read",
        "confluence_comments_write",
        "confluence_labels_read",
        "confluence_labels_write",
        "confluence_users_read",
        "confluence_analytics_read",
        "confluence_attachments_read",
        "confluence_attachments_write",
        "confluence_attachments_delete",
        "jira_issues",
        "jira_fields",
        "jira_comments",
        "jira_transitions",
        "jira_projects",
        "jira_agile",
        "jira_attachments",
        "jira_metrics",
        "jira_development",
        "confluence_pages",
    ];
    proof {
        assert(names.deep_view() =~= all_toolset_names());
    }
    names
}

/// The toolsets of the basic profile.
fn default_toolset_list() -> (names: Vec<&'static str>)
    ensures
        names.deep_view() == default_toolset_names(),
{
    let names: Vec<&'static str> = vec![
        "jira_issue_read",
        "jira_issue_write",
        "jira_fields_read",
        "jira_comments_write",
        "jira_workflow_read",
        "jira_workflow_write",
        "jira_project_read",
        "confluence_content_read",
        "confluence_comments_read",
        "confluence_labels_read",
    ];
    proof {
        assert(names.deep_view() =~= default_toolset_names());
    }
    names
}

/// The toolsets of the developer profile.
fn developer_toolset_list() -> (names: Vec<&'static str>)
    ensures
        names.deep_view() == default_toolset_names() + developer_extras(),
{
    let names: Vec<&'static str> = vec![
        "jira_issue_read",
        "jira_issue_write",
        "jira_fields_read",
        "jira_comments_write",
        "jira_workflow_read",
        "jira_workflow_write",
        "jira_project_read",
        "confluence_content_read",
        "confluence_comments_read",
        "confluence_labels_read",
        "jira_agile_read",
        "jira_sprint_planning",
        "jira_development_read",
        "jira_attachments_read",
        "jira_worklog",
        "jira_metrics_read",
        "confluence_versions_read",
        "confluence_attachments_read",
    ];
    proof {
        assert(names.deep_view() =~= default_toolset_names() + developer_extras());
    }
    names
}

/// The toolsets of the manager profile.
fn manager_toolset_list() -> (names: Vec<&'static str>)
    ensures
        names.deep_view() == default_toolset_names() + developer_extras() + manager_extras(),
{
    let names: Vec<&'static str> = vec![
        "jira_issue_read",
        "jira_issue_write",
        "jira_fields_read",
        "jira_comments_write",
        "jira_workflow_read",
        "jira_workflow_write",
        "jira_project_read",
        "confluence_content_read",
        "confluence_comments_read",
        "confluence_labels_read",
        "jira_agile_read",
        "jira_sprint_planning",
        "jira_development_read",
        "jira_attachments_read",
        "jira_worklog",
        "jira_metrics_read",
        "confluence_versions_read",
        "confluence_attachments_read",
        "jira_sprint_manage",
        "jira_issue_delete",
        "jira_issue_bulk_write",
        "jira_issue_history_read",
        "jira_project_metadata_read",
        "jira_project_write",
        "jira_links",
        "jira_users",
        "jira_watchers",
        "confluence_content_write",
        "confluence_comments_write",
        "confluence_labels_write",
        "confluence_attachments_write",
    ];
    proof {
        assert(names.deep_view() =~= default_toolset_names() + developer_extras() + manager_extras());
    }
    names
}

fn set_of(names: &Vec<&'static str>) -> (set: StringSet)
    ensures
        set@.to_set() == names.deep_view().to_set(),
        string_set::strictly_increasing(set@),
{
    let mut texts: Vec<String> = Vec::new();
    let mut i: usize = 0;
    while i < names.len()
        invariant
            i <= names.len(),
            texts.deep_view() =~= names.deep_view().take(i as int),
        decreases names.len() - i,
    {
        let name = names[i].to_owned();
        let ghost before = texts.deep_view();
        texts.push(name);
        proof {
            assert(texts.deep_view() =~= before.push(name@));
            assert(names.deep_view()[i as int] == name@);
        }
        i = i + 1;
    }
    proof {
        assert(names.deep_view().take(i as int) =~= names.deep_view());
    }
    StringSet::from_texts(&texts)
}

/// All toolsets: those of the registered tools, and those that a profile can name.
pub fn all_toolsets() -> (toolsets: StringSet)
    ensures
        toolsets@.to_set() == all_toolset_names().to_set(),
        string_set::strictly_increasing(toolsets@),
{
    set_of(&all_toolset_list())
}

/// The toolsets of the basic profile.
pub fn default_toolsets() -> (toolsets: StringSet)
    ensures
        toolsets@.to_set() == default_toolset_names().to_set(),
        string_set::strictly_increasing(toolsets@),
{
    set_of(&default_toolset_list())
}

/// The toolsets of a profile, whose name may have white space around it and capital
/// letters in it; none where there is no such profile.
pub fn toolsets_for_profile(profile: &str) -> (toolsets: Option<Vec<&'static str>>)
    ensures
        toolsets.deep_view() == profile_toolset_names(profile@),
{
    let profile = to_ascii_lowercase(trim(profile).as_str());
    let profile = profile.as_str();
    if same_text(profile, "basic") {
        Some(default_toolset_list())
    } else if same_text(profile, "developer") {
        Some(developer_toolset_list())
    } else if same_text(profile, "manager") {
        Some(manager_toolset_list())
    } else if same_text(profile, "full") {
        Some(all_toolset_list())
    } else if same_text(profile, "custom") {
        let none: Vec<&'static str> = Vec::new();
        proof {
            assert(none.deep_view() =~= Seq::empty());
        }
        Some(none)
    } else {
        None
    }
}

/// The service that a tool speaks to; the server's own tools need none.
#[derive(Debug, Clone, Copy, PartialEq, Eq, Structural)]
pub enum ToolService {
    Jira,
    Confluence,
    Server,
}

/// Whether a tool changes something.
#[derive(Debug, Clone, Copy, PartialEq, Eq, Structural)]
pub enum ToolAccess {
    Read,
    Write,
}

/// What a tool is registered as.
#[derive(Debug, Clone, Copy, PartialEq, Eq)]
pub struct ToolMetadata {
    pub name: &'static str,
    pub service: ToolService,
    pub access: ToolAccess,
    pub toolset: Option<&'static str>,
    pub title: &'static str,
    pub description: &'static str,
}

/// What a registration stands for.
#[verifier::ext_equal]
pub struct MetadataView {
    pub name: Seq<char>,
    pub service: ToolService,
    pub access: ToolAccess,
    pub toolset: Option<Seq<char>>,
    pub title: Seq<char>,
    pub description: Seq<char>,
}

impl DeepView for ToolMetadata {
    type V = MetadataView;

    open spec fn deep_view(&self) -> MetadataView {
        MetadataView {
            name: self.name@,
            service: self.service,
            access: self.access,
            toolset: self.toolset.deep_view(),
            title: self.title@,
            description: self.description@,
        }
    }
}

/// A tool as it is shown to callers.
#[derive(Debug)]
pub struct Tool {
    pub name: String,
    pub description: String,
}

/// What a tool stands for.
#[verifier::ext_equal]
pub struct ToolView {
    pub name: Seq<char>,
    pub description: Seq<char>,
}

impl DeepView for Tool {
    type V = ToolView;

    open spec fn deep_view(&self) -> ToolView {
        ToolView { name: self.name@, description: self.description@ }
    }
}

impl Clone for Tool {
    fn clone(&self) -> (copy: Self)
        ensures
            copy.deep_view() == self.deep_view(),
    {
        Tool { name: self.name.clone(), description: self.description.clone() }
    }
}

/// The tool that tells of the server's own state.
pub open spec fn migration_status_entry() -> MetadataView {
    MetadataView {
        name: MIGRATION_STATUS_TOOL_NAME@,
        service: ToolService::Server,
        access: ToolAccess::Read,
        toolset: None,
        title: "Migration status"@,
        description: "Report the current Rust migration status for MCP Atlassian"@,
    }
}

/// All registered tools.
pub open spec fn registered() -> Seq<MetadataView> {
    jira::jira_entries().push(migration_status_entry())
}

/// The first of these registrations under a name.
pub open spec fn first_named(entries: Seq<MetadataView>, name: Seq<char>) -> Option<MetadataView>
    decreases entries.len(),
{
    if entries.len() == 0 {
        None
    } else if entries.first().name == name {
        Some(entries.first())
    } else {
        first_named(entries.drop_first(), name)
    }
}

/// The first registration under a name is under that name.
pub proof fn lemma_first_named(entries: Seq<MetadataView>, name: Seq<char>)
    ensures
        first_named(entries, name) matches Some(metadata) ==> metadata.name == name,
    decreases entries.len(),
{
    if entries.len() > 0 {
        lemma_first_named(entries.drop_first(), name);
    }
}

/// What a name is registered as.
pub open spec fn registration(name: Seq<char>) -> Option<MetadataView> {
    first_named(registered(), name)
}

/// All registered tools.
pub fn registered_tools() -> (tools: Vec<ToolMetadata>)
    ensures
        tools.deep_view() == registered(),
{
    let mut tools = jira_tools();
    let ghost before = tools.deep_view();
    tools.push(
        ToolMetadata {
            name: MIGRATION_STATUS_TOOL_NAME,
            service: ToolService::Server,
            access: ToolAccess::Read,
            toolset: None,
            title: "Migration status",
            description: "Report the current Rust migration status for MCP Atlassian",
        },
    );
    proof {
        assert(tools.deep_view() =~= before.push(migration_status_entry()));
    }
    tools
}

/// What a name is registered as.
pub fn metadata_for(name: &str) -> (metadata: Option<ToolMetadata>)
    ensures
        metadata.deep_view() == registration(name@),
{
    let tools = registered_tools();
    let ghost entries = registered();
    let mut i: usize = 0;
    proof {
        assert(entries.skip(0) =~= entries);
    }
    while i < tools.len()
        invariant
            i <= tools.len(),
            entries == registered(),
            tools.deep_view() == entries,
            registration(name@) == first_named(entries.skip(i as int), name@),
        decreases tools.len() - i,
    {
        proof {
            assert(entries[i as int] == tools@[i as int].deep_view());
            assert(entries.skip(i as int).first() == entries[i as int]);
            assert(entries.skip(i as int).drop_first() =~= entries.skip(i + 1));
        }
        if same_text(tools[i].name, name) {
            return Some(tools[i]);
        }
        i = i + 1;
    }
    None
}

/// Whether the settings leave a tool of this name on.
pub open spec fn name_enabled(name: Seq<char>, context: RuntimeView) -> bool {
    &&& !context.disabled_tools.contains(name)
    &&& match context.enabled_tools {
        Some(tools) => tools.len() == 0 || tools.contains(name),
        None => true,
    }
}

/// Whether the settings leave a toolset on. A tool of no toolset is always on.
pub open spec fn toolset_enabled(toolset: Option<Seq<char>>, context: RuntimeView) -> bool {
    match toolset {
        Some(toolset) => context.enabled_toolsets.contains(toolset),
        None => true,
    }
}

/// Whether a service is configured. The server itself always is.
pub open spec fn service_available(service: ToolService, context: RuntimeView) -> bool {
    match service {
        ToolService::Jira => context.jira is Some,
        ToolService::Confluence => context.confluence_url is Some,
        ToolService::Server => true,
    }
}

/// Whether a tool is on and its service is there.
pub open spec fn available(metadata: MetadataView, context: RuntimeView) -> bool {
    &&& name_enabled(metadata.name, context)
    &&& toolset_enabled(metadata.toolset, context)
    &&& service_available(metadata.service, context)
}

/// Whether a tool changes something where nothing may be changed.
pub open spec fn read_only_write(metadata: MetadataView, context: RuntimeView) -> bool {
    context.read_only && metadata.access == ToolAccess::Write
}

/// Whether a tool is shown to callers.
pub open spec fn discoverable(metadata: MetadataView, context: RuntimeView) -> bool {
    available(metadata, context) && !read_only_write(metadata, context)
}

/// Whether a tool may be called: it must be registered, on, its service there, and where
/// nothing may be changed it must change nothing.
pub open spec fn call_allowed(metadata: Option<MetadataView>, context: RuntimeView) -> Result<
    (),
    FailureView,
> {
    match metadata {
        None => Err(mcp_errors::invalid_params(TOOL_UNAVAILABLE_MESSAGE@)),
        Some(metadata) => if !available(metadata, context) {
            Err(mcp_errors::invalid_params(TOOL_UNAVAILABLE_MESSAGE@))
        } else if read_only_write(metadata, context) {
            Err(mcp_errors::invalid_params(READ_ONLY_MESSAGE@))
        } else {
            Ok(())
        },
    }
}

fn is_tool_enabled(metadata: ToolMetadata, context: &AppContext) -> (yes: bool)
    ensures
        yes == (name_enabled(metadata.name@, context@) && toolset_enabled(
            metadata.toolset.deep_view(),
            context@,
        )),
{
    if context.disabled_tools().contains(metadata.name) {
        return false;
    }
    if let Some(enabled) = context.enabled_tools() {
        if !enabled.is_empty() && !enabled.contains(metadata.name) {
            return false;
        }
    }
    is_toolset_enabled(metadata, context)
}

fn is_toolset_enabled(metadata: ToolMetadata, context: &AppContext) -> (yes: bool)
    ensures
        yes == toolset_enabled(metadata.toolset.deep_view(), context@),
{
    match metadata.toolset {
        Some(toolset) => context.enabled_toolsets().contains(toolset),
        None => true,
    }
}

fn is_service_available(metadata: ToolMetadata, context: &AppContext) -> (yes: bool)
    ensures
        yes == service_available(metadata.service, context@),
{
    let availability = context.service_availability();
    match metadata.service {
        ToolService::Jira => availability.jira,
        ToolService::Confluence => availability.confluence,
        ToolService::Server => true,
    }
}

fn is_read_only_write(metadata: ToolMetadata, context: &AppContext) -> (yes: bool)
    ensures
        yes == read_only_write(metadata.deep_view(), context@),
{
    context.read_only() && match metadata.access {
        ToolAccess::Write => true,
        ToolAccess::Read => false,
    }
}

fn is_discoverable(metadata: ToolMetadata, context: &AppContext) -> (yes: bool)
    ensures
        yes == discoverable(metadata.deep_view(), context@),
{
    is_tool_enabled(metadata, context) && is_service_available(metadata, context)
        && !is_read_only_write(metadata, context)
}

fn tool_unavailable_error() -> (error: ErrorData)
    ensures
        error@ == mcp_errors::invalid_params(TOOL_UNAVAILABLE_MESSAGE@),
{
    ErrorData::invalid_params(TOOL_UNAVAILABLE_MESSAGE.to_owned())
}

/// Decides on a call of the tool that is registered as `metadata`.
pub fn guard_metadata(metadata: Option<ToolMetadata>, context: &AppContext) -> (allowed: Result<
    (),
    ErrorData,
>)
    ensures
        outcome::of(allowed) == call_allowed(metadata.deep_view(), context@),
{
    match metadata {
        None => Err(tool_unavailable_error()),
        Some(metadata) => {
            if !is_tool_enabled(metadata, context) || !is_service_available(metadata, context) {
                return Err(tool_unavailable_error());
            }
            if is_read_only_write(metadata, context) {
                return Err(ErrorData::invalid_params(READ_ONLY_MESSAGE.to_owned()));
            }
            Ok(())
        },
    }
}

/// Decides on a call, with the registrations that `metadata_for` gives.
pub fn guard_tool_call_with_metadata<F: Fn(&str) -> Option<ToolMetadata>>(
    name: &str,
    context: &AppContext,
    metadata_for: F,
) -> (allowed: Result<(), ErrorData>)
    requires
        call_requires(metadata_for, (name,)),
    ensures
        exists|metadata: Option<ToolMetadata>| #[trigger]
            call_ensures(metadata_for, (name,), metadata) && outcome::of(allowed) == call_allowed(
                metadata.deep_view(),
                context@,
            ),
{
    guard_metadata(metadata_for(name), context)
}

/// Decides on a call of a registered tool.
pub fn guard_tool_call(name: &str, context: &AppContext) -> (allowed: Result<(), ErrorData>)
    ensures
        outcome::of(allowed) == call_allowed(registration(name@), context@),
{
    guard_tool_call_with_metadata(name, context, metadata_for)
}

/// Whether the names of these tools come in order.
pub open spec fn ordered_by_name(tools: Seq<ToolView>) -> bool {
    forall|i: int, j: int|
        0 <= i < j < tools.len() ==> !text::text_before(
            (#[trigger] tools[j]).name,
            (#[trigger] tools[i]).name,
        )
}

/// The tools of one name.
pub open spec fn named(tools: Seq<ToolView>, name: Seq<char>) -> Seq<ToolView> {
    tools.filter(|tool: ToolView| tool.name == name)
}

/// Whether `sorted` holds the tools of `tools`, in the order of their names; those of one
/// name stay in the order that they had.
pub open spec fn sorted_by_name(sorted: Seq<ToolView>, tools: Seq<ToolView>) -> bool {
    &&& ordered_by_name(sorted)
    &&& forall|name: Seq<char>| #[trigger] named(sorted, name) == named(tools, name)
}

/// Puts a tool behind those whose names come before its own or equal it.
fn insert_by_name(sorted: &mut Vec<Tool>, tool: Tool)
    requires
        ordered_by_name(old(sorted).deep_view()),
    ensures
        ordered_by_name(final(sorted).deep_view()),
        forall|name: Seq<char>| #[trigger]
            named(final(sorted).deep_view(), name) == named(
                old(sorted).deep_view().push(tool.deep_view()),
                name,
            ),
{
    let ghost views = sorted.deep_view();
    let mut place: usize = sorted.len();
    while place > 0 && comes_before(tool.name.as_str(), sorted[place - 1].name.as_str())
        invariant
            place <= sorted.len(),
            views == sorted.deep_view(),
            forall|k: int|
                place <= k < views.len() ==> text::text_before(
                    tool.name@,
                    (#[trigger] views[k]).name,
                ),
        decreases place,
    {
        place = place - 1;
    }
    let ghost view = tool.deep_view();
    sorted.insert(place, tool);
    proof {
        let left = views.take(place as int);
        let right = views.skip(place as int);
        let grown = sorted.deep_view();
        assert(grown =~= left + seq![view] + right);
        assert(views =~= left + right);
        assert(views.push(view) =~= views + seq![view]);
        if place > 0 {
            assert(!text::text_before(view.name, views[place - 1].name));
        }
        assert forall|i: int, j: int| 0 <= i < j < grown.len() implies !text::text_before(
            (#[trigger] grown[j]).name,
            (#[trigger] grown[i]).name,
        ) by {
            if j == place {
                assert(grown[i] == views[i]);
                text::lemma_text_before_total(views[place - 1].name, view.name);
                if i < place - 1 && text::text_before(view.name, views[i].name) {
                    text::lemma_text_before_total(views[i].name, views[place - 1].name);
                    if views[i].name != views[place - 1].name {
                        text::lemma_text_before_transitive(
                            view.name,
                            views[i].name,
                            views[place - 1].name,
                        );
                    }
                }
            } else if i == place {
                assert(grown[j] == views[j - 1]);
                text::lemma_text_before_total(view.name, views[j - 1].name);
            } else {
                let k = if i < place { i } else { i - 1 };
                let l = if j < place { j } else { j - 1 };
                assert(grown[i] == views[k]);
                assert(grown[j] == views[l]);
            }
        }
        assert forall|name: Seq<char>| #[trigger] named(grown, name) == named(
            views.push(view),
            name,
        ) by {
            let same = |tool: ToolView| tool.name == name;
            Seq::filter_distributes_over_add(left + seq![view], right, same);
            Seq::filter_distributes_over_add(left, seq![view], same);
            Seq::filter_distributes_over_add(left, right, same);
            Seq::filter_distributes_over_add(views, seq![view], same);
            reveal_with_fuel(Seq::<_>::filter, 2);
            assert(seq![view].drop_last() =~= Seq::<ToolView>::empty());
            assert(seq![view].last() == view);
            if view.name == name {
                if right.filter(same).len() > 0 {
                    right.lemma_filter_pred(same, 0);
                    right.lemma_filter_contains_rev(same, right.filter(same)[0]);
                    let k = choose|k: int| 0 <= k < right.len() && right[k] == right.filter(same)[0];
                    assert(views[place + k] == right[k]);
                    text::lemma_text_before_total(view.name, view.name);
                }
                assert(right.filter(same) =~= Seq::<ToolView>::empty());
            } else {
                assert(seq![view].filter(same) =~= Seq::<ToolView>::empty());
            }
            assert(named(grown, name) =~= named(views.push(view), name));
        }
    }
}

fn sort_by_name(tools: Vec<Tool>) -> (sorted: Vec<Tool>)
    ensures
        sorted_by_name(sorted.deep_view(), tools.deep_view()),
{
    let ghost views = tools.deep_view();
    let mut sorted: Vec<Tool> = Vec::new();
    let mut i: usize = 0;
    proof {
        assert(sorted.deep_view() =~= views.take(0));
    }
    while i < tools.len()
        invariant
            i <= tools.len(),
            views == tools.deep_view(),
            sorted_by_name(sorted.deep_view(), views.take(i as int)),
        decreases tools.len() - i,
    {
        let tool = tools[i].clone();
        let ghost before = sorted.deep_view();
        insert_by_name(&mut sorted, tool);
        proof {
            let view = tool.deep_view();
            assert(views.take(i + 1) =~= views.take(i as int).push(view));
            assert forall|name: Seq<char>| #[trigger] named(sorted.deep_view(), name) == named(
                views.take(i + 1),
                name,
            ) by {
                let same = |tool: ToolView| tool.name == name;
                reveal(Seq::filter);
                assert(named(before, name) == named(views.take(i as int), name));
                assert(before.push(view).drop_last() =~= before);
                assert(views.take(i as int).push(view).drop_last() =~= views.take(i as int));
            }
        }
        i = i + 1;
    }
    proof {
        assert(views.take(i as int) =~= views);
    }
    sorted
}

/// Whether `metadata_for` can answer `metadata` for a name.
pub open spec fn answers<F: Fn(&str) -> Option<ToolMetadata>>(
    metadata_for: F,
    name: Seq<char>,
    metadata: Option<ToolMetadata>,
) -> bool {
    exists|s: &str| s@ == name && #[trigger] call_ensures(metadata_for, (s,), metadata)
}

/// Whether a tool that is registered as `metadata` is shown to callers.
pub open spec fn shown_as(metadata: Option<MetadataView>, context: RuntimeView) -> bool {
    metadata matches Some(metadata) && discoverable(metadata, context)
}

/// The tools that are shown, where `seen` holds what each is registered as.
pub open spec fn shown_tools(
    tools: Seq<ToolView>,
    seen: Seq<Option<ToolMetadata>>,
    context: RuntimeView,
) -> Seq<ToolView>
    decreases tools.len(),
{
    if tools.len() == 0 {
        Seq::empty()
    } else {
        let before = shown_tools(tools.drop_last(), seen.drop_last(), context);
        if shown_as(seen.last().deep_view(), context) {
            before.push(tools.last())
        } else {
            before
        }
    }
}

/// Whether `visible` holds those of the tools that are shown where `metadata_for` says
/// what each is registered as, in the order of their names.
pub open spec fn visible_by<F: Fn(&str) -> Option<ToolMetadata>>(
    visible: Seq<ToolView>,
    tools: Seq<ToolView>,
    metadata_for: F,
    context: RuntimeView,
) -> bool {
    exists|seen: Seq<Option<ToolMetadata>>|
        {
            &&& seen.len() == tools.len()
            &&& forall|i: int|
                0 <= i < seen.len() ==> answers(metadata_for, tools[i].name, #[trigger] seen[i])
            &&& sorted_by_name(visible, #[trigger] shown_tools(tools, seen, context))
        }
}

/// The tools that are shown to callers, in the order of their names, with the
/// registrations that `metadata_for` gives.
pub fn visible_tools_with_metadata<F: Fn(&str) -> Option<ToolMetadata>>(
    tools: Vec<Tool>,
    context: &AppContext,
    metadata_for: F,
) -> (visible: Vec<Tool>)
    requires
        forall|s: &str| call_requires(metadata_for, (s,)),
    ensures
        visible_by(visible.deep_view(), tools.deep_view(), metadata_for, context@),
{
    let ghost views = tools.deep_view();
    let ghost mut seen: Seq<Option<ToolMetadata>> = Seq::empty();
    let mut kept: Vec<Tool> = Vec::new();
    let mut i: usize = 0;
    proof {
        assert(kept.deep_view() =~= Seq::empty());
    }
    while i < tools.len()
        invariant
            i <= tools.len(),
            forall|s: &str| call_requires(metadata_for, (s,)),
            views == tools.deep_view(),
            seen.len() == i,
            forall|k: int|
                0 <= k < seen.len() ==> answers(metadata_for, views[k].name, #[trigger] seen[k]),
            kept.deep_view() == shown_tools(views.take(i as int), seen, context@),
        decreases tools.len() - i,
    {
        let metadata = metadata_for(tools[i].name.as_str());
        let ghost before_seen = seen;
        proof {
            assert(views[i as int] == tools@[i as int].deep_view());
            assert(answers(metadata_for, views[i as int].name, metadata));
            seen = seen.push(metadata);
            assert(views.take(i + 1).drop_last() =~= views.take(i as int));
            assert(seen.drop_last() =~= before_seen);
        }
        let shown = match metadata {
            Some(metadata) => is_discoverable(metadata, context),
            None => false,
        };
        if shown {
            let tool = tools[i].clone();
            let ghost before = kept.deep_view();
            kept.push(tool);
            proof {
                assert(kept.deep_view() =~= before.push(tool.deep_view()));
            }
        }
        i = i + 1;
    }
    proof {
        assert(views.take(i as int) =~= views);
    }
    let visible = sort_by_name(kept);
    proof {
        assert(sorted_by_name(
            visible.deep_view(),
            shown_tools(tools.deep_view(), seen, context@),
        ));
    }
    visible
}

/// Whether a tool of this name is shown to callers.
pub open spec fn is_shown(name: Seq<char>, context: RuntimeView) -> bool {
    shown_as(registration(name), context)
}

/// Where each tool is seen as what it is registered as, the shown tools are those whose
/// names are shown.
proof fn lemma_shown_tools(
    tools: Seq<ToolView>,
    seen: Seq<Option<ToolMetadata>>,
    context: RuntimeView,
)
    requires
        seen.len() == tools.len(),
        forall|i: int|
            0 <= i < seen.len() ==> (#[trigger] seen[i]).deep_view() == registration(
                tools[i].name,
            ),
    ensures
        shown_tools(tools, seen, context) == tools.filter(
            |tool: ToolView| is_shown(tool.name, context),
        ),
    decreases tools.len(),
{
    reveal(Seq::filter);
    if tools.len() > 0 {
        let rest = tools.drop_last();
        let rest_seen = seen.drop_last();
        assert forall|i: int|
            0 <= i < rest_seen.len() implies (#[trigger] rest_seen[i]).deep_view()
            == registration(rest[i].name) by {
            assert(seen[i].deep_view() == registration(tools[i].name));
        }
        lemma_shown_tools(rest, rest_seen, context);
    }
}

/// The tools that are shown to callers, in the order of their names.
pub fn visible_tools(tools: Vec<Tool>, context: &AppContext) -> (visible: Vec<Tool>)
    ensures
        sorted_by_name(
            visible.deep_view(),
            tools.deep_view().filter(|tool: ToolView| is_shown(tool.name, context@)),
        ),
{
    let ghost views = tools.deep_view();
    let visible = visible_tools_with_metadata(tools, context, metadata_for);
    proof {
        let seen = choose|seen: Seq<Option<ToolMetadata>>|
            {
                &&& seen.len() == views.len()
                &&& forall|i: int|
                    0 <= i < seen.len() ==> answers(
                        metadata_for,
                        views[i].name,
                        #[trigger] seen[i],
                    )
                &&& sorted_by_name(
                    visible.deep_view(),
                    #[trigger] shown_tools(views, seen, context@),
                )
            };
        assert forall|i: int| 0 <= i < seen.len() implies (#[trigger] seen[i]).deep_view()
            == registration(views[i].name) by {
            assert(answers(metadata_for, views[i].name, seen[i]));
        }
        lemma_shown_tools(views, seen, context@);
    }
    visible
}

/// A tool is shown to callers exactly where a call of it is let through.
pub proof fn law_shown_tools_are_callable(name: Seq<char>, context: RuntimeView)
    ensures
        is_shown(name, context) == (call_allowed(registration(name), context) is Ok),
{
}

/// Where nothing may be changed, no tool that changes something is shown or let through,
/// and where it would be let through otherwise, that is the reason given.
pub proof fn law_read_only_stops_writes(metadata: MetadataView, context: RuntimeView)
    requires
        context.read_only,
        metadata.access == ToolAccess::Write,
    ensures
        !discoverable(metadata, context),
        call_allowed(Some(metadata), context) is Err,
        call_allowed(Some(metadata), RuntimeView { read_only: false, ..context }) is Ok
            ==> call_allowed(Some(metadata), context) == Err::<(), FailureView>(
            mcp_errors::invalid_params(READ_ONLY_MESSAGE@),
        ),
{
}

/// Read-only mode takes nothing away from tools that only read.
pub proof fn law_read_only_keeps_reads(metadata: MetadataView, context: RuntimeView)
    requires
        metadata.access == ToolAccess::Read,
    ensures
        discoverable(metadata, RuntimeView { read_only: true, ..context }) == discoverable(
            metadata,
            RuntimeView { read_only: false, ..context },
        ),
{
}

/// A name that is not registered is neither shown nor let through.
pub proof fn law_unregistered_tools_fail_closed(name: Seq<char>, context: RuntimeView)
    requires
        forall|i: int| 0 <= i < registered().len() ==> (#[trigger] registered()[i]).name != name,
    ensures
        !is_shown(name, context),
        call_allowed(registration(name), context) == Err::<(), FailureView>(
            mcp_errors::invalid_params(TOOL_UNAVAILABLE_MESSAGE@),
        ),
{
    lemma_not_named(registered(), name);
}

proof fn lemma_not_named(entries: Seq<MetadataView>, name: Seq<char>)
    requires
        forall|i: int| 0 <= i < entries.len() ==> (#[trigger] entries[i]).name != name,
    ensures
        first_named(entries, name) is None,
    decreases entries.len(),
{
    if entries.len() > 0 {
        let rest = entries.drop_first();
        assert forall|i: int| 0 <= i < rest.len() implies (#[trigger] rest[i]).name != name by {
            assert(rest[i] == entries[i + 1]);
        }
        lemma_not_named(rest, name);
    }
}

/// A tool of a service that is not configured is neither shown nor let through.
pub proof fn law_tools_need_their_service(metadata: MetadataView, context: RuntimeView)
    requires
        !service_available(metadata.service, context),
    ensures
        !discoverable(metadata, context),
        call_allowed(Some(metadata), context) == Err::<(), FailureView>(
            mcp_errors::invalid_params(TOOL_UNAVAILABLE_MESSAGE@),
        ),
{
}

/// A tool of a toolset that is not on is neither shown nor let through.
pub proof fn law_tools_need_their_toolset(metadata: MetadataView, context: RuntimeView)
    requires
        metadata.toolset matches Some(toolset) && !context.enabled_toolsets.contains(toolset),
    ensures
        !discoverable(metadata, context),
        call_allowed(Some(metadata), context) == Err::<(), FailureView>(
            mcp_errors::invalid_params(TOOL_UNAVAILABLE_MESSAGE@),
        ),
{
}

/// Where some tools are named, no other is shown; to name none is to filter nothing.
pub proof fn law_named_tools_are_the_only_ones(
    metadata: MetadataView,
    context: RuntimeView,
    tools: Seq<Seq<char>>,
)
    ensures
        tools.len() > 0 && !tools.contains(metadata.name) ==> !discoverable(
            metadata,
            RuntimeView { enabled_tools: Some(tools), ..context },
        ),
        tools.len() == 0 || tools.contains(metadata.name) ==> discoverable(
            metadata,
            RuntimeView { enabled_tools: Some(tools), ..context },
        ) == discoverable(metadata, RuntimeView { enabled_tools: None, ..context }),
{
}

/// To enable fewer tools or toolsets, or to disable more tools, never shows more.
pub proof fn law_filters_only_hide(
    metadata: MetadataView,
    context: RuntimeView,
    tools: Seq<Seq<char>>,
    toolsets: Seq<Seq<char>>,
    disabled: Seq<Seq<char>>,
)
    requires
        forall|toolset: Seq<char>| #[trigger]
            toolsets.contains(toolset) ==> context.enabled_toolsets.contains(toolset),
        forall|name: Seq<char>| #[trigger]
            context.disabled_tools.contains(name) ==> disabled.contains(name),
        context.enabled_tools is None,
    ensures
        discoverable(
            metadata,
            RuntimeView {
                enabled_tools: Some(tools),
                enabled_toolsets: toolsets,
                disabled_tools: disabled,
                ..context
            },
        ) ==> discoverable(metadata, context),
{
}

/// What is listed are the tools that are shown, and no other.
pub proof fn law_listed_tools_are_shown(
    listed: Seq<ToolView>,
    tools: Seq<ToolView>,
    context: RuntimeView,
    tool: ToolView,
)
    requires
        sorted_by_name(listed, tools.filter(|tool: ToolView| is_shown(tool.name, context))),
    ensures
        listed.contains(tool) == (tools.contains(tool) && is_shown(tool.name, context)),
{
    let shown = |tool: ToolView| is_shown(tool.name, context);
    let kept = tools.filter(shown);
    let same = |other: ToolView| other.name == tool.name;
    assert(named(listed, tool.name) == named(kept, tool.name));
    lemma_filter_membership(listed, same, tool);
    lemma_filter_membership(kept, same, tool);
    lemma_filter_membership(tools, shown, tool);
}

proof fn lemma_filter_membership<T>(s: Seq<T>, kept: spec_fn(T) -> bool, x: T)
    ensures
        s.filter(kept).contains(x) == (s.contains(x) && kept(x)),
{
    if s.contains(x) && kept(x) {
        let i = choose|i: int| 0 <= i < s.len() && s[i] == x;
        s.lemma_filter_contains(kept, i);
    }
    if s.filter(kept).contains(x) {
        let i = choose|i: int| 0 <= i < s.filter(kept).len() && s.filter(kept)[i] == x;
        s.lemma_filter_pred(kept, i);
        s.lemma_filter_contains_rev(kept, x);
    }
}

/// Whether all toolsets of the first are among those of the second.
pub open spec fn toolsets_within(inner: Seq<Seq<char>>, outer: Seq<Seq<char>>) -> bool {
    forall|i: int| 0 <= i < inner.len() ==> outer.contains(#[trigger] inner[i])
}

/// Each profile has the toolsets of the one before it: basic, developer, manager, full.
pub proof fn law_profiles_grow()
    ensures
        toolsets_within(
            default_toolset_names(),
            default_toolset_names() + developer_extras(),
        ),
        toolsets_within(
            default_toolset_names() + developer_extras(),
            default_toolset_names() + developer_extras() + manager_extras(),
        ),
        toolsets_within(
            default_toolset_names() + developer_extras() + manager_extras(),
            all_toolset_names(),
        ),
{
    let basic = default_toolset_names();
    let developer = basic + developer_extras();
    let manager = developer + manager_extras();
    let all = all_toolset_names();
    assert forall|i: int| 0 <= i < basic.len() implies developer.contains(#[trigger] basic[i]) by {
        assert(developer[i] == basic[i]);
    }
    assert forall|i: int| 0 <= i < developer.len() implies manager.contains(
        #[trigger] developer[i],
    ) by {
        assert(manager[i] == developer[i]);
    }
    assert(all[0] == manager[0]);
    assert(all[1] == manager[1]);
    assert(all[5] == manager[2]);
    assert(all[6] == manager[3]);
    assert(all[7] == manager[4]);
    assert(all[8] == manager[5]);
    assert(all[9] == manager[6]);
    assert(all[24] == manager[7]);
    assert(all[28] == manager[8]);
    assert(all[30] == manager[9]);
    assert(all[12] == manager[10]);
    assert(all[13] == manager[11]);
    assert(all[15] == manager[12]);
    assert(all[16] == manager[13]);
    assert(all[17] == manager[14]);
    assert(all[23] == manager[15]);
    assert(all[27] == manager[16]);
    assert(all[34] == manager[17]);
    assert(all[14] == manager[18]);
    assert(all[2] == manager[19]);
    assert(all[3] == manager[20]);
    assert(all[4] == manager[21]);
    assert(all[10] == manager[22]);
    assert(all[11] == manager[23]);
    assert(all[18] == manager[24]);
    assert(all[19] == manager[25]);
    assert(all[20] == manager[26]);
    assert(all[25] == manager[27]);
    assert(all[29] == manager[28]);
    assert(all[31] == manager[29]);
    assert(all[35] == manager[30]);
}

} // verus!
