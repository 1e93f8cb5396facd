//! The server's tools: what may be seen and called, and what each call asks for.

use vstd::prelude::*;

use crate::atlassian::http::{ApiRequest, Method};
use crate::config::RuntimeView;
use crate::context::AppContext;
use crate::jira::client;
use crate::jira::client::{
    ClientView, FieldOptionsRequest, FieldOptionsView, GetIssueRequest, GetIssueView, JiraClient,
    SearchRequest, SearchView,
};
use crate::jira::config::JiraDeployment;
use crate::jira::formatting;
use crate::jira::tools::{
    JiraAddCommentArgs, JiraAddIssuesToSprintArgs, JiraAddWatcherArgs, JiraAddWorklogArgs,
    JiraBatchCreateIssuesArgs, JiraBatchCreateVersionsArgs, JiraBatchGetChangelogsArgs,
    JiraCreateIssueArgs, JiraCreateIssueLinkArgs, JiraCreateRemoteIssueLinkArgs,
    JiraCreateSprintArgs, JiraCreateVersionArgs, JiraDeleteIssueArgs,
    JiraDownloadAttachmentsArgs, JiraEditCommentArgs, JiraGetAgileBoardsArgs,
    JiraGetAllProjectsArgs, JiraGetBoardIssuesArgs, JiraGetFieldOptionsArgs, JiraGetIssueArgs,
    JiraGetIssueDatesArgs, JiraGetIssueDevelopmentInfoArgs, JiraGetIssueImagesArgs,
    JiraGetIssueProformaFormsArgs, JiraGetIssueSlaArgs, JiraGetIssueWatchersArgs,
    JiraGetIssuesDevelopmentInfoArgs, JiraGetProformaFormDetailsArgs,
    JiraGetProjectComponentsArgs, JiraGetProjectIssuesArgs, JiraGetProjectVersionsArgs,
    JiraGetQueueIssuesArgs, JiraGetServiceDeskForProjectArgs, JiraGetServiceDeskQueuesArgs,
    JiraGetSprintIssuesArgs, JiraGetSprintsFromBoardArgs, JiraGetTransitionsArgs,
    JiraGetUserProfileArgs, JiraGetWorklogArgs, JiraLinkToEpicArgs, JiraRemoveIssueLinkArgs,
    JiraRemoveWatcherArgs, JiraSearchArgs, JiraTransitionIssueArgs, JiraUpdateIssueArgs,
    JiraUpdateProformaFormAnswersArgs, JiraUpdateSprintArgs,
};
use crate::json::{Json, JsonView};
use crate::mcp::args::{
    optional_non_empty_arg, optional_positive_i64_arg, optional_positive_u64_arg,
    parse_optional_object_arg, parse_optional_string_list_arg, parse_required_object_list_arg,
    parse_required_string_list_arg, required_non_empty_arg,
};
use crate::mcp::calls::{CallView, ClientCall};
use crate::mcp::payloads::{
    add_worklog_payload_from_args, batch_create_issue_updates_from_args,
    create_issue_fields_from_args, create_sprint_payload_from_args, issue_link_payload_from_args,
    remote_issue_link_payload_from_args, update_issue_fields_from_args,
    update_sprint_payload_from_args, version_payload_from_args, version_payloads_from_args,
    UpdateView,
};
use crate::mcp_errors::{jira_error, ErrorData, FailureView};
use crate::text::{concat3, contains, copy_optional_text};
use crate::tool_registry::{
    guard_tool_call, metadata_for, registered_tools, visible_tools, visible_tools_with_metadata,
    MetadataView, Tool, ToolMetadata, ToolView,
};
use crate::{json, lists, mcp_errors, outcome, text, tool_registry};

pub mod args;
pub mod calls;
pub mod laws;
pub mod payloads;
pub mod tool_laws;

verus! {

pub const SERVER_NAME: &'static str = "mcp-atlassian-rs";

pub const SERVER_VERSION: &'static str = "0.1.0";

pub const MIGRATION_STATUS: &'static str = "mcp-atlassian-rs Stage 2 Jira core migration is complete. \
The Stage 1 MCP runtime/control plane and Stage 2 Jira config/auth/client/models/tool handlers are implemented. \
Jira core tools are available when Jira configuration and authentication are complete. \
Mock REST tests, MCP smoke checks, README, and the migration ledger are up to date.";

/// The server: its tools under its settings.
#[derive(Debug)]
pub struct AtlassianMcpServer {
    pub context: AppContext,
}

impl View for AtlassianMcpServer {
    type V = RuntimeView;

    open spec fn view(&self) -> RuntimeView {
        self.context@
    }
}

impl Default for AtlassianMcpServer {
    fn default() -> (server: Self)
        ensures
            !server@.read_only,
            server@.enabled_tools is None,
            server@.disabled_tools.len() == 0,
            server@.enabled_toolsets.to_set() == tool_registry::all_toolset_names().to_set(),
            server@.jira is None,
            server@.confluence_url is None,
            server@.atlassian_oauth_cloud_id is None,
    {
        AtlassianMcpServer { context: AppContext::default() }
    }
}

/// The request that a call makes.
pub type Made = Result<ApiRequest, ErrorData>;

/// What a call asks of Jira, and the client to ask it through.
pub type Plan = Result<(JiraClient, ClientCall), ErrorData>;

/// What the server tells of itself.
#[derive(Debug)]
pub struct ServerInfo {
    pub name: String,
    pub version: String,
    pub instructions: String,
    pub tools: bool,
    pub prompts: bool,
    pub resources: bool,
}

/// The tools that there are routes for, as they are shown.
pub open spec fn routes() -> Seq<ToolView> {
    tool_registry::registered().map_values(
        |metadata: MetadataView|
            ToolView { name: metadata.name, description: metadata.description },
    )
}

/// How the server says what may be done through it.
pub open spec fn access_mode(read_only: bool) -> Seq<char> {
    if read_only {
        "read-only"@
    } else {
        "read/write"@
    }
}

/// Whether a flag is set; it is not where nothing is said.
pub open spec fn is_set(flag: Option<bool>) -> bool {
    flag == Some(true)
}

fn flag(value: Option<bool>) -> (set: bool)
    ensures
        set == is_set(value),
{
    match value {
        Some(value) => value,
        None => false,
    }
}

/// The refusal of a call that needs Jira where it is not configured.
pub open spec fn not_configured() -> FailureView {
    mcp_errors::invalid_params("Jira is not configured"@)
}

/// The client of the configured Jira service.
pub open spec fn client_for(context: RuntimeView) -> Result<ClientView, FailureView> {
    match context.jira {
        Some(config) => args::answered(client::client_of(config)),
        None => Err(not_configured()),
    }
}

/// The kind of the configured Jira service.
pub open spec fn deployment_for(context: RuntimeView) -> Result<JiraDeployment, FailureView> {
    match context.jira {
        Some(config) => Ok(config.deployment),
        None => Err(not_configured()),
    }
}

/// Whether the name of a link type holds a text that is in lowercase already, whatever
/// the case of the name's letters.
pub open spec fn link_type_matches(link_type: JsonView, wanted: Seq<char>) -> bool {
    link_type.member("name"@) matches Some(JsonView::Text(name)) && text::contains_text(
        text::unicode_lowercase(name),
        wanted,
    )
}

/// A listing of link types, narrowed to those whose name holds a text.
pub open spec fn narrowed_link_types(value: JsonView, name_filter: Option<Seq<char>>) -> JsonView {
    match (args::optional_text(name_filter), value.member("issueLinkTypes"@)) {
        (Some(wanted), Some(JsonView::Array(types))) => value.with(
            "issueLinkTypes"@,
            JsonView::Array(
                types.filter(
                    |link_type: JsonView|
                        link_type_matches(link_type, text::unicode_lowercase(wanted)),
                ),
            ),
        ),
        _ => value,
    }
}

fn holds_name(link_type: &Json, wanted: &str) -> (yes: bool)
    ensures
        yes == link_type_matches(link_type@, wanted@),
{
    match link_type.get("name") {
        Some(Json::Text(name)) => contains(name.as_str().to_lowercase().as_str(), wanted),
        _ => false,
    }
}

fn retain_named(types: &Vec<Json>, wanted: &str) -> (kept: Vec<Json>)
    ensures
        kept.deep_view() == types.deep_view().filter(
            |link_type: JsonView| link_type_matches(link_type, wanted@),
        ),
{
    let ghost views = types.deep_view();
    let ghost keep = |link_type: JsonView| link_type_matches(link_type, wanted@);
    let mut kept: Vec<Json> = Vec::new();
    let mut i: usize = 0;
    proof {
        lists::lemma_filter_none(views, keep);
        assert(kept.deep_view() =~= Seq::empty());
    }
    while i < types.len()
        invariant
            i <= types.len(),
            views == types.deep_view(),
            keep == (|link_type: JsonView| link_type_matches(link_type, wanted@)),
            kept.deep_view() == views.take(i as int).filter(keep),
        decreases types.len() - i,
    {
        proof {
            lists::lemma_filter_next(views, keep, i as int);
            assert(views[i as int] == types@[i as int]@);
        }
        if holds_name(&types[i], wanted) {
            let link_type = types[i].clone();
            let ghost before = kept.deep_view();
            kept.push(link_type);
            proof {
                assert(kept.deep_view() =~= before.push(link_type@));
            }
        }
        i = i + 1;
    }
    proof {
        assert(views.take(i as int) =~= views);
    }
    kept
}

/// A listing of link types, narrowed to those whose name holds a text.
pub fn filter_link_types(value: Json, name_filter: Option<String>) -> (narrowed: Json)
    ensures
        narrowed@ == narrowed_link_types(value@, name_filter.deep_view()),
{
    let wanted = match optional_non_empty_arg(name_filter) {
        Some(wanted) => wanted.as_str().to_lowercase(),
        None => {
            return value;
        },
    };
    let types = match value.get("issueLinkTypes") {
        Some(types) => types.as_array(),
        None => None,
    };
    let kept = match types {
        Some(types) => retain_named(types, wanted.as_str()),
        None => {
            return value;
        },
    };
    let mut value = value;
    value.set("issueLinkTypes", Json::array(kept));
    value
}

impl AtlassianMcpServer {
    /// A server under these settings.
    pub fn new(context: AppContext) -> (server: AtlassianMcpServer)
        ensures
            server@ == context@,
    {
        AtlassianMcpServer { context }
    }

    /// All tools that there are routes for.
    pub fn all_tools() -> (tools: Vec<Tool>)
        ensures
            tools.deep_view() == routes(),
    {
        let registered = registered_tools();
        let mut tools: Vec<Tool> = Vec::new();
        let mut i: usize = 0;
        while i < registered.len()
            invariant
                i <= registered.len(),
                registered.deep_view() == tool_registry::registered(),
                tools.deep_view() =~= routes().take(i as int),
            decreases registered.len() - i,
        {
            let tool = Tool {
                name: registered[i].name.to_owned(),
                description: registered[i].description.to_owned(),
            };
            let ghost before = tools.deep_view();
            tools.push(tool);
            proof {
                assert(tools.deep_view() =~= before.push(tool.deep_view()));
                assert(tool_registry::registered()[i as int] == registered@[i as int].deep_view());
            }
            i = i + 1;
        }
        proof {
            assert(routes().take(i as int) =~= routes());
        }
        tools
    }

    /// The tools that are shown, in the order of their names.
    pub fn current_tools_result(&self) -> (visible: Vec<Tool>)
        ensures
            tool_registry::sorted_by_name(
                visible.deep_view(),
                routes().filter(|tool: ToolView| tool_registry::is_shown(tool.name, self@)),
            ),
    {
        self.filtered_tools_from(AtlassianMcpServer::all_tools())
    }

    /// Those of these tools that are shown, in the order of their names.
    pub fn filtered_tools_from(&self, tools: Vec<Tool>) -> (visible: Vec<Tool>)
        ensures
            tool_registry::sorted_by_name(
                visible.deep_view(),
                tools.deep_view().filter(
                    |tool: ToolView| tool_registry::is_shown(tool.name, self@),
                ),
            ),
    {
        visible_tools(tools, &self.context)
    }

    /// Those of these tools that are shown, in the order of their names, with the
    /// registrations that `metadata_for` gives.
    pub fn filtered_tools_from_with_metadata<F: Fn(&str) -> Option<ToolMetadata>>(
        &self,
        tools: Vec<Tool>,
        metadata_for: F,
    ) -> (visible: Vec<Tool>)
        requires
            forall|s: &str| call_requires(metadata_for, (s,)),
        ensures
            tool_registry::visible_by(
                visible.deep_view(),
                tools.deep_view(),
                metadata_for,
                self@,
            ),
    {
        visible_tools_with_metadata(tools, &self.context, metadata_for)
    }

    /// Decides on a call.
    pub fn guard_registered_tool_call(&self, name: &str) -> (allowed: Result<(), ErrorData>)
        ensures
            outcome::of(allowed) == tool_registry::call_allowed(
                tool_registry::registration(name@),
                self@,
            ),
    {
        if metadata_for(name).is_none() {
            return Err(
                ErrorData::invalid_params(tool_registry::TOOL_UNAVAILABLE_MESSAGE.to_owned()),
            );
        }
        guard_tool_call(name, &self.context)
    }

    /// Decides on a call, with the registrations that `metadata_for` gives; without a
    /// route no call is let through.
    pub fn guard_tool_call_with_metadata<F: Fn(&str) -> Option<ToolMetadata>>(
        &self,
        name: &str,
        route_exists: bool,
        metadata_for: F,
    ) -> (allowed: Result<(), ErrorData>)
        requires
            call_requires(metadata_for, (name,)),
        ensures
            if route_exists {
                exists|metadata: Option<ToolMetadata>| #[trigger]
                    call_ensures(metadata_for, (name,), metadata) && outcome::of(allowed)
                        == tool_registry::call_allowed(metadata.deep_view(), self@)
            } else {
                outcome::of(allowed) == tool_registry::call_allowed(None, self@)
            },
    {
        if !route_exists {
            return Err(
                ErrorData::invalid_params(tool_registry::TOOL_UNAVAILABLE_MESSAGE.to_owned()),
            );
        }
        tool_registry::guard_tool_call_with_metadata(name, &self.context, metadata_for)
    }

    /// A tool, where it is shown.
    pub fn get_tool(&self, name: &str) -> (tool: Option<Tool>)
        ensures
            tool.deep_view() == (if tool_registry::is_shown(name@, self@) {
                Some(
                    ToolView {
                        name: name@,
                        description: tool_registry::registration(name@)->0.description,
                    },
                )
            } else {
                None
            }),
    {
        proof {
            tool_registry::lemma_first_named(tool_registry::registered(), name@);
        }
        match metadata_for(name) {
            Some(metadata) => match guard_tool_call(name, &self.context) {
                Ok(_) => Some(
                    Tool {
                        name: metadata.name.to_owned(),
                        description: metadata.description.to_owned(),
                    },
                ),
                Err(_) => None,
            },
            None => None,
        }
    }

    /// What the server tells of itself.
    pub fn get_info(&self) -> (info: ServerInfo)
        ensures
            info.name@ == SERVER_NAME@,
            info.version@ == SERVER_VERSION@,
            info.instructions@
                == "Rust MCP Atlassian Stage 2 migration. The MCP control plane is initialized in "@
                + access_mode(self@.read_only)
                + " mode. Jira core tools are available when Jira configuration and authentication are complete; Confluence tools are not migrated yet."@,
            info.tools,
            !info.prompts,
            !info.resources,
    {
        let access_mode = if self.context.read_only() {
            "read-only"
        } else {
            "read/write"
        };
        ServerInfo {
            name: SERVER_NAME.to_owned(),
            version: SERVER_VERSION.to_owned(),
            instructions: concat3(
                "Rust MCP Atlassian Stage 2 migration. The MCP control plane is initialized in ",
                access_mode,
                " mode. Jira core tools are available when Jira configuration and authentication are complete; Confluence tools are not migrated yet.",
            ),
            tools: true,
            prompts: false,
            resources: false,
        }
    }

    /// The client of the configured Jira service.
    pub fn jira_client(&self) -> (made: Result<JiraClient, ErrorData>)
        ensures
            outcome::of(made) == client_for(self@),
    {
        match self.context.jira_config() {
            Some(config) => match JiraClient::new(config.clone()) {
                Ok(made) => Ok(made),
                Err(error) => Err(jira_error(error)),
            },
            None => Err(ErrorData::invalid_params("Jira is not configured".to_owned())),
        }
    }

    fn deployment(&self) -> (deployment: Result<JiraDeployment, ErrorData>)
        ensures
            match deployment {
                Ok(deployment) => deployment_for(self@) == Ok::<JiraDeployment, FailureView>(
                    deployment,
                ),
                Err(error) => deployment_for(self@) == Err::<JiraDeployment, FailureView>(error@),
            },
    {
        match self.context.jira_config() {
            Some(config) => Ok(config.deployment),
            None => Err(ErrorData::invalid_params("Jira is not configured".to_owned())),
        }
    }

    /// The text of the tool that tells of the server's own state.
    pub fn migration_status(&self) -> (status: String)
        ensures
            status@ == MIGRATION_STATUS@,
    {
        MIGRATION_STATUS.to_owned()
    }

    /// The request that reads an issue.
    pub fn jira_get_issue(&self, args: JiraGetIssueArgs) -> (made: Made)
        ensures
            outcome::of(made) == outcome::and_then(
                args::answered(
                    formatting::optional_string_list_argument(args.fields.deep_view(), "fields"@),
                ),
                |fields: Option<Seq<Seq<char>>>|
                    outcome::and_then(
                        args::answered(
                            formatting::optional_string_list_argument(
                                args.expand.deep_view(),
                                "expand"@,
                            ),
                        ),
                        |expand: Option<Seq<Seq<char>>>|
                            outcome::and_then(
                                args::answered(
                                    formatting::optional_string_list_argument(
                                        args.properties.deep_view(),
                                        "properties"@,
                                    ),
                                ),
                                |properties: Option<Seq<Seq<char>>>|
                                    outcome::and_then(
                                        client_for(self@),
                                        |client: ClientView|
                                            args::answered(
                                                client.get_issue_request(
                                                    GetIssueView {
                                                        issue_key: args.issue_key@,
                                                        fields,
                                                        expand,
                                                        comment_limit: args.comment_limit,
                                                        properties,
                                                        update_history: args.update_history,
                                                    },
                                                ),
                                            ),
                                    ),
                            ),
                    ),
            ),
    {
        let fields = parse_optional_string_list_arg(args.fields, "fields")?;
        let expand = parse_optional_string_list_arg(args.expand, "expand")?;
        let properties = parse_optional_string_list_arg(args.properties, "properties")?;
        let client = self.jira_client()?;
        match client.get_issue(
            GetIssueRequest {
                issue_key: args.issue_key,
                fields,
                expand,
                comment_limit: args.comment_limit,
                properties,
                update_history: args.update_history,
            },
        ) {
            Ok(made) => Ok(made),
            Err(error) => Err(jira_error(error)),
        }
    }

    /// The request that searches issues.
    pub fn jira_search(&self, args: JiraSearchArgs) -> (made: Made)
        ensures
            outcome::of(made) == outcome::and_then(
                args::answered(
                    formatting::optional_string_list_argument(args.fields.deep_view(), "fields"@),
                ),
                |fields: Option<Seq<Seq<char>>>|
                    outcome::and_then(
                        args::answered(
                            formatting::optional_string_list_argument(
                                args.expand.deep_view(),
                                "expand"@,
                            ),
                        ),
                        |expand: Option<Seq<Seq<char>>>|
                            outcome::and_then(
                                args::answered(
                                    formatting::optional_string_list_argument(
                                        args.projects_filter.deep_view(),
                                        "projects_filter"@,
                                    ),
                                ),
                                |projects_filter: Option<Seq<Seq<char>>>|
                                    outcome::and_then(
                                        client_for(self@),
                                        |client: ClientView|
                                            args::answered(
                                                client.search_request(
                                                    SearchView {
                                                        jql: args.jql@,
                                                        fields,
                                                        limit: args.limit,
                                                        start_at: args.start_at,
                                                        projects_filter,
                                                        expand,
                                                        page_token: args.page_token.deep_view(),
                                                    },
                                                ),
                                            ),
                                    ),
                            ),
                    ),
            ),
    {
        let fields = parse_optional_string_list_arg(args.fields, "fields")?;
        let expand = parse_optional_string_list_arg(args.expand, "expand")?;
        let projects_filter = parse_optional_string_list_arg(
            args.projects_filter,
            "projects_filter",
        )?;
        let client = self.jira_client()?;
        match client.search(
            SearchRequest {
                jql: args.jql,
                fields,
                limit: args.limit,
                start_at: args.start_at,
                projects_filter,
                expand,
                page_token: args.page_token,
            },
        ) {
            Ok(made) => Ok(made),
            Err(error) => Err(jira_error(error)),
        }
    }

    /// The request that lists the issues of a project.
    pub fn jira_get_project_issues(&self, args: JiraGetProjectIssuesArgs) -> (made: Made)
        ensures
            outcome::of(made) == outcome::and_then(
                client_for(self@),
                |client: ClientView|
                    args::answered(
                        client.project_issues_request(
                            args.project_key@,
                            args.limit,
                            args.start_at,
                        ),
                    ),
            ),
    {
        let client = self.jira_client()?;
        match client.get_project_issues(args.project_key, args.limit, args.start_at) {
            Ok(made) => Ok(made),
            Err(error) => Err(jira_error(error)),
        }
    }

    /// The request that lists fields; `JiraClient::read_fields_reply` reads the reply.
    pub fn jira_search_fields(&self) -> (made: Made)
        ensures
            outcome::of(made) == outcome::and_then(
                client_for(self@),
                |client: ClientView|
                    args::answered(client.http.request_to(Method::Get, "/rest/api/2/field"@, None)),
            ),
    {
        let client = self.jira_client()?;
        match client.search_fields() {
            Ok(made) => Ok(made),
            Err(error) => Err(jira_error(error)),
        }
    }

    /// The request that lists the options of a field; `JiraClient::read_field_options_reply`
    /// reads the reply.
    pub fn jira_get_field_options(&self, args: &JiraGetFieldOptionsArgs) -> (made: Made)
        ensures
            outcome::of(made) == outcome::and_then(
                client_for(self@),
                |client: ClientView|
                    args::answered(client.field_options_request(field_options_view(*args))),
            ),
    {
        let client = self.jira_client()?;
        let request = field_options_request(args);
        match client.get_field_options(&request) {
            Ok(made) => Ok(made),
            Err(error) => Err(jira_error(error)),
        }
    }

    /// The request that posts a comment.
    pub fn jira_add_comment(&self, args: JiraAddCommentArgs) -> (made: Made)
        ensures
            outcome::of(made) == outcome::and_then(
                args::answered(
                    formatting::optional_object_argument(
                        args.visibility.deep_view(),
                        "visibility"@,
                    ),
                ),
                |visibility: Option<JsonView>|
                    outcome::and_then(
                        client_for(self@),
                        |client: ClientView|
                            args::answered(
                                client.add_comment_request(
                                    args.issue_key@,
                                    args.body@,
                                    visibility,
                                ),
                            ),
                    ),
            ),
    {
        let visibility = parse_optional_object_arg(args.visibility, "visibility")?;
        let client = self.jira_client()?;
        match client.add_comment(args.issue_key, args.body, visibility) {
            Ok(made) => Ok(made),
            Err(error) => Err(jira_error(error)),
        }
    }

    /// The request that replaces a comment.
    pub fn jira_edit_comment(&self, args: JiraEditCommentArgs) -> (made: Made)
        ensures
            outcome::of(made) == outcome::and_then(
                args::answered(
                    formatting::optional_object_argument(
                        args.visibility.deep_view(),
                        "visibility"@,
                    ),
                ),
                |visibility: Option<JsonView>|
                    outcome::and_then(
                        client_for(self@),
                        |client: ClientView|
                            args::answered(
                                client.edit_comment_request(
                                    args.issue_key@,
                                    args.comment_id@,
                                    args.body@,
                                    visibility,
                                ),
                            ),
                    ),
            ),
    {
        let visibility = parse_optional_object_arg(args.visibility, "visibility")?;
        let client = self.jira_client()?;
        match client.edit_comment(args.issue_key, args.comment_id, args.body, visibility) {
            Ok(made) => Ok(made),
            Err(error) => Err(jira_error(error)),
        }
    }

    /// The request that lists the transitions of an issue.
    pub fn jira_get_transitions(&self, args: JiraGetTransitionsArgs) -> (made: Made)
        ensures
            outcome::of(made) == outcome::and_then(
                client_for(self@),
                |client: ClientView|
                    args::answered(client.transitions_request(args.issue_key@)),
            ),
    {
        let client = self.jira_client()?;
        match client.get_transitions(args.issue_key) {
            Ok(made) => Ok(made),
            Err(error) => Err(jira_error(error)),
        }
    }

    /// The request that takes an issue through a transition;
    /// `JiraClient::read_transition_reply` reads the reply.
    pub fn jira_transition_issue(&self, args: JiraTransitionIssueArgs) -> (made: Made)
        ensures
            outcome::of(made) == outcome::and_then(
                args::answered(
                    formatting::optional_object_argument(args.fields.deep_view(), "fields"@),
                ),
                |fields: Option<JsonView>|
                    outcome::and_then(
                        client_for(self@),
                        |client: ClientView|
                            args::answered(
                                client.transition_request(
                                    args.issue_key@,
                                    args.transition_id@,
                                    fields,
                                    args.comment.deep_view(),
                                ),
                            ),
                    ),
            ),
    {
        let fields = parse_optional_object_arg(args.fields, "fields")?;
        let client = self.jira_client()?;
        match client.transition_issue(args.issue_key, args.transition_id, fields, args.comment) {
            Ok(made) => Ok(made),
            Err(error) => Err(jira_error(error)),
        }
    }

    /// The creation of an issue.
    pub fn jira_create_issue(&self, args: JiraCreateIssueArgs) -> (plan: Plan)
        ensures
            outcome::of(plan) == outcome::and_then(
                deployment_for(self@),
                |deployment: JiraDeployment|
                    outcome::and_then(
                        payloads::new_issue_fields(args@, deployment),
                        |fields: JsonView|
                            outcome::and_then(
                                client_for(self@),
                                |client: ClientView|
                                    Ok((client, CallView::CreateIssue { fields })),
                            ),
                    ),
            ),
    {
        let deployment = self.deployment()?;
        let fields = create_issue_fields_from_args(args, deployment)?;
        let client = self.jira_client()?;
        Ok((client, ClientCall::CreateIssue { fields }))
    }

    /// The creation of many issues.
    pub fn jira_batch_create_issues(&self, args: JiraBatchCreateIssuesArgs) -> (plan: Plan)
        ensures
            outcome::of(plan) == outcome::and_then(
                deployment_for(self@),
                |deployment: JiraDeployment|
                    outcome::and_then(
                        payloads::issue_updates(args.issues@, deployment),
                        |issue_updates: Seq<JsonView>|
                            outcome::and_then(
                                client_for(self@),
                                |client: ClientView|
                                    Ok(
                                        (
                                            client,
                                            CallView::BatchCreateIssues {
                                                issue_updates,
                                                validate_only: is_set(args.validate_only),
                                            },
                                        ),
                                    ),
                            ),
                    ),
            ),
    {
        let deployment = self.deployment()?;
        let issue_updates = batch_create_issue_updates_from_args(args.issues, deployment)?;
        let client = self.jira_client()?;
        Ok(
            (
                client,
                ClientCall::BatchCreateIssues {
                    issue_updates,
                    validate_only: flag(args.validate_only),
                },
            ),
        )
    }

    /// The reading of the changelogs of issues.
    pub fn jira_batch_get_changelogs(&self, args: JiraBatchGetChangelogsArgs) -> (plan: Plan)
        ensures
            outcome::of(plan) == outcome::and_then(
                args::answered(
                    formatting::string_list_argument(
                        args.issue_ids_or_keys@,
                        "issue_ids_or_keys"@,
                    ),
                ),
                |issue_ids_or_keys: Seq<Seq<char>>|
                    outcome::and_then(
                        args::answered(
                            formatting::optional_string_list_argument(
                                args.fields.deep_view(),
                                "fields"@,
                            ),
                        ),
                        |fields: Option<Seq<Seq<char>>>|
                            outcome::and_then(
                                args::positive_i64(args.limit, "limit"@),
                                |limit: Option<i64>|
                                    outcome::and_then(
                                        client_for(self@),
                                        |client: ClientView|
                                            Ok(
                                                (
                                                    client,
                                                    CallView::BatchGetChangelogs {
                                                        issue_ids_or_keys,
                                                        fields,
                                                        limit,
                                                    },
                                                ),
                                            ),
                                    ),
                            ),
                    ),
            ),
    {
        let issue_ids_or_keys = parse_required_string_list_arg(
            args.issue_ids_or_keys,
            "issue_ids_or_keys",
        )?;
        let fields = parse_optional_string_list_arg(args.fields, "fields")?;
        let limit = optional_positive_i64_arg(args.limit, "limit")?;
        let client = self.jira_client()?;
        Ok((client, ClientCall::BatchGetChangelogs { issue_ids_or_keys, fields, limit }))
    }

    /// The update of an issue.
    pub fn jira_update_issue(&self, args: JiraUpdateIssueArgs) -> (plan: Plan)
        ensures
            outcome::of(plan) == outcome::and_then(
                deployment_for(self@),
                |deployment: JiraDeployment|
                    outcome::and_then(
                        payloads::issue_update_of(args, deployment),
                        |update: (UpdateView, Option<JsonView>)|
                            outcome::and_then(
                                client_for(self@),
                                |client: ClientView|
                                    Ok(
                                        (
                                            client,
                                            CallView::UpdateIssue {
                                                issue_key: update.0.issue_key,
                                                fields: update.0.fields,
                                                additional_fields: update.1,
                                                notify_users: update.0.notify_users,
                                            },
                                        ),
                                    ),
                            ),
                    ),
            ),
    {
        let deployment = self.deployment()?;
        let update = update_issue_fields_from_args(args, deployment)?;
        let client = self.jira_client()?;
        Ok(
            (
                client,
                ClientCall::UpdateIssue {
                    issue_key: update.0.issue_key,
                    fields: update.0.fields,
                    additional_fields: update.1,
                    notify_users: update.0.notify_users,
                },
            ),
        )
    }

    /// The deletion of an issue.
    pub fn jira_delete_issue(&self, args: JiraDeleteIssueArgs) -> (plan: Plan)
        ensures
            outcome::of(plan) == outcome::and_then(
                client_for(self@),
                |client: ClientView|
                    Ok(
                        (
                            client,
                            CallView::DeleteIssue {
                                issue_key: args.issue_key@,
                                delete_subtasks: is_set(args.delete_subtasks),
                            },
                        ),
                    ),
            ),
    {
        let client = self.jira_client()?;
        Ok(
            (
                client,
                ClientCall::DeleteIssue {
                    issue_key: args.issue_key,
                    delete_subtasks: flag(args.delete_subtasks),
                },
            ),
        )
    }

    /// The listing of projects.
    pub fn jira_get_all_projects(&self, args: JiraGetAllProjectsArgs) -> (plan: Plan)
        ensures
            outcome::of(plan) == outcome::and_then(
                client_for(self@),
                |client: ClientView|
                    Ok(
                        (
                            client,
                            CallView::GetAllProjects {
                                include_archived: is_set(args.include_archived),
                            },
                        ),
                    ),
            ),
    {
        let client = self.jira_client()?;
        Ok((client, ClientCall::GetAllProjects { include_archived: flag(args.include_archived) }))
    }

    /// The listing of the versions of a project.
    pub fn jira_get_project_versions(&self, args: JiraGetProjectVersionsArgs) -> (plan: Plan)
        ensures
            outcome::of(plan) == outcome::and_then(
                client_for(self@),
                |client: ClientView|
                    Ok((client, CallView::GetProjectVersions { project_key: args.project_key@ })),
            ),
    {
        let client = self.jira_client()?;
        Ok((client, ClientCall::GetProjectVersions { project_key: args.project_key }))
    }

    /// The listing of the components of a project.
    pub fn jira_get_project_components(&self, args: JiraGetProjectComponentsArgs) -> (plan: Plan)
        ensures
            outcome::of(plan) == outcome::and_then(
                client_for(self@),
                |client: ClientView|
                    Ok(
                        (
                            client,
                            CallView::GetProjectComponents {
                                project_key: args.project_key@,
                            },
                        ),
                    ),
            ),
    {
        let client = self.jira_client()?;
        Ok((client, ClientCall::GetProjectComponents { project_key: args.project_key }))
    }

    /// The creation of a version.
    pub fn jira_create_version(&self, args: JiraCreateVersionArgs) -> (plan: Plan)
        ensures
            outcome::of(plan) == outcome::and_then(
                client_for(self@),
                |client: ClientView|
                    outcome::and_then(
                        payloads::version_payload(args),
                        |payload: JsonView|
                            Ok((client, CallView::CreateVersion { payload })),
                    ),
            ),
    {
        let client = self.jira_client()?;
        let payload = version_payload_from_args(args)?;
        Ok((client, ClientCall::CreateVersion { payload }))
    }

    /// The creation of many versions.
    pub fn jira_batch_create_versions(&self, args: JiraBatchCreateVersionsArgs) -> (plan: Plan)
        ensures
            outcome::of(plan) == outcome::and_then(
                args::required_text(args.project_key@, "project_key"@),
                |project_key: Seq<char>|
                    outcome::and_then(
                        payloads::version_payloads(args.versions@, project_key),
                        |versions: Seq<JsonView>|
                            outcome::and_then(
                                client_for(self@),
                                |client: ClientView|
                                    Ok((client, CallView::BatchCreateVersions { versions })),
                            ),
                    ),
            ),
    {
        let project_key = required_non_empty_arg(args.project_key, "project_key")?;
        let versions = version_payloads_from_args(args.versions, project_key.as_str())?;
        let client = self.jira_client()?;
        Ok((client, ClientCall::BatchCreateVersions { versions }))
    }

    /// The reading of a user profile.
    pub fn jira_get_user_profile(&self, args: JiraGetUserProfileArgs) -> (plan: Plan)
        ensures
            outcome::of(plan) == outcome::and_then(
                client_for(self@),
                |client: ClientView|
                    outcome::and_then(
                        args::required_text(args.user_identifier@, "user_identifier"@),
                        |user_identifier: Seq<char>|
                            Ok((client, CallView::GetUserProfile { user_identifier })),
                    ),
            ),
    {
        let client = self.jira_client()?;
        let user_identifier = required_non_empty_arg(args.user_identifier, "user_identifier")?;
        Ok((client, ClientCall::GetUserProfile { user_identifier }))
    }

    /// The listing of the watchers of an issue.
    pub fn jira_get_issue_watchers(&self, args: JiraGetIssueWatchersArgs) -> (plan: Plan)
        ensures
            outcome::of(plan) == outcome::and_then(
                client_for(self@),
                |client: ClientView|
                    Ok((client, CallView::GetIssueWatchers { issue_key: args.issue_key@ })),
            ),
    {
        let client = self.jira_client()?;
        Ok((client, ClientCall::GetIssueWatchers { issue_key: args.issue_key }))
    }

    /// The addition of a watcher.
    pub fn jira_add_watcher(&self, args: JiraAddWatcherArgs) -> (plan: Plan)
        ensures
            outcome::of(plan) == outcome::and_then(
                client_for(self@),
                |client: ClientView|
                    outcome::and_then(
                        args::required_text(args.user_identifier@, "user_identifier"@),
                        |user_identifier: Seq<char>|
                            Ok(
                                (
                                    client,
                                    CallView::AddWatcher {
                                        issue_key: args.issue_key@,
                                        user_identifier,
                                    },
                                ),
                            ),
                    ),
            ),
    {
        let client = self.jira_client()?;
        let user_identifier = required_non_empty_arg(args.user_identifier, "user_identifier")?;
        Ok((client, ClientCall::AddWatcher { issue_key: args.issue_key, user_identifier }))
    }

    /// The removal of a watcher.
    pub fn jira_remove_watcher(&self, args: JiraRemoveWatcherArgs) -> (plan: Plan)
        ensures
            outcome::of(plan) == outcome::and_then(
                client_for(self@),
                |client: ClientView|
                    outcome::and_then(
                        args::required_text(args.user_identifier@, "user_identifier"@),
                        |user_identifier: Seq<char>|
                            Ok(
                                (
                                    client,
                                    CallView::RemoveWatcher {
                                        issue_key: args.issue_key@,
                                        user_identifier,
                                    },
                                ),
                            ),
                    ),
            ),
    {
        let client = self.jira_client()?;
        let user_identifier = required_non_empty_arg(args.user_identifier, "user_identifier")?;
        Ok((client, ClientCall::RemoveWatcher { issue_key: args.issue_key, user_identifier }))
    }

    /// The reading of a worklog.
    pub fn jira_get_worklog(&self, args: JiraGetWorklogArgs) -> (plan: Plan)
        ensures
            outcome::of(plan) == outcome::and_then(
                client_for(self@),
                |client: ClientView|
                    Ok(
                        (
                            client,
                            CallView::GetWorklog {
                                issue_key: args.issue_key@,
                                start_at: args.start_at,
                                limit: args.limit,
                            },
                        ),
                    ),
            ),
    {
        let client = self.jira_client()?;
        Ok(
            (
                client,
                ClientCall::GetWorklog {
                    issue_key: args.issue_key,
                    start_at: args.start_at,
                    limit: args.limit,
                },
            ),
        )
    }

    /// An addition to a worklog.
    pub fn jira_add_worklog(&self, args: JiraAddWorklogArgs) -> (plan: Plan)
        ensures
            outcome::of(plan) == outcome::and_then(
                deployment_for(self@),
                |deployment: JiraDeployment|
                    outcome::and_then(
                        payloads::worklog_payload(args, deployment),
                        |entry: (Seq<char>, JsonView, Seq<(Seq<char>, Seq<char>)>)|
                            outcome::and_then(
                                client_for(self@),
                                |client: ClientView|
                                    Ok(
                                        (
                                            client,
                                            CallView::AddWorklog {
                                                issue_key: entry.0,
                                                payload: entry.1,
                                                query: entry.2,
                                            },
                                        ),
                                    ),
                            ),
                    ),
            ),
    {
        let deployment = self.deployment()?;
        let entry = add_worklog_payload_from_args(args, deployment)?;
        let client = self.jira_client()?;
        Ok(
            (
                client,
                ClientCall::AddWorklog {
                    issue_key: entry.0,
                    payload: entry.1,
                    query: entry.2,
                },
            ),
        )
    }

    /// The listing of link types; `filter_link_types` reads the reply.
    pub fn jira_get_link_types(&self) -> (plan: Plan)
        ensures
            outcome::of(plan) == outcome::and_then(
                client_for(self@),
                |client: ClientView|
                    Ok((client, CallView::GetLinkTypes)),
            ),
    {
        let client = self.jira_client()?;
        Ok((client, ClientCall::GetLinkTypes))
    }

    /// The link of an issue to an epic.
    pub fn jira_link_to_epic(&self, args: JiraLinkToEpicArgs) -> (plan: Plan)
        ensures
            outcome::of(plan) == outcome::and_then(
                client_for(self@),
                |client: ClientView|
                    outcome::and_then(
                        args::required_text(args.issue_key@, "issue_key"@),
                        |issue_key: Seq<char>|
                            outcome::and_then(
                                args::required_text(args.epic_key@, "epic_key"@),
                                |epic_key: Seq<char>|
                                    Ok((client, CallView::LinkToEpic { issue_key, epic_key })),
                            ),
                    ),
            ),
    {
        let client = self.jira_client()?;
        let issue_key = required_non_empty_arg(args.issue_key, "issue_key")?;
        let epic_key = required_non_empty_arg(args.epic_key, "epic_key")?;
        Ok((client, ClientCall::LinkToEpic { issue_key, epic_key }))
    }

    /// The link of two issues.
    pub fn jira_create_issue_link(&self, args: JiraCreateIssueLinkArgs) -> (plan: Plan)
        ensures
            outcome::of(plan) == outcome::and_then(
                deployment_for(self@),
                |deployment: JiraDeployment|
                    outcome::and_then(
                        client_for(self@),
                        |client: ClientView|
                            outcome::and_then(
                                payloads::issue_link_payload(args, deployment),
                                |payload: JsonView|
                                    Ok((client, CallView::CreateIssueLink { payload })),
                            ),
                    ),
            ),
    {
        let deployment = self.deployment()?;
        let client = self.jira_client()?;
        let payload = issue_link_payload_from_args(args, deployment)?;
        Ok((client, ClientCall::CreateIssueLink { payload }))
    }

    /// The link of an issue to a page.
    pub fn jira_create_remote_issue_link(&self, args: JiraCreateRemoteIssueLinkArgs) -> (plan: Plan)
        ensures
            outcome::of(plan) == outcome::and_then(
                payloads::remote_link_payload(args),
                |link: (Seq<char>, JsonView)|
                    outcome::and_then(
                        client_for(self@),
                        |client: ClientView|
                            Ok(
                                (
                                    client,
                                    CallView::CreateRemoteIssueLink {
                                        issue_key: link.0,
                                        payload: link.1,
                                    },
                                ),
                            ),
                    ),
            ),
    {
        let link = remote_issue_link_payload_from_args(args)?;
        let client = self.jira_client()?;
        Ok((client, ClientCall::CreateRemoteIssueLink { issue_key: link.0, payload: link.1 }))
    }

    /// The removal of a link.
    pub fn jira_remove_issue_link(&self, args: JiraRemoveIssueLinkArgs) -> (plan: Plan)
        ensures
            outcome::of(plan) == outcome::and_then(
                client_for(self@),
                |client: ClientView|
                    outcome::and_then(
                        args::required_text(args.link_id@, "link_id"@),
                        |link_id: Seq<char>|
                            Ok((client, CallView::RemoveIssueLink { link_id })),
                    ),
            ),
    {
        let client = self.jira_client()?;
        let link_id = required_non_empty_arg(args.link_id, "link_id")?;
        Ok((client, ClientCall::RemoveIssueLink { link_id }))
    }

    /// The reading of the attachments of an issue.
    pub fn jira_download_attachments(&self, args: JiraDownloadAttachmentsArgs) -> (plan: Plan)
        ensures
            outcome::of(plan) == outcome::and_then(
                args::answered(
                    formatting::optional_string_list_argument(
                        args.attachment_ids.deep_view(),
                        "attachment_ids"@,
                    ),
                ),
                |attachment_ids: Option<Seq<Seq<char>>>|
                    outcome::and_then(
                        args::positive_u64(args.max_bytes, "max_bytes"@),
                        |max_bytes: Option<u64>|
                            outcome::and_then(
                                client_for(self@),
                                |client: ClientView|
                                    outcome::and_then(
                                        args::required_text(args.issue_key@, "issue_key"@),
                                        |issue_key: Seq<char>|
                                            Ok(
                                                (
                                                    client,
                                                    CallView::GetSafeIssueAttachments {
                                                        issue_key,
                                                        attachment_ids,
                                                        include_content: is_set(
                                                            args.include_content,
                                                        ),
                                                        images_only: false,
                                                        max_bytes,
                                                    },
                                                ),
                                            ),
                                    ),
                            ),
                    ),
            ),
    {
        let attachment_ids = parse_optional_string_list_arg(args.attachment_ids, "attachment_ids")?;
        let max_bytes = optional_positive_u64_arg(args.max_bytes, "max_bytes")?;
        let client = self.jira_client()?;
        let issue_key = required_non_empty_arg(args.issue_key, "issue_key")?;
        Ok(
            (
                client,
                ClientCall::GetSafeIssueAttachments {
                    issue_key,
                    attachment_ids,
                    include_content: flag(args.include_content),
                    images_only: false,
                    max_bytes,
                },
            ),
        )
    }

    /// The reading of the images of an issue.
    pub fn jira_get_issue_images(&self, args: JiraGetIssueImagesArgs) -> (plan: Plan)
        ensures
            outcome::of(plan) == outcome::and_then(
                args::positive_u64(args.max_bytes, "max_bytes"@),
                |max_bytes: Option<u64>|
                    outcome::and_then(
                        client_for(self@),
                        |client: ClientView|
                            outcome::and_then(
                                args::required_text(args.issue_key@, "issue_key"@),
                                |issue_key: Seq<char>|
                                    Ok(
                                        (
                                            client,
                                            CallView::GetSafeIssueAttachments {
                                                issue_key,
                                                attachment_ids: None,
                                                include_content: is_set(args.include_content),
                                                images_only: true,
                                                max_bytes,
                                            },
                                        ),
                                    ),
                            ),
                    ),
            ),
    {
        let max_bytes = optional_positive_u64_arg(args.max_bytes, "max_bytes")?;
        let client = self.jira_client()?;
        let issue_key = required_non_empty_arg(args.issue_key, "issue_key")?;
        Ok(
            (
                client,
                ClientCall::GetSafeIssueAttachments {
                    issue_key,
                    attachment_ids: None,
                    include_content: flag(args.include_content),
                    images_only: true,
                    max_bytes,
                },
            ),
        )
    }

    /// The listing of boards.
    pub fn jira_get_agile_boards(&self, args: JiraGetAgileBoardsArgs) -> (plan: Plan)
        ensures
            outcome::of(plan) == outcome::and_then(
                client_for(self@),
                |client: ClientView|
                    Ok(
                        (
                            client,
                            CallView::GetAgileBoards {
                                project_key: args.project_key.deep_view(),
                                board_type: args.board_type.deep_view(),
                                start_at: args.start_at,
                                limit: args.limit,
                            },
                        ),
                    ),
            ),
    {
        let client = self.jira_client()?;
        Ok(
            (
                client,
                ClientCall::GetAgileBoards {
                    project_key: args.project_key,
                    board_type: args.board_type,
                    start_at: args.start_at,
                    limit: args.limit,
                },
            ),
        )
    }

    /// The listing of the issues of a board.
    pub fn jira_get_board_issues(&self, args: JiraGetBoardIssuesArgs) -> (plan: Plan)
        ensures
            outcome::of(plan) == outcome::and_then(
                args::answered(
                    formatting::optional_string_list_argument(args.fields.deep_view(), "fields"@),
                ),
                |fields: Option<Seq<Seq<char>>>|
                    outcome::and_then(
                        client_for(self@),
                        |client: ClientView|
                            Ok(
                                (
                                    client,
                                    CallView::GetBoardIssues {
                                        board_id: args.board_id,
                                        jql: args.jql.deep_view(),
                                        fields,
                                        start_at: args.start_at,
                                        limit: args.limit,
                                    },
                                ),
                            ),
                    ),
            ),
    {
        let fields = parse_optional_string_list_arg(args.fields, "fields")?;
        let client = self.jira_client()?;
        Ok(
            (
                client,
                ClientCall::GetBoardIssues {
                    board_id: args.board_id,
                    jql: args.jql,
                    fields,
                    start_at: args.start_at,
                    limit: args.limit,
                },
            ),
        )
    }

    /// The listing of the sprints of a board.
    pub fn jira_get_sprints_from_board(&self, args: JiraGetSprintsFromBoardArgs) -> (plan: Plan)
        ensures
            outcome::of(plan) == outcome::and_then(
                args::answered(
                    formatting::optional_string_list_argument(args.state.deep_view(), "state"@),
                ),
                |state: Option<Seq<Seq<char>>>|
                    outcome::and_then(
                        client_for(self@),
                        |client: ClientView|
                            Ok(
                                (
                                    client,
                                    CallView::GetSprintsFromBoard {
                                        board_id: args.board_id,
                                        state,
                                        start_at: args.start_at,
                                        limit: args.limit,
                                    },
                                ),
                            ),
                    ),
            ),
    {
        let state = parse_optional_string_list_arg(args.state, "state")?;
        let client = self.jira_client()?;
        Ok(
            (
                client,
                ClientCall::GetSprintsFromBoard {
                    board_id: args.board_id,
                    state,
                    start_at: args.start_at,
                    limit: args.limit,
                },
            ),
        )
    }

    /// The listing of the issues of a sprint.
    pub fn jira_get_sprint_issues(&self, args: JiraGetSprintIssuesArgs) -> (plan: Plan)
        ensures
            outcome::of(plan) == outcome::and_then(
                args::answered(
                    formatting::optional_string_list_argument(args.fields.deep_view(), "fields"@),
                ),
                |fields: Option<Seq<Seq<char>>>|
                    outcome::and_then(
                        client_for(self@),
                        |client: ClientView|
                            Ok(
                                (
                                    client,
                                    CallView::GetSprintIssues {
                                        sprint_id: args.sprint_id,
                                        fields,
                                        start_at: args.start_at,
                                        limit: args.limit,
                                    },
                                ),
                            ),
                    ),
            ),
    {
        let fields = parse_optional_string_list_arg(args.fields, "fields")?;
        let client = self.jira_client()?;
        Ok(
            (
                client,
                ClientCall::GetSprintIssues {
                    sprint_id: args.sprint_id,
                    fields,
                    start_at: args.start_at,
                    limit: args.limit,
                },
            ),
        )
    }

    /// The creation of a sprint.
    pub fn jira_create_sprint(&self, args: JiraCreateSprintArgs) -> (plan: Plan)
        ensures
            outcome::of(plan) == outcome::and_then(
                client_for(self@),
                |client: ClientView|
                    outcome::and_then(
                        payloads::new_sprint_payload(args),
                        |payload: JsonView|
                            Ok((client, CallView::CreateSprint { payload })),
                    ),
            ),
    {
        let client = self.jira_client()?;
        let payload = create_sprint_payload_from_args(args)?;
        Ok((client, ClientCall::CreateSprint { payload }))
    }

    /// The update of a sprint.
    pub fn jira_update_sprint(&self, args: JiraUpdateSprintArgs) -> (plan: Plan)
        ensures
            outcome::of(plan) == outcome::and_then(
                payloads::sprint_update(args),
                |update: (u64, JsonView)|
                    outcome::and_then(
                        client_for(self@),
                        |client: ClientView|
                            Ok(
                                (
                                    client,
                                    CallView::UpdateSprint {
                                        sprint_id: update.0,
                                        payload: update.1,
                                    },
                                ),
                            ),
                    ),
            ),
    {
        let update = update_sprint_payload_from_args(args)?;
        let client = self.jira_client()?;
        Ok((client, ClientCall::UpdateSprint { sprint_id: update.0, payload: update.1 }))
    }

    /// The addition of issues to a sprint.
    pub fn jira_add_issues_to_sprint(&self, args: JiraAddIssuesToSprintArgs) -> (plan: Plan)
        ensures
            outcome::of(plan) == outcome::and_then(
                args::answered(formatting::string_list_argument(args.issue_keys@, "issue_keys"@)),
                |issue_keys: Seq<Seq<char>>|
                    outcome::and_then(
                        client_for(self@),
                        |client: ClientView|
                            Ok(
                                (
                                    client,
                                    CallView::AddIssuesToSprint {
                                        sprint_id: args.sprint_id,
                                        issue_keys,
                                    },
                                ),
                            ),
                    ),
            ),
    {
        let issue_keys = parse_required_string_list_arg(args.issue_keys, "issue_keys")?;
        let client = self.jira_client()?;
        Ok((client, ClientCall::AddIssuesToSprint { sprint_id: args.sprint_id, issue_keys }))
    }

    /// The search for the service desk of a project.
    pub fn jira_get_service_desk_for_project(
        &self,
        args: JiraGetServiceDeskForProjectArgs,
    ) -> (plan: Plan)
        ensures
            outcome::of(plan) == outcome::and_then(
                client_for(self@),
                |client: ClientView|
                    outcome::and_then(
                        args::required_text(args.project_key@, "project_key"@),
                        |project_key: Seq<char>|
                            Ok((client, CallView::GetServiceDeskForProject { project_key })),
                    ),
            ),
    {
        let client = self.jira_client()?;
        let project_key = required_non_empty_arg(args.project_key, "project_key")?;
        Ok((client, ClientCall::GetServiceDeskForProject { project_key }))
    }

    /// The listing of the queues of a service desk.
    pub fn jira_get_service_desk_queues(&self, args: JiraGetServiceDeskQueuesArgs) -> (plan: Plan)
        ensures
            outcome::of(plan) == outcome::and_then(
                client_for(self@),
                |client: ClientView|
                    Ok(
                        (
                            client,
                            CallView::GetServiceDeskQueues {
                                service_desk_id: args.service_desk_id@,
                                start_at: args.start_at,
                                limit: args.limit,
                            },
                        ),
                    ),
            ),
    {
        let client = self.jira_client()?;
        Ok(
            (
                client,
                ClientCall::GetServiceDeskQueues {
                    service_desk_id: args.service_desk_id,
                    start_at: args.start_at,
                    limit: args.limit,
                },
            ),
        )
    }

    /// The listing of the issues of a queue.
    pub fn jira_get_queue_issues(&self, args: JiraGetQueueIssuesArgs) -> (plan: Plan)
        ensures
            outcome::of(plan) == outcome::and_then(
                client_for(self@),
                |client: ClientView|
                    Ok(
                        (
                            client,
                            CallView::GetQueueIssues {
                                service_desk_id: args.service_desk_id@,
                                queue_id: args.queue_id@,
                                start_at: args.start_at,
                                limit: args.limit,
                            },
                        ),
                    ),
            ),
    {
        let client = self.jira_client()?;
        Ok(
            (
                client,
                ClientCall::GetQueueIssues {
                    service_desk_id: args.service_desk_id,
                    queue_id: args.queue_id,
                    start_at: args.start_at,
                    limit: args.limit,
                },
            ),
        )
    }

    /// The listing of the forms of an issue.
    pub fn jira_get_issue_proforma_forms(&self, args: JiraGetIssueProformaFormsArgs) -> (plan: Plan)
        ensures
            outcome::of(plan) == outcome::and_then(
                client_for(self@),
                |client: ClientView|
                    outcome::and_then(
                        args::required_text(args.issue_key@, "issue_key"@),
                        |issue_key: Seq<char>|
                            Ok(
                                (
                                    client,
                                    CallView::GetIssueProformaForms {
                                        issue_key,
                                        cloud_id: self@.atlassian_oauth_cloud_id,
                                    },
                                ),
                            ),
                    ),
            ),
    {
        let client = self.jira_client()?;
        let issue_key = required_non_empty_arg(args.issue_key, "issue_key")?;
        Ok(
            (
                client,
                ClientCall::GetIssueProformaForms {
                    issue_key,
                    cloud_id: self.context.atlassian_oauth_cloud_id(),
                },
            ),
        )
    }

    /// The reading of a form.
    pub fn jira_get_proforma_form_details(
        &self,
        args: JiraGetProformaFormDetailsArgs,
    ) -> (plan: Plan)
        ensures
            outcome::of(plan) == outcome::and_then(
                client_for(self@),
                |client: ClientView|
                    outcome::and_then(
                        args::required_text(args.issue_key@, "issue_key"@),
                        |issue_key: Seq<char>|
                            outcome::and_then(
                                args::required_text(args.form_id@, "form_id"@),
                                |form_id: Seq<char>|
                                    Ok(
                                        (
                                            client,
                                            CallView::GetProformaFormDetails {
                                                issue_key,
                                                form_id,
                                                cloud_id: self@.atlassian_oauth_cloud_id,
                                            },
                                        ),
                                    ),
                            ),
                    ),
            ),
    {
        let client = self.jira_client()?;
        let issue_key = required_non_empty_arg(args.issue_key, "issue_key")?;
        let form_id = required_non_empty_arg(args.form_id, "form_id")?;
        Ok(
            (
                client,
                ClientCall::GetProformaFormDetails {
                    issue_key,
                    form_id,
                    cloud_id: self.context.atlassian_oauth_cloud_id(),
                },
            ),
        )
    }

    /// The answers to a form.
    pub fn jira_update_proforma_form_answers(
        &self,
        args: JiraUpdateProformaFormAnswersArgs,
    ) -> (plan: Plan)
        ensures
            outcome::of(plan) == outcome::and_then(
                args::answered(formatting::object_list_argument(args.answers@, "answers"@)),
                |answers: Seq<JsonView>|
                    outcome::and_then(
                        client_for(self@),
                        |client: ClientView|
                            outcome::and_then(
                                args::required_text(args.issue_key@, "issue_key"@),
                                |issue_key: Seq<char>|
                                    outcome::and_then(
                                        args::required_text(args.form_id@, "form_id"@),
                                        |form_id: Seq<char>|
                                            Ok(
                                                (
                                                    client,
                                                    CallView::UpdateProformaFormAnswers {
                                                        issue_key,
                                                        form_id,
                                                        answers,
                                                        cloud_id: self@.atlassian_oauth_cloud_id,
                                                    },
                                                ),
                                            ),
                                    ),
                            ),
                    ),
            ),
    {
        let answers = parse_required_object_list_arg(args.answers, "answers")?;
        let client = self.jira_client()?;
        let issue_key = required_non_empty_arg(args.issue_key, "issue_key")?;
        let form_id = required_non_empty_arg(args.form_id, "form_id")?;
        Ok(
            (
                client,
                ClientCall::UpdateProformaFormAnswers {
                    issue_key,
                    form_id,
                    answers,
                    cloud_id: self.context.atlassian_oauth_cloud_id(),
                },
            ),
        )
    }

    /// The reading of the dates of an issue.
    pub fn jira_get_issue_dates(&self, args: JiraGetIssueDatesArgs) -> (plan: Plan)
        ensures
            outcome::of(plan) == outcome::and_then(
                client_for(self@),
                |client: ClientView|
                    outcome::and_then(
                        args::required_text(args.issue_key@, "issue_key"@),
                        |issue_key: Seq<char>|
                            Ok(
                                (
                                    client,
                                    CallView::GetIssueDates {
                                        issue_key,
                                        include_status_changes: is_set(args.include_status_changes),
                                        include_status_summary: is_set(args.include_status_summary),
                                    },
                                ),
                            ),
                    ),
            ),
    {
        let client = self.jira_client()?;
        let issue_key = required_non_empty_arg(args.issue_key, "issue_key")?;
        Ok(
            (
                client,
                ClientCall::GetIssueDates {
                    issue_key,
                    include_status_changes: flag(args.include_status_changes),
                    include_status_summary: flag(args.include_status_summary),
                },
            ),
        )
    }

    /// The reading of the service levels of an issue.
    pub fn jira_get_issue_sla(&self, args: JiraGetIssueSlaArgs) -> (plan: Plan)
        ensures
            outcome::of(plan) == outcome::and_then(
                args::answered(
                    formatting::optional_string_list_argument(
                        args.metrics.deep_view(),
                        "metrics"@,
                    ),
                ),
                |metrics: Option<Seq<Seq<char>>>|
                    outcome::and_then(
                        client_for(self@),
                        |client: ClientView|
                            outcome::and_then(
                                args::required_text(args.issue_key@, "issue_key"@),
                                |issue_key: Seq<char>|
                                    Ok(
                                        (
                                            client,
                                            CallView::GetIssueSla {
                                                issue_key,
                                                metrics,
                                                working_hours_only: args.working_hours_only,
                                                include_raw_dates: is_set(args.include_raw_dates),
                                            },
                                        ),
                                    ),
                            ),
                    ),
            ),
    {
        let metrics = parse_optional_string_list_arg(args.metrics, "metrics")?;
        let client = self.jira_client()?;
        let issue_key = required_non_empty_arg(args.issue_key, "issue_key")?;
        Ok(
            (
                client,
                ClientCall::GetIssueSla {
                    issue_key,
                    metrics,
                    working_hours_only: args.working_hours_only,
                    include_raw_dates: flag(args.include_raw_dates),
                },
            ),
        )
    }

    /// The reading of the development information of an issue.
    pub fn jira_get_issue_development_info(
        &self,
        args: JiraGetIssueDevelopmentInfoArgs,
    ) -> (plan: Plan)
        ensures
            outcome::of(plan) == outcome::and_then(
                client_for(self@),
                |client: ClientView|
                    outcome::and_then(
                        args::required_text(args.issue_key@, "issue_key"@),
                        |issue_key: Seq<char>|
                            Ok(
                                (
                                    client,
                                    CallView::GetIssueDevelopmentInfo {
                                        issue_key,
                                        application_type: args.application_type.deep_view(),
                                        data_type: args.data_type.deep_view(),
                                    },
                                ),
                            ),
                    ),
            ),
    {
        let client = self.jira_client()?;
        let issue_key = required_non_empty_arg(args.issue_key, "issue_key")?;
        Ok(
            (
                client,
                ClientCall::GetIssueDevelopmentInfo {
                    issue_key,
                    application_type: args.application_type,
                    data_type: args.data_type,
                },
            ),
        )
    }

    /// The reading of the development information of issues.
    pub fn jira_get_issues_development_info(
        &self,
        args: JiraGetIssuesDevelopmentInfoArgs,
    ) -> (plan: Plan)
        ensures
            outcome::of(plan) == outcome::and_then(
                args::answered(formatting::string_list_argument(args.issue_keys@, "issue_keys"@)),
                |issue_keys: Seq<Seq<char>>|
                    outcome::and_then(
                        client_for(self@),
                        |client: ClientView|
                            Ok(
                                (
                                    client,
                                    CallView::GetIssuesDevelopmentInfo {
                                        issue_keys,
                                        application_type: args.application_type.deep_view(),
                                        data_type: args.data_type.deep_view(),
                                    },
                                ),
                            ),
                    ),
            ),
    {
        let issue_keys = parse_required_string_list_arg(args.issue_keys, "issue_keys")?;
        let client = self.jira_client()?;
        Ok(
            (
                client,
                ClientCall::GetIssuesDevelopmentInfo {
                    issue_keys,
                    application_type: args.application_type,
                    data_type: args.data_type,
                },
            ),
        )
    }
}

/// The options that the arguments ask for.
pub open spec fn field_options_view(args: JiraGetFieldOptionsArgs) -> FieldOptionsView {
    FieldOptionsView {
        field_id: args.field_id@,
        context_id: args.context_id.deep_view(),
        project_key: args.project_key.deep_view(),
        issue_type: args.issue_type.deep_view(),
        contains: args.contains.deep_view(),
        return_limit: args.return_limit,
        values_only: is_set(args.values_only),
    }
}

/// The options that the arguments ask for.
pub fn field_options_request(args: &JiraGetFieldOptionsArgs) -> (request: FieldOptionsRequest)
    ensures
        request@ == field_options_view(*args),
{
    FieldOptionsRequest {
        field_id: args.field_id.clone(),
        context_id: copy_optional_text(&args.context_id),
        project_key: copy_optional_text(&args.project_key),
        issue_type: copy_optional_text(&args.issue_type),
        contains: copy_optional_text(&args.contains),
        return_limit: args.return_limit,
        values_only: flag(args.values_only),
    }
}

} // verus!
