//! The requests that the Jira tools make, and what they read from the replies.

use vstd::prelude::*;

use crate::atlassian::error::{AtlassianError, ErrorView};
use crate::atlassian::http::{
    ApiRequest, AtlassianHttpClient, HttpView, Method, RequestView,
};
use crate::atlassian::{error, http};
use crate::jira::config::{ConfigView, JiraConfig, JiraDeployment};
use crate::jira::formatting;
use crate::jira::formatting::{
    comment_body_for_deployment, ensure_issue_allowed, inject_project_filter,
    parse_optional_object, safe_path_segment,
};
use crate::jira::models;
use crate::jira::models::{
    read_fields, read_options, simplify_comment, simplify_fields, simplify_issue,
    simplify_options, simplify_search, simplify_transitions, FieldView, JiraField,
    JiraFieldOption,
};
use crate::json::{Json, JsonView};
use crate::string_set::StringSet;
use crate::text::{
    concat, concat3, contains, copy_optional_text, copy_optional_texts, copy_texts, decimal_text,
    join, replace_char, to_ascii_lowercase, trim,
};
use crate::{json, lists, outcome, text};

verus! {

/// How many items are asked for where nothing else is said.
pub const DEFAULT_LIMIT: u64 = 50;

/// A Jira service that can be asked.
#[derive(Debug)]
pub struct JiraClient {
    pub config: JiraConfig,
    pub http: AtlassianHttpClient,
}

/// What to read of an issue.
#[derive(Debug)]
pub struct GetIssueRequest {
    pub issue_key: String,
    pub fields: Option<Vec<String>>,
    pub expand: Option<Vec<String>>,
    pub comment_limit: Option<u64>,
    pub properties: Option<Vec<String>>,
    pub update_history: Option<bool>,
}

/// What such a request stands for.
#[verifier::ext_equal]
pub struct GetIssueView {
    pub issue_key: Seq<char>,
    pub fields: Option<Seq<Seq<char>>>,
    pub expand: Option<Seq<Seq<char>>>,
    pub comment_limit: Option<u64>,
    pub properties: Option<Seq<Seq<char>>>,
    pub update_history: Option<bool>,
}

impl View for GetIssueRequest {
    type V = GetIssueView;

    open spec fn view(&self) -> GetIssueView {
        GetIssueView {
            issue_key: self.issue_key@,
            fields: self.fields.deep_view(),
            expand: self.expand.deep_view(),
            comment_limit: self.comment_limit,
            properties: self.properties.deep_view(),
            update_history: self.update_history,
        }
    }
}

impl Clone for GetIssueRequest {
    fn clone(&self) -> (copy: Self)
        ensures
            copy@ == self@,
    {
        GetIssueRequest {
            issue_key: self.issue_key.clone(),
            fields: copy_optional_texts(&self.fields),
            expand: copy_optional_texts(&self.expand),
            comment_limit: self.comment_limit,
            properties: copy_optional_texts(&self.properties),
            update_history: self.update_history,
        }
    }
}

impl Default for GetIssueRequest {
    fn default() -> (request: Self)
        ensures
            request@ == (GetIssueView {
                issue_key: Seq::empty(),
                fields: None,
                expand: None,
                comment_limit: None,
                properties: None,
                update_history: None,
            }),
    {
        GetIssueRequest {
            issue_key: String::new(),
            fields: None,
            expand: None,
            comment_limit: None,
            properties: None,
            update_history: None,
        }
    }
}

/// What to search for.
#[derive(Debug)]
pub struct SearchRequest {
    pub jql: String,
    pub fields: Option<Vec<String>>,
    pub limit: Option<u64>,
    pub start_at: Option<u64>,
    pub projects_filter: Option<Vec<String>>,
    pub expand: Option<Vec<String>>,
    pub page_token: Option<String>,
}

/// What a search request stands for.
#[verifier::ext_equal]
pub struct SearchView {
    pub jql: Seq<char>,
    pub fields: Option<Seq<Seq<char>>>,
    pub limit: Option<u64>,
    pub start_at: Option<u64>,
    pub projects_filter: Option<Seq<Seq<char>>>,
    pub expand: Option<Seq<Seq<char>>>,
    pub page_token: Option<Seq<char>>,
}

impl View for SearchRequest {
    type V = SearchView;

    open spec fn view(&self) -> SearchView {
        SearchView {
            jql: self.jql@,
            fields: self.fields.deep_view(),
            limit: self.limit,
            start_at: self.start_at,
            projects_filter: self.projects_filter.deep_view(),
            expand: self.expand.deep_view(),
            page_token: self.page_token.deep_view(),
        }
    }
}

/// A search for `jql` with nothing else said.
pub open spec fn plain_search(jql: Seq<char>) -> SearchView {
    SearchView {
        jql,
        fields: None,
        limit: None,
        start_at: None,
        projects_filter: None,
        expand: None,
        page_token: None,
    }
}

impl Clone for SearchRequest {
    fn clone(&self) -> (copy: Self)
        ensures
            copy@ == self@,
    {
        SearchRequest {
            jql: self.jql.clone(),
            fields: copy_optional_texts(&self.fields),
            limit: self.limit,
            start_at: self.start_at,
            projects_filter: copy_optional_texts(&self.projects_filter),
            expand: copy_optional_texts(&self.expand),
            page_token: copy_optional_text(&self.page_token),
        }
    }
}

impl Default for SearchRequest {
    fn default() -> (request: Self)
        ensures
            request@ == plain_search(Seq::empty()),
    {
        SearchRequest {
            jql: String::new(),
            fields: None,
            limit: None,
            start_at: None,
            projects_filter: None,
            expand: None,
            page_token: None,
        }
    }
}

/// Which field's options to list, and which of them.
#[derive(Debug)]
pub struct FieldOptionsRequest {
    pub field_id: String,
    pub context_id: Option<String>,
    pub project_key: Option<String>,
    pub issue_type: Option<String>,
    pub contains: Option<String>,
    pub return_limit: Option<u64>,
    pub values_only: bool,
}

/// What such a request stands for.
#[verifier::ext_equal]
pub struct FieldOptionsView {
    pub field_id: Seq<char>,
    pub context_id: Option<Seq<char>>,
    pub project_key: Option<Seq<char>>,
    pub issue_type: Option<Seq<char>>,
    pub contains: Option<Seq<char>>,
    pub return_limit: Option<u64>,
    pub values_only: bool,
}

impl View for FieldOptionsRequest {
    type V = FieldOptionsView;

    open spec fn view(&self) -> FieldOptionsView {
        FieldOptionsView {
            field_id: self.field_id@,
            context_id: self.context_id.deep_view(),
            project_key: self.project_key.deep_view(),
            issue_type: self.issue_type.deep_view(),
            contains: self.contains.deep_view(),
            return_limit: self.return_limit,
            values_only: self.values_only,
        }
    }
}

impl Clone for FieldOptionsRequest {
    fn clone(&self) -> (copy: Self)
        ensures
            copy@ == self@,
    {
        FieldOptionsRequest {
            field_id: self.field_id.clone(),
            context_id: copy_optional_text(&self.context_id),
            project_key: copy_optional_text(&self.project_key),
            issue_type: copy_optional_text(&self.issue_type),
            contains: copy_optional_text(&self.contains),
            return_limit: self.return_limit,
            values_only: self.values_only,
        }
    }
}

impl Default for FieldOptionsRequest {
    fn default() -> (request: Self)
        ensures
            request@ == (FieldOptionsView {
                field_id: Seq::empty(),
                context_id: None,
                project_key: None,
                issue_type: None,
                contains: None,
                return_limit: None,
                values_only: false,
            }),
    {
        FieldOptionsRequest {
            field_id: String::new(),
            context_id: None,
            project_key: None,
            issue_type: None,
            contains: None,
            return_limit: None,
            values_only: false,
        }
    }
}

/// The parameters that have a value, in order.
pub open spec fn present_params(pairs: Seq<(Seq<char>, Option<Seq<char>>)>) -> Seq<
    (Seq<char>, Seq<char>),
>
    decreases pairs.len(),
{
    if pairs.len() == 0 {
        Seq::empty()
    } else {
        let before = present_params(pairs.drop_last());
        match pairs.last().1 {
            Some(value) => before.push((pairs.last().0, value)),
            None => before,
        }
    }
}

/// The parameters that have a value, in order.
fn optional_query_params(pairs: Vec<(String, Option<String>)>) -> (query: Vec<(String, String)>)
    ensures
        query.deep_view() == present_params(pairs.deep_view()),
{
    let mut query: Vec<(String, String)> = Vec::new();
    let ghost views = pairs.deep_view();
    let mut i: usize = 0;
    proof {
        assert(query.deep_view() =~= Seq::empty());
    }
    while i < pairs.len()
        invariant
            i <= pairs.len(),
            views == pairs.deep_view(),
            query.deep_view() == present_params(views.take(i as int)),
        decreases pairs.len() - i,
    {
        proof {
            assert(views.take(i + 1).drop_last() =~= views.take(i as int));
            assert(views[i as int] == pairs@[i as int].deep_view());
        }
        if let Some(value) = &pairs[i].1 {
            let pair = (pairs[i].0.clone(), value.clone());
            let ghost before = query.deep_view();
            query.push(pair);
            proof {
                assert(query.deep_view() =~= before.push(pair.deep_view()));
            }
        }
        i = i + 1;
    }
    proof {
        assert(views.take(i as int) =~= views);
    }
    query
}

/// The items with commas between them.
pub open spec fn comma_list(items: Option<Seq<Seq<char>>>) -> Option<Seq<char>> {
    match items {
        Some(items) => Some(text::joined(items, ","@)),
        None => None,
    }
}

fn comma_joined(items: Option<Vec<String>>) -> (list: Option<String>)
    ensures
        list.deep_view() == comma_list(items.deep_view()),
{
    match items {
        Some(items) => Some(join(&items, ",")),
        None => None,
    }
}

/// A truth value as it is written.
pub open spec fn written_bool(value: Option<bool>) -> Option<Seq<char>> {
    match value {
        Some(true) => Some("true"@),
        Some(false) => Some("false"@),
        None => None,
    }
}

fn bool_text(value: Option<bool>) -> (text: Option<String>)
    ensures
        text.deep_view() == written_bool(value),
{
    match value {
        Some(true) => Some("true".to_owned()),
        Some(false) => Some("false".to_owned()),
        None => None,
    }
}

/// A number as it is written.
pub open spec fn written_number(value: Option<u64>) -> Option<Seq<char>> {
    match value {
        Some(value) => Some(text::decimal(value as nat)),
        None => None,
    }
}

fn number_text(value: Option<u64>) -> (text: Option<String>)
    ensures
        text.deep_view() == written_number(value),
{
    match value {
        Some(value) => Some(decimal_text(value)),
        None => None,
    }
}

/// A JSON number.
pub open spec fn json_number(value: u64) -> JsonView {
    JsonView::Number(text::decimal(value as nat))
}

fn number_value(value: u64) -> (number: Json)
    ensures
        number@ == json_number(value),
{
    Json::Number(decimal_text(value))
}

/// The number, or how many items are asked for where nothing else is said.
pub open spec fn limit_or_default(limit: Option<u64>) -> u64 {
    match limit {
        Some(limit) => limit,
        None => DEFAULT_LIMIT,
    }
}

fn limit_or(limit: Option<u64>) -> (effective: u64)
    ensures
        effective == limit_or_default(limit),
{
    match limit {
        Some(limit) => limit,
        None => DEFAULT_LIMIT,
    }
}

/// A request with these query parameters.
pub open spec fn with_query(
    request: Result<RequestView, ErrorView>,
    query: Seq<(Seq<char>, Seq<char>)>,
) -> Result<RequestView, ErrorView> {
    match request {
        Ok(request) => Ok(RequestView { query, ..request }),
        Err(error) => Err(error),
    }
}

fn add_query(request: ApiRequest, query: Vec<(String, String)>) -> (full: ApiRequest)
    ensures
        full@ == (RequestView { query: query.deep_view(), ..request@ }),
{
    ApiRequest {
        method: request.method,
        url: request.url,
        query,
        body: request.body,
        auth: request.auth,
    }
}

/// The query parameters that say what to read of an issue.
pub open spec fn get_issue_query(request: GetIssueView) -> Seq<(Seq<char>, Seq<char>)> {
    present_params(
        seq![
            ("fields"@, comma_list(request.fields)),
            ("expand"@, comma_list(request.expand)),
            ("properties"@, comma_list(request.properties)),
            ("updateHistory"@, written_bool(request.update_history)),
            ("commentLimit"@, written_number(request.comment_limit)),
        ],
    )
}

/// The projects that a search is narrowed to: those asked for that are configured too,
/// where both name some; else those of the one that does.
pub open spec fn search_projects(
    configured: Seq<Seq<char>>,
    requested: Option<Seq<Seq<char>>>,
) -> Result<Seq<Seq<char>>, ErrorView> {
    let requested = match requested {
        Some(requested) => requested,
        None => Seq::empty(),
    };
    let both = configured.filter(|project: Seq<char>| requested.contains(project));
    if configured.len() == 0 {
        Ok(requested)
    } else if requested.len() == 0 {
        Ok(configured)
    } else if both.len() == 0 {
        Err(
            error::invalid_input(
                "projects_filter does not overlap with configured Jira project filter"@,
            ),
        )
    } else {
        Ok(both)
    }
}

/// The list, or none at all.
pub open spec fn list_or_empty(list: Option<Seq<Seq<char>>>) -> Seq<Seq<char>> {
    match list {
        Some(list) => list,
        None => Seq::empty(),
    }
}

/// What a search asks of Jira Cloud.
pub open spec fn cloud_search_body(request: SearchView, jql: Seq<char>) -> JsonView {
    JsonView::empty_object().with("jql"@, JsonView::Text(jql)).with(
        "maxResults"@,
        json_number(limit_or_default(request.limit)),
    ).with_some(
        "fields"@,
        match request.fields {
            Some(fields) => Some(json::text_array(fields)),
            None => None,
        },
    ).with_text("expand"@, comma_list(request.expand)).with_text(
        "nextPageToken"@,
        request.page_token,
    )
}

/// What a search asks of Jira Server and Data Center.
pub open spec fn server_search_body(request: SearchView, jql: Seq<char>) -> JsonView {
    JsonView::empty_object().with("jql"@, JsonView::Text(jql)).with(
        "startAt"@,
        json_number(
            match request.start_at {
                Some(start_at) => start_at,
                None => 0,
            },
        ),
    ).with("maxResults"@, json_number(limit_or_default(request.limit))).with(
        "fields"@,
        json::text_array(list_or_empty(request.fields)),
    ).with("expand"@, JsonView::Text(text::joined(list_or_empty(request.expand), ","@)))
}

/// The query for the issues of a project.
pub open spec fn project_jql(project_key: Seq<char>) -> Seq<char> {
    "project = \""@ + text::replaced(project_key, '"', "\\\""@) + "\""@
}

/// Whether a field's id, name or key holds the keyword, whatever the case of its letters.
pub open spec fn field_matches(field: FieldView, keyword: Option<Seq<char>>) -> bool {
    match keyword {
        None => true,
        Some(keyword) => {
            let wanted = text::lowercase_ascii(keyword);
            ||| text::contains_text(text::lowercase_ascii(field.id), wanted)
            ||| text::contains_text(text::lowercase_ascii(field.name), wanted)
            ||| field.key matches Some(key) && text::contains_text(
                text::lowercase_ascii(key),
                wanted,
            )
        },
    }
}

/// The first `limit` items of a sequence, or all where there are fewer.
pub open spec fn at_most<T>(items: Seq<T>, limit: u64) -> Seq<T> {
    if items.len() <= limit {
        items
    } else {
        items.take(limit as int)
    }
}

/// The fields that match a keyword, up to a limit.
pub open spec fn matching_fields(
    fields: Seq<FieldView>,
    keyword: Option<Seq<char>>,
    limit: Option<u64>,
) -> Seq<FieldView> {
    at_most(
        fields.filter(|field: FieldView| field_matches(field, keyword)),
        limit_or_default(limit),
    )
}

/// Whether an option's label holds the text, whatever the case of its letters.
pub open spec fn option_matches(option: JsonView, wanted: Option<Seq<char>>) -> bool {
    match wanted {
        None => true,
        Some(wanted) => models::option_label(option) matches Some(label) && text::contains_text(
            text::lowercase_ascii(label),
            text::lowercase_ascii(wanted),
        ),
    }
}

/// The options that hold a text in their label, up to a limit.
pub open spec fn matching_options(
    options: Seq<JsonView>,
    wanted: Option<Seq<char>>,
    limit: Option<u64>,
) -> Seq<JsonView> {
    at_most(
        options.filter(|option: JsonView| option_matches(option, wanted)),
        limit_or_default(limit),
    )
}

/// The first field of this id among the fields of these issue types.
pub open spec fn field_of_types(types: Seq<JsonView>, field_id: Seq<char>) -> Option<JsonView>
    decreases types.len(),
{
    if types.len() == 0 {
        None
    } else {
        match types.first().member("fields"@) {
            Some(fields) => match fields.member(field_id) {
                Some(field) => Some(field),
                None => field_of_types(types.drop_first(), field_id),
            },
            None => field_of_types(types.drop_first(), field_id),
        }
    }
}

/// The issue types of a project.
pub open spec fn types_of(project: JsonView) -> Seq<JsonView> {
    match project.member("issuetypes"@) {
        Some(JsonView::Array(types)) => types,
        _ => Seq::empty(),
    }
}

/// The first field of this id among the issue types of these projects.
pub open spec fn field_of_projects(projects: Seq<JsonView>, field_id: Seq<char>) -> Option<
    JsonView,
>
    decreases projects.len(),
{
    if projects.len() == 0 {
        None
    } else {
        match field_of_types(types_of(projects.first()), field_id) {
            Some(field) => Some(field),
            None => field_of_projects(projects.drop_first(), field_id),
        }
    }
}

/// The allowed values of a field, from what Jira says of the creation of issues.
pub open spec fn createmeta_options(value: JsonView, field_id: Seq<char>) -> Result<
    Seq<JsonView>,
    ErrorView,
> {
    match value.member("projects"@) {
        Some(JsonView::Array(projects)) => match field_of_projects(projects, field_id) {
            Some(field) => match field.member("allowedValues"@) {
                Some(JsonView::Array(values)) => match models::options_of(values) {
                    Some(options) => Ok(options),
                    None => Err(
                        error::unexpected_shape("createmeta option is not a JSON object"@),
                    ),
                },
                _ => Err(error::unexpected_shape("createmeta field missing allowedValues"@)),
            },
            None => Err(
                error::unexpected_shape("createmeta response missing field `"@ + field_id + "`"@),
            ),
        },
        _ => Err(error::unexpected_shape("createmeta response missing projects"@)),
    }
}

/// The options of a field, from what Jira Cloud says of them.
pub open spec fn context_options(value: JsonView) -> Result<Seq<JsonView>, ErrorView> {
    let refusal = ErrorView::JsonDecode { message: "expected a list of options under values"@ };
    match value.member("values"@) {
        Some(JsonView::Array(values)) => match models::options_of(values) {
            Some(options) => Ok(options),
            None => Err(refusal),
        },
        _ => Err(refusal),
    }
}

fn find_in_types<'a>(types: &'a Vec<Json>, field_id: &str) -> (field: Option<&'a Json>)
    ensures
        field.deep_view() == field_of_types(types.deep_view(), field_id@),
{
    let ghost views = types.deep_view();
    let mut i: usize = 0;
    proof {
        assert(views.skip(0) =~= views);
    }
    while i < types.len()
        invariant
            i <= types.len(),
            views == types.deep_view(),
            field_of_types(views, field_id@) == field_of_types(views.skip(i as int), field_id@),
        decreases types.len() - i,
    {
        proof {
            assert(views.skip(i as int).first() == types@[i as int]@);
            assert(views.skip(i as int).drop_first() =~= views.skip(i + 1));
        }
        if let Some(fields) = types[i].get("fields") {
            if let Some(field) = fields.get(field_id) {
                return Some(field);
            }
        }
        i = i + 1;
    }
    None
}

fn find_in_projects<'a>(projects: &'a Vec<Json>, field_id: &str) -> (field: Option<&'a Json>)
    ensures
        field.deep_view() == field_of_projects(projects.deep_view(), field_id@),
{
    let ghost views = projects.deep_view();
    let mut i: usize = 0;
    proof {
        assert(views.skip(0) =~= views);
    }
    while i < projects.len()
        invariant
            i <= projects.len(),
            views == projects.deep_view(),
            field_of_projects(views, field_id@) == field_of_projects(
                views.skip(i as int),
                field_id@,
            ),
        decreases projects.len() - i,
    {
        proof {
            assert(views.skip(i as int).first() == projects@[i as int]@);
            assert(views.skip(i as int).drop_first() =~= views.skip(i + 1));
        }
        if let Some(types) = projects[i].get("issuetypes") {
            if let Some(types) = types.as_array() {
                if let Some(field) = find_in_types(types, field_id) {
                    return Some(field);
                }
            }
        }
        i = i + 1;
    }
    None
}

/// The allowed values of a field, from what Jira says of the creation of issues.
pub fn extract_createmeta_options(value: &Json, field_id: &str) -> (options: Result<
    Vec<JiraFieldOption>,
    AtlassianError,
>)
    ensures
        outcome::of(options) == createmeta_options(value@, field_id@),
{
    let projects = match value.get("projects") {
        Some(projects) => projects.as_array(),
        None => None,
    };
    let projects = match projects {
        Some(projects) => projects,
        None => {
            return Err(
                AtlassianError::unexpected_shape("createmeta response missing projects".to_owned()),
            );
        },
    };
    let field = match find_in_projects(projects, field_id) {
        Some(field) => field,
        None => {
            return Err(
                AtlassianError::unexpected_shape(
                    concat3("createmeta response missing field `", field_id, "`"),
                ),
            );
        },
    };
    let values = match field.get("allowedValues") {
        Some(values) => values.as_array(),
        None => None,
    };
    match values {
        Some(values) => match read_options(values) {
            Some(options) => Ok(options),
            None => Err(
                AtlassianError::unexpected_shape(
                    "createmeta option is not a JSON object".to_owned(),
                ),
            ),
        },
        None => Err(
            AtlassianError::unexpected_shape("createmeta field missing allowedValues".to_owned()),
        ),
    }
}

fn extract_context_options(value: &Json) -> (options: Result<Vec<JiraFieldOption>, AtlassianError>)
    ensures
        outcome::of(options) == context_options(value@),
{
    let values = match value.get("values") {
        Some(values) => values.as_array(),
        None => None,
    };
    let options = match values {
        Some(values) => read_options(values),
        None => None,
    };
    match options {
        Some(options) => Ok(options),
        None => Err(
            AtlassianError::JsonDecode {
                message: "expected a list of options under values".to_owned(),
            },
        ),
    }
}

fn text_holds(text: &str, lowered: &str) -> (yes: bool)
    ensures
        yes == text::contains_text(text::lowercase_ascii(text@), lowered@),
{
    contains(to_ascii_lowercase(text).as_str(), lowered)
}

fn field_holds(field: &JiraField, keyword: &Option<String>) -> (yes: bool)
    ensures
        yes == field_matches(field.deep_view(), keyword.deep_view()),
{
    match keyword {
        None => true,
        Some(keyword) => {
            let wanted = to_ascii_lowercase(keyword.as_str());
            if text_holds(field.id.as_str(), wanted.as_str()) || text_holds(
                field.name.as_str(),
                wanted.as_str(),
            ) {
                return true;
            }
            match &field.key {
                Some(key) => text_holds(key.as_str(), wanted.as_str()),
                None => false,
            }
        },
    }
}

fn option_holds(option: &JiraFieldOption, wanted: &Option<String>) -> (yes: bool)
    ensures
        yes == option_matches(option.deep_view(), wanted.deep_view()),
{
    match wanted {
        None => true,
        Some(wanted) => {
            let wanted = to_ascii_lowercase(wanted.as_str());
            match option.label() {
                Some(label) => text_holds(label, wanted.as_str()),
                None => false,
            }
        },
    }
}

/// The reports of the fields that match a keyword, up to a limit.
pub fn filter_fields(
    fields: Vec<JiraField>,
    keyword: Option<String>,
    limit: Option<u64>,
) -> (found: Json)
    ensures
        found@ == models::simplified_fields(
            matching_fields(fields.deep_view(), keyword.deep_view(), limit),
        ),
{
    let limit: u64 = limit_or(limit);
    let ghost views = fields.deep_view();
    let ghost kept = |field: FieldView| field_matches(field, keyword.deep_view());
    let mut found: Vec<JiraField> = Vec::new();
    let mut i: usize = 0;
    proof {
        lists::lemma_filter_none(views, kept);
        assert(found.deep_view() =~= Seq::empty());
    }
    while i < fields.len() && (found.len() as u64) < limit
        invariant
            i <= fields.len(),
            views == fields.deep_view(),
            kept == (|field: FieldView| field_matches(field, keyword.deep_view())),
            found.deep_view() == views.take(i as int).filter(kept),
            found.len() <= limit,
        decreases fields.len() - i,
    {
        proof {
            lists::lemma_filter_next(views, kept, i as int);
            assert(views[i as int] == fields@[i as int].deep_view());
        }
        if field_holds(&fields[i], &keyword) {
            let field = fields[i].clone();
            let ghost before = found.deep_view();
            found.push(field);
            proof {
                assert(found.deep_view() =~= before.push(field.deep_view()));
            }
        }
        i = i + 1;
    }
    proof {
        let seen = views.take(i as int);
        Seq::filter_distributes_over_add(seen, views.skip(i as int), kept);
        assert(views =~= seen + views.skip(i as int));
        if i == views.len() {
            assert(seen =~= views);
        }
        assert(found.deep_view() =~= at_most(views.filter(kept), limit));
    }
    simplify_fields(&found)
}

/// The options that hold a text in their label, up to a limit, or only what they are
/// called.
pub fn filter_options(
    options: Vec<JiraFieldOption>,
    wanted: Option<String>,
    limit: Option<u64>,
    values_only: bool,
) -> (found: Json)
    ensures
        found@ == models::simplified_options(
            matching_options(options.deep_view(), wanted.deep_view(), limit),
            values_only,
        ),
{
    let limit: u64 = limit_or(limit);
    let ghost views = options.deep_view();
    let ghost kept = |option: JsonView| option_matches(option, wanted.deep_view());
    let mut found: Vec<JiraFieldOption> = Vec::new();
    let mut i: usize = 0;
    proof {
        lists::lemma_filter_none(views, kept);
        assert(found.deep_view() =~= Seq::empty());
    }
    while i < options.len() && (found.len() as u64) < limit
        invariant
            i <= options.len(),
            views == options.deep_view(),
            kept == (|option: JsonView| option_matches(option, wanted.deep_view())),
            found.deep_view() == views.take(i as int).filter(kept),
            found.len() <= limit,
        decreases options.len() - i,
    {
        proof {
            lists::lemma_filter_next(views, kept, i as int);
            assert(views[i as int] == options@[i as int].deep_view());
        }
        if option_holds(&options[i], &wanted) {
            let option = options[i].clone();
            let ghost before = found.deep_view();
            found.push(option);
            proof {
                assert(found.deep_view() =~= before.push(option.deep_view()));
            }
        }
        i = i + 1;
    }
    proof {
        let seen = views.take(i as int);
        Seq::filter_distributes_over_add(seen, views.skip(i as int), kept);
        assert(views =~= seen + views.skip(i as int));
        if i == views.len() {
            assert(seen =~= views);
        }
        assert(found.deep_view() =~= at_most(views.filter(kept), limit));
    }
    simplify_options(&found, values_only)
}

/// The paths of the Jira API.
pub open spec fn issue_path(issue_key: Seq<char>) -> Seq<char> {
    "/rest/api/2/issue/"@ + issue_key
}

pub open spec fn transitions_path(issue_key: Seq<char>) -> Seq<char> {
    "/rest/api/2/issue/"@ + issue_key + "/transitions"@
}

pub open spec fn comment_path(deployment: JiraDeployment, issue_key: Seq<char>) -> Seq<char> {
    match deployment {
        JiraDeployment::Cloud => "/rest/api/3/issue/"@ + issue_key + "/comment"@,
        JiraDeployment::ServerDataCenter => "/rest/api/2/issue/"@ + issue_key + "/comment"@,
    }
}

pub open spec fn context_option_path(field_id: Seq<char>, context_id: Seq<char>) -> Seq<char> {
    "/rest/api/3/field/"@ + field_id + "/context/"@ + context_id + "/option"@
}

/// What a comment is posted as.
pub open spec fn comment_payload(
    deployment: JiraDeployment,
    body: Seq<char>,
    visibility: Option<JsonView>,
) -> JsonView {
    json::singleton("body"@, formatting::comment_body(deployment, body)).with_some(
        "visibility"@,
        visibility,
    )
}

/// What a transition is posted as.
pub open spec fn transition_payload(
    deployment: JiraDeployment,
    transition_id: Seq<char>,
    fields: Option<JsonView>,
    comment: Option<Seq<char>>,
) -> JsonView {
    json::singleton(
        "transition"@,
        json::singleton("id"@, JsonView::Text(transition_id)),
    ).with_some("fields"@, fields).with_some(
        "update"@,
        match comment {
            Some(comment) => Some(
                json::singleton(
                    "comment"@,
                    JsonView::Array(
                        seq![
                            json::singleton(
                                "add"@,
                                json::singleton(
                                    "body"@,
                                    formatting::comment_body(deployment, comment),
                                ),
                            ),
                        ],
                    ),
                ),
            ),
            None => None,
        },
    )
}

/// What is reported of a transition that went through.
pub open spec fn transition_report(
    issue_key: Seq<char>,
    transition_id: Seq<char>,
    response: JsonView,
) -> JsonView {
    JsonView::empty_object().with("issue_key"@, JsonView::Text(issue_key)).with(
        "transition_id"@,
        JsonView::Text(transition_id),
    ).with("response"@, response)
}

fn comment_value(deployment: JiraDeployment, body: &str, visibility: Option<Json>) -> (value: Json)
    ensures
        value@ == comment_payload(deployment, body@, visibility.deep_view()),
{
    let mut payload = Json::single("body", comment_body_for_deployment(deployment, body));
    payload.set_optional("visibility", visibility);
    payload
}

fn transition_value(
    deployment: JiraDeployment,
    transition_id: &str,
    fields: Option<Json>,
    comment: Option<String>,
) -> (value: Json)
    ensures
        value@ == transition_payload(
            deployment,
            transition_id@,
            fields.deep_view(),
            comment.deep_view(),
        ),
{
    let mut payload = Json::single("transition", Json::single("id", Json::text(transition_id)));
    payload.set_optional("fields", fields);
    if let Some(comment) = comment {
        let body = comment_body_for_deployment(deployment, comment.as_str());
        let added = Json::single("add", Json::single("body", body));
        payload.set("update", Json::single("comment", Json::array_of_one(added)));
    }
    payload
}

/// What a client stands for.
#[verifier::ext_equal]
pub struct ClientView {
    pub config: ConfigView,
    pub http: HttpView,
}

impl View for JiraClient {
    type V = ClientView;

    open spec fn view(&self) -> ClientView {
        ClientView { config: self.config@, http: self.http@ }
    }
}

impl DeepView for JiraClient {
    type V = ClientView;

    open spec fn deep_view(&self) -> ClientView {
        self@
    }
}

impl Clone for JiraClient {
    fn clone(&self) -> (copy: Self)
        ensures
            copy@ == self@,
    {
        JiraClient { config: self.config.clone(), http: self.http.clone() }
    }
}

/// The client of a configured service.
pub open spec fn client_of(config: ConfigView) -> Result<ClientView, ErrorView> {
    match http::client_at(
        config.base_url,
        config.auth,
        config.timeout_seconds,
        config.ssl_verify,
    ) {
        Ok(http) => Ok(ClientView { config, http }),
        Err(error) => Err(error),
    }
}

impl ClientView {
    /// An issue's key as a segment of a path, where the issue may be touched.
    pub open spec fn issue_segment(self, issue_key: Seq<char>) -> Result<Seq<char>, ErrorView> {
        match formatting::issue_allowed(issue_key, self.config.projects_filter) {
            Ok(_) => formatting::path_segment(issue_key, "issue_key"@),
            Err(error) => Err(error),
        }
    }

    /// The request that reads an issue.
    pub open spec fn get_issue_request(self, request: GetIssueView) -> Result<
        RequestView,
        ErrorView,
    > {
        match self.issue_segment(request.issue_key) {
            Ok(issue_key) => with_query(
                self.http.request_to(Method::Get, issue_path(issue_key), None),
                get_issue_query(request),
            ),
            Err(error) => Err(error),
        }
    }

    /// The request that searches issues.
    pub open spec fn search_request(self, request: SearchView) -> Result<
        RequestView,
        ErrorView,
    > {
        match search_projects(
            self.config.projects_filter,
            request.projects_filter,
        ) {
            Ok(projects) => {
                let jql = formatting::narrowed_jql(request.jql, projects);
                match self.config.deployment {
                    JiraDeployment::Cloud => self.http.request_to(
                        Method::Post,
                        "/rest/api/3/search/jql"@,
                        Some(cloud_search_body(request, jql)),
                    ),
                    JiraDeployment::ServerDataCenter => self.http.request_to(
                        Method::Post,
                        "/rest/api/2/search"@,
                        Some(server_search_body(request, jql)),
                    ),
                }
            },
            Err(error) => Err(error),
        }
    }

    /// The request that lists the options of a field.
    pub open spec fn field_options_request(self, request: FieldOptionsView) -> Result<
        RequestView,
        ErrorView,
    > {
        match formatting::path_segment(request.field_id, "field_id"@) {
            Err(error) => Err(error),
            Ok(field_id) => match self.config.deployment {
                JiraDeployment::Cloud => match request.context_id {
                    None => Err(
                        error::invalid_input(
                            "context_id is required for Jira Cloud field options"@,
                        ),
                    ),
                    Some(context_id) => match formatting::path_segment(
                        context_id,
                        "context_id"@,
                    ) {
                        Err(error) => Err(error),
                        Ok(context_id) => with_query(
                            self.http.request_to(
                                Method::Get,
                                context_option_path(field_id, context_id),
                                None,
                            ),
                            seq![
                                (
                                    "maxResults"@,
                                    text::decimal(limit_or_default(request.return_limit) as nat),
                                ),
                            ],
                        ),
                    },
                },
                JiraDeployment::ServerDataCenter => match request.project_key {
                    None => Err(
                        error::invalid_input(
                            "project_key is required for Jira Server/Data Center field options"@,
                        ),
                    ),
                    Some(project_key) => match formatting::path_segment(
                        project_key,
                        "project_key"@,
                    ) {
                        Err(error) => Err(error),
                        Ok(project_key) => match request.issue_type {
                            None => Err(
                                error::invalid_input(
                                    "issue_type is required for Jira Server/Data Center field options"@,
                                ),
                            ),
                            Some(issue_type) => with_query(
                                self.http.request_to(
                                    Method::Get,
                                    "/rest/api/2/issue/createmeta"@,
                                    None,
                                ),
                                seq![
                                    ("projectKeys"@, project_key),
                                    ("issuetypeNames"@, issue_type),
                                    ("expand"@, "projects.issuetypes.fields"@),
                                ],
                            ),
                        },
                    },
                },
            },
        }
    }

    /// The options that a reply lists for a field.
    pub open spec fn field_options_of(self, request: FieldOptionsView, reply: JsonView) -> Result<
        Seq<JsonView>,
        ErrorView,
    > {
        match self.config.deployment {
            JiraDeployment::Cloud => context_options(reply),
            JiraDeployment::ServerDataCenter => createmeta_options(
                reply,
                text::trimmed(request.field_id),
            ),
        }
    }

    /// The request that posts a comment.
    pub open spec fn add_comment_request(
        self,
        issue_key: Seq<char>,
        body: Seq<char>,
        visibility: Option<JsonView>,
    ) -> Result<RequestView, ErrorView> {
        match self.issue_segment(issue_key) {
            Err(error) => Err(error),
            Ok(issue_key) => match formatting::optional_object_argument(
                visibility,
                "visibility"@,
            ) {
                Err(error) => Err(error),
                Ok(visibility) => self.http.request_to(
                    Method::Post,
                    comment_path(self.config.deployment, issue_key),
                    Some(comment_payload(self.config.deployment, body, visibility)),
                ),
            },
        }
    }

    /// The request that replaces a comment.
    pub open spec fn edit_comment_request(
        self,
        issue_key: Seq<char>,
        comment_id: Seq<char>,
        body: Seq<char>,
        visibility: Option<JsonView>,
    ) -> Result<RequestView, ErrorView> {
        match self.issue_segment(issue_key) {
            Err(error) => Err(error),
            Ok(issue_key) => match formatting::path_segment(comment_id, "comment_id"@) {
                Err(error) => Err(error),
                Ok(comment_id) => match formatting::optional_object_argument(
                    visibility,
                    "visibility"@,
                ) {
                    Err(error) => Err(error),
                    Ok(visibility) => self.http.request_to(
                        Method::Put,
                        comment_path(self.config.deployment, issue_key) + "/"@ + comment_id,
                        Some(comment_payload(self.config.deployment, body, visibility)),
                    ),
                },
            },
        }
    }

    /// The request that lists the transitions of an issue.
    pub open spec fn transitions_request(self, issue_key: Seq<char>) -> Result<
        RequestView,
        ErrorView,
    > {
        match self.issue_segment(issue_key) {
            Ok(issue_key) => self.http.request_to(Method::Get, transitions_path(issue_key), None),
            Err(error) => Err(error),
        }
    }

    /// The request that takes an issue through a transition.
    pub open spec fn transition_request(
        self,
        issue_key: Seq<char>,
        transition_id: Seq<char>,
        fields: Option<JsonView>,
        comment: Option<Seq<char>>,
    ) -> Result<RequestView, ErrorView> {
        match self.issue_segment(issue_key) {
            Err(error) => Err(error),
            Ok(issue_key) => match formatting::path_segment(transition_id, "transition_id"@) {
                Err(error) => Err(error),
                Ok(transition_id) => match formatting::optional_object_argument(
                    fields,
                    "fields"@,
                ) {
                    Err(error) => Err(error),
                    Ok(fields) => self.http.request_to(
                        Method::Post,
                        transitions_path(issue_key),
                        Some(
                            transition_payload(
                                self.config.deployment,
                                transition_id,
                                fields,
                                comment,
                            ),
                        ),
                    ),
                },
            },
        }
    }

    /// The request that lists the issues of a project.
    pub open spec fn project_issues_request(
        self,
        project_key: Seq<char>,
        limit: Option<u64>,
        start_at: Option<u64>,
    ) -> Result<RequestView, ErrorView> {
        match formatting::path_segment(project_key, "project_key"@) {
            Err(error) => Err(error),
            Ok(project_key) => self.search_request(
                SearchView { limit, start_at, ..plain_search(project_jql(project_key)) },
            ),
        }
    }
}

impl JiraClient {
    /// The client of a configured service.
    pub fn new(config: JiraConfig) -> (client: Result<JiraClient, AtlassianError>)
        ensures
            outcome::of(client) == client_of(config@),
    {
        let http = AtlassianHttpClient::new(
            config.base_url.as_str(),
            config.auth.clone(),
            config.timeout_seconds,
            config.ssl_verify,
        );
        match http {
            Ok(http) => Ok(JiraClient { config, http }),
            Err(error) => Err(error),
        }
    }

    fn allowed_segment(&self, issue_key: &str) -> (segment: Result<String, AtlassianError>)
        ensures
            outcome::of(segment) == self@.issue_segment(issue_key@),
    {
        ensure_issue_allowed(issue_key, &self.config)?;
        safe_path_segment(issue_key, "issue_key")
    }

    /// The request that reads an issue.
    pub fn get_issue(&self, request: GetIssueRequest) -> (made: Result<ApiRequest, AtlassianError>)
        ensures
            outcome::of(made) == self@.get_issue_request(request@),
    {
        let issue_key = self.allowed_segment(request.issue_key.as_str())?;
        let mut pairs: Vec<(String, Option<String>)> = Vec::new();
        pairs.push(("fields".to_owned(), comma_joined(request.fields)));
        pairs.push(("expand".to_owned(), comma_joined(request.expand)));
        pairs.push(("properties".to_owned(), comma_joined(request.properties)));
        pairs.push(("updateHistory".to_owned(), bool_text(request.update_history)));
        pairs.push(("commentLimit".to_owned(), number_text(request.comment_limit)));
        proof {
            assert(pairs.deep_view() =~= seq![
                ("fields"@, comma_list(request.fields.deep_view())),
                ("expand"@, comma_list(request.expand.deep_view())),
                ("properties"@, comma_list(request.properties.deep_view())),
                ("updateHistory"@, written_bool(request.update_history)),
                ("commentLimit"@, written_number(request.comment_limit)),
            ]);
        }
        let query = optional_query_params(pairs);
        let path = concat("/rest/api/2/issue/", issue_key.as_str());
        Ok(add_query(self.http.get(path.as_str())?, query))
    }

    /// The projects that a search is narrowed to.
    fn effective_projects(&self, requested: &Option<Vec<String>>) -> (projects: Result<
        Vec<String>,
        AtlassianError,
    >)
        ensures
            outcome::of(projects) == search_projects(
                self.config.projects_filter@,
                requested.deep_view(),
            ),
    {
        let configured = self.config.projects_filter.to_texts();
        let requested = match requested {
            Some(requested) => copy_texts(requested),
            None => {
                let none: Vec<String> = Vec::new();
                proof {
                    assert(none.deep_view() =~= Seq::empty());
                }
                none
            },
        };
        if configured.is_empty() {
            return Ok(requested);
        }
        if requested.is_empty() {
            return Ok(configured);
        }
        let wanted = StringSet::from_texts(&requested);
        let ghost views = configured.deep_view();
        let ghost kept = |project: Seq<char>| requested.deep_view().contains(project);
        let mut both: Vec<String> = Vec::new();
        let mut i: usize = 0;
        proof {
            lists::lemma_filter_none(views, kept);
            assert(both.deep_view() =~= Seq::empty());
        }
        while i < configured.len()
            invariant
                i <= configured.len(),
                views == configured.deep_view(),
                kept == (|project: Seq<char>| requested.deep_view().contains(project)),
                wanted@.to_set() == requested.deep_view().to_set(),
                both.deep_view() == views.take(i as int).filter(kept),
            decreases configured.len() - i,
        {
            proof {
                lists::lemma_filter_next(views, kept, i as int);
                assert(views[i as int] == configured@[i as int]@);
                assert(wanted@.contains(views[i as int]) == wanted@.to_set().contains(
                    views[i as int],
                ));
                assert(requested.deep_view().contains(views[i as int])
                    == requested.deep_view().to_set().contains(views[i as int]));
            }
            if wanted.contains(configured[i].as_str()) {
                let project = configured[i].clone();
                let ghost before = both.deep_view();
                both.push(project);
                proof {
                    assert(both.deep_view() =~= before.push(project@));
                }
            }
            i = i + 1;
        }
        proof {
            assert(views.take(i as int) =~= views);
        }
        if both.is_empty() {
            Err(
                AtlassianError::invalid_input(
                    "projects_filter does not overlap with configured Jira project filter".to_owned(),
                ),
            )
        } else {
            Ok(both)
        }
    }

    /// The request that searches issues.
    pub fn search(&self, request: SearchRequest) -> (made: Result<ApiRequest, AtlassianError>)
        ensures
            outcome::of(made) == self@.search_request(request@),
    {
        let limit: u64 = limit_or(request.limit);
        let projects = self.effective_projects(&request.projects_filter)?;
        let jql = inject_project_filter(request.jql.as_str(), projects.as_slice());
        let mut body = Json::single("jql", Json::Text(jql));
        match self.config.deployment {
            JiraDeployment::Cloud => {
                body.set("maxResults", number_value(limit));
                body.set_optional(
                    "fields",
                    match request.fields {
                        Some(fields) => Some(Json::array_of_texts(fields)),
                        None => None,
                    },
                );
                body.set_optional_text("expand", comma_joined(request.expand));
                body.set_optional_text("nextPageToken", request.page_token);
                self.http.post_json("/rest/api/3/search/jql", body)
            },
            JiraDeployment::ServerDataCenter => {
                let start_at: u64 = match request.start_at {
                    Some(start_at) => start_at,
                    None => 0,
                };
                body.set("startAt", number_value(start_at));
                body.set("maxResults", number_value(limit));
                body.set("fields", Json::array_of_texts(texts_or_none(request.fields)));
                let expand = texts_or_none(request.expand);
                body.set("expand", Json::Text(join(&expand, ",")));
                self.http.post_json("/rest/api/2/search", body)
            },
        }
    }

    /// The request that lists the issues of a project.
    pub fn get_project_issues(
        &self,
        project_key: String,
        limit: Option<u64>,
        start_at: Option<u64>,
    ) -> (made: Result<ApiRequest, AtlassianError>)
        ensures
            outcome::of(made) == self@.project_issues_request(project_key@, limit, start_at),
    {
        let project_key = safe_path_segment(project_key.as_str(), "project_key")?;
        let escaped = replace_char(project_key.as_str(), '"', "\\\"");
        let jql = concat3("project = \"", escaped.as_str(), "\"");
        let request = SearchRequest {
            jql,
            fields: None,
            limit,
            start_at,
            projects_filter: None,
            expand: None,
            page_token: None,
        };
        self.search(request)
    }

    /// The request that lists all fields.
    pub fn search_fields(&self) -> (made: Result<ApiRequest, AtlassianError>)
        ensures
            outcome::of(made) == self@.http.request_to(Method::Get, "/rest/api/2/field"@, None),
    {
        self.http.get("/rest/api/2/field")
    }

    /// The fields of a reply that match a keyword, up to a limit.
    pub fn read_fields_reply(
        &self,
        keyword: Option<String>,
        limit: Option<u64>,
        reply: Json,
    ) -> (found: Result<Json, AtlassianError>)
        ensures
            outcome::of(found) == (match models::fields_of(reply@) {
                Ok(fields) => Ok(
                    models::simplified_fields(matching_fields(fields, keyword.deep_view(), limit)),
                ),
                Err(error) => Err(error),
            }),
    {
        let fields = read_fields(&reply)?;
        Ok(filter_fields(fields, keyword, limit))
    }

    /// The request that lists the options of a field.
    pub fn get_field_options(&self, request: &FieldOptionsRequest) -> (made: Result<
        ApiRequest,
        AtlassianError,
    >)
        ensures
            outcome::of(made) == self@.field_options_request(request@),
    {
        let field_id = safe_path_segment(request.field_id.as_str(), "field_id")?;
        let mut query: Vec<(String, String)> = Vec::new();
        match self.config.deployment {
            JiraDeployment::Cloud => {
                let context_id = match &request.context_id {
                    Some(context_id) => safe_path_segment(context_id.as_str(), "context_id")?,
                    None => {
                        return Err(
                            AtlassianError::invalid_input(
                                "context_id is required for Jira Cloud field options".to_owned(),
                            ),
                        );
                    },
                };
                let head = concat3("/rest/api/3/field/", field_id.as_str(), "/context/");
                let path = concat3(head.as_str(), context_id.as_str(), "/option");
                query.push(("maxResults".to_owned(), decimal_text(limit_or(request.return_limit))));
                proof {
                    assert(query.deep_view() =~= seq![
                        (
                            "maxResults"@,
                            text::decimal(limit_or_default(request.return_limit) as nat),
                        ),
                    ]);
                }
                Ok(add_query(self.http.get(path.as_str())?, query))
            },
            JiraDeployment::ServerDataCenter => {
                let project_key = match &request.project_key {
                    Some(project_key) => safe_path_segment(project_key.as_str(), "project_key")?,
                    None => {
                        return Err(
                            AtlassianError::invalid_input(
                                "project_key is required for Jira Server/Data Center field options".to_owned(),
                            ),
                        );
                    },
                };
                let issue_type = match &request.issue_type {
                    Some(issue_type) => issue_type.clone(),
                    None => {
                        return Err(
                            AtlassianError::invalid_input(
                                "issue_type is required for Jira Server/Data Center field options".to_owned(),
                            ),
                        );
                    },
                };
                query.push(("projectKeys".to_owned(), project_key));
                query.push(("issuetypeNames".to_owned(), issue_type));
                query.push(("expand".to_owned(), "projects.issuetypes.fields".to_owned()));
                proof {
                    assert(query.deep_view() =~= seq![
                        ("projectKeys"@, project_key@),
                        ("issuetypeNames"@, issue_type@),
                        ("expand"@, "projects.issuetypes.fields"@),
                    ]);
                }
                Ok(add_query(self.http.get("/rest/api/2/issue/createmeta")?, query))
            },
        }
    }

    /// The options of a reply that hold the wanted text, up to a limit.
    pub fn read_field_options_reply(&self, request: FieldOptionsRequest, reply: Json) -> (found:
        Result<Json, AtlassianError>)
        ensures
            outcome::of(found) == (match self@.field_options_of(request@, reply@) {
                Ok(options) => Ok(
                    models::simplified_options(
                        matching_options(
                            options,
                            request.contains.deep_view(),
                            request.return_limit,
                        ),
                        request.values_only,
                    ),
                ),
                Err(error) => Err(error),
            }),
    {
        let options = match self.config.deployment {
            JiraDeployment::Cloud => extract_context_options(&reply)?,
            JiraDeployment::ServerDataCenter => {
                let field_id = trim(request.field_id.as_str());
                extract_createmeta_options(&reply, field_id.as_str())?
            },
        };
        Ok(filter_options(options, request.contains, request.return_limit, request.values_only))
    }

    /// The request that posts a comment.
    pub fn add_comment(&self, issue_key: String, body: String, visibility: Option<Json>) -> (made:
        Result<ApiRequest, AtlassianError>)
        ensures
            outcome::of(made) == self@.add_comment_request(
                issue_key@,
                body@,
                visibility.deep_view(),
            ),
    {
        let issue_key = self.allowed_segment(issue_key.as_str())?;
        let visibility = parse_optional_object(visibility, "visibility")?;
        let payload = comment_value(self.config.deployment, body.as_str(), visibility);
        let path = self.issue_comment_path(issue_key.as_str());
        self.http.post_json(path.as_str(), payload)
    }

    /// The request that replaces a comment.
    pub fn edit_comment(
        &self,
        issue_key: String,
        comment_id: String,
        body: String,
        visibility: Option<Json>,
    ) -> (made: Result<ApiRequest, AtlassianError>)
        ensures
            outcome::of(made) == self@.edit_comment_request(
                issue_key@,
                comment_id@,
                body@,
                visibility.deep_view(),
            ),
    {
        let issue_key = self.allowed_segment(issue_key.as_str())?;
        let comment_id = safe_path_segment(comment_id.as_str(), "comment_id")?;
        let visibility = parse_optional_object(visibility, "visibility")?;
        let payload = comment_value(self.config.deployment, body.as_str(), visibility);
        let comments = self.issue_comment_path(issue_key.as_str());
        let path = concat3(comments.as_str(), "/", comment_id.as_str());
        self.http.put_json(path.as_str(), payload)
    }

    /// The request that lists the transitions of an issue.
    pub fn get_transitions(&self, issue_key: String) -> (made: Result<ApiRequest, AtlassianError>)
        ensures
            outcome::of(made) == self@.transitions_request(issue_key@),
    {
        let issue_key = self.allowed_segment(issue_key.as_str())?;
        let path = concat3("/rest/api/2/issue/", issue_key.as_str(), "/transitions");
        self.http.get(path.as_str())
    }

    /// The request that takes an issue through a transition.
    pub fn transition_issue(
        &self,
        issue_key: String,
        transition_id: String,
        fields: Option<Json>,
        comment: Option<String>,
    ) -> (made: Result<ApiRequest, AtlassianError>)
        ensures
            outcome::of(made) == self@.transition_request(
                issue_key@,
                transition_id@,
                fields.deep_view(),
                comment.deep_view(),
            ),
    {
        let issue_key = self.allowed_segment(issue_key.as_str())?;
        let transition_id = safe_path_segment(transition_id.as_str(), "transition_id")?;
        let fields = parse_optional_object(fields, "fields")?;
        let payload = transition_value(
            self.config.deployment,
            transition_id.as_str(),
            fields,
            comment,
        );
        let path = concat3("/rest/api/2/issue/", issue_key.as_str(), "/transitions");
        self.http.post_json(path.as_str(), payload)
    }

    /// What is reported of a transition that went through.
    pub fn read_transition_reply(
        &self,
        issue_key: String,
        transition_id: String,
        response: Json,
    ) -> (report: Json)
        ensures
            report@ == transition_report(
                text::trimmed(issue_key@),
                text::trimmed(transition_id@),
                response@,
            ),
    {
        let mut report = Json::new_object();
        report.set("issue_key", Json::Text(trim(issue_key.as_str())));
        report.set("transition_id", Json::Text(trim(transition_id.as_str())));
        report.set("response", response);
        report
    }

    /// The issue that a reply reports.
    pub fn read_issue_reply(&self, reply: Json) -> (issue: Result<Json, AtlassianError>)
        ensures
            outcome::of(issue) == object_reply(reply@, models::simplified_issue(reply@)),
    {
        check_object(&reply)?;
        Ok(simplify_issue(reply))
    }

    /// The result of a search that a reply reports.
    pub fn read_search_reply(&self, reply: Json) -> (found: Result<Json, AtlassianError>)
        ensures
            outcome::of(found) == object_reply(reply@, models::simplified_search(reply@)),
            found matches Ok(found) ==> found@.member("next_page_token"@) == reply@.member(
                "nextPageToken"@,
            ),
    {
        check_object(&reply)?;
        proof {
            models::law_next_page_token_is_kept(reply@);
        }
        Ok(simplify_search(reply))
    }

    /// The comment that a reply reports, after it was added or edited.
    pub fn read_comment_reply(&self, reply: Json) -> (comment: Result<Json, AtlassianError>)
        ensures
            outcome::of(comment) == object_reply(reply@, models::simplified_comment(reply@)),
    {
        check_object(&reply)?;
        Ok(simplify_comment(reply))
    }

    /// The transitions that a reply lists.
    pub fn read_transitions_reply(&self, reply: Json) -> (listing: Result<Json, AtlassianError>)
        ensures
            outcome::of(listing) == object_reply(reply@, models::simplified_transitions(reply@)),
    {
        check_object(&reply)?;
        Ok(simplify_transitions(reply))
    }

    fn issue_comment_path(&self, issue_key: &str) -> (path: String)
        ensures
            path@ == comment_path(self.config.deployment, issue_key@),
    {
        match self.config.deployment {
            JiraDeployment::Cloud => concat3("/rest/api/3/issue/", issue_key, "/comment"),
            JiraDeployment::ServerDataCenter => concat3(
                "/rest/api/2/issue/",
                issue_key,
                "/comment",
            ),
        }
    }
}

/// What a reply that must be an object is read as.
pub open spec fn object_reply(reply: JsonView, read: JsonView) -> Result<JsonView, ErrorView> {
    if reply is Object {
        Ok(read)
    } else {
        Err(ErrorView::JsonDecode { message: "expected a JSON object"@ })
    }
}

fn check_object(reply: &Json) -> (checked: Result<(), AtlassianError>)
    ensures
        outcome::of(checked) == (if reply@ is Object {
            Ok(())
        } else {
            Err(ErrorView::JsonDecode { message: "expected a JSON object"@ })
        }),
{
    if reply.is_object() {
        Ok(())
    } else {
        Err(AtlassianError::JsonDecode { message: "expected a JSON object".to_owned() })
    }
}

fn texts_or_none(texts: Option<Vec<String>>) -> (list: Vec<String>)
    ensures
        list.deep_view() == list_or_empty(texts.deep_view()),
{
    match texts {
        Some(texts) => texts,
        None => {
            let none: Vec<String> = Vec::new();
            proof {
                assert(none.deep_view() =~= Seq::empty());
            }
            none
        },
    }
}

/// Where projects are configured, a search is narrowed to some of them and to no other,
/// and to none that was not asked for where some were.
pub proof fn law_search_projects_are_configured(
    configured: Seq<Seq<char>>,
    requested: Option<Seq<Seq<char>>>,
)
    requires
        configured.len() > 0,
    ensures
        search_projects(configured, requested) matches Ok(projects) ==> {
            &&& projects.len() > 0
            &&& forall|i: int|
                0 <= i < projects.len() ==> {
                    &&& configured.contains(#[trigger] projects[i])
                    &&& list_or_empty(requested).len() > 0 ==> list_or_empty(requested).contains(
                        projects[i],
                    )
                }
        },
{
    let asked = list_or_empty(requested);
    let kept = |project: Seq<char>| asked.contains(project);
    let both = configured.filter(kept);
    if asked.len() > 0 && both.len() > 0 {
        assert forall|i: int| 0 <= i < both.len() implies configured.contains(#[trigger] both[i])
            && asked.contains(both[i]) by {
            configured.lemma_filter_pred(kept, i);
            configured.lemma_filter_contains_rev(kept, both[i]);
        }
    }
}

/// Where projects are configured, the query that a search sends is narrowed to some of
/// them and to no other.
pub proof fn law_search_stays_in_filter(client: ClientView, request: SearchView)
    requires
        client.config.projects_filter.len() > 0,
    ensures
        client.search_request(request) matches Ok(made) ==> exists|projects: Seq<Seq<char>>|
            {
                &&& projects.len() > 0
                &&& forall|i: int|
                    0 <= i < projects.len() ==> client.config.projects_filter.contains(
                        #[trigger] projects[i],
                    )
                &&& made.body->0.member("jql"@) == Some(
                    JsonView::Text(#[trigger] formatting::narrowed_jql(request.jql, projects)),
                )
            },
{
    if let Ok(made) = client.search_request(request) {
        law_search_projects_are_configured(
            client.config.projects_filter,
            request.projects_filter,
        );
        let projects = search_projects(
            client.config.projects_filter,
            request.projects_filter,
        )->Ok_0;
        let jql = formatting::narrowed_jql(request.jql, projects);
        reveal_strlit("jql");
        reveal_strlit("maxResults");
        reveal_strlit("fields");
        reveal_strlit("expand");
        reveal_strlit("nextPageToken");
        reveal_strlit("startAt");
        assert("jql"@.len() == 3);
        assert("maxResults"@ != "jql"@);
        assert("fields"@ != "jql"@);
        assert("expand"@ != "jql"@);
        assert("nextPageToken"@ != "jql"@);
        assert("startAt"@ != "jql"@);
        assert(cloud_search_body(request, jql).member("jql"@) == Some(JsonView::Text(jql)));
        assert(server_search_body(request, jql).member("jql"@) == Some(JsonView::Text(jql)));
        assert(made.body->0.member("jql"@) == Some(JsonView::Text(jql)));
    }
}

/// Where projects are configured, no request is made for an issue of another project:
/// not to read it, not to comment on it and not to list its transitions or take it
/// through one.
pub proof fn law_issue_requests_stay_in_filter(
    client: ClientView,
    request: GetIssueView,
    comment_id: Seq<char>,
    transition_id: Seq<char>,
    body: Seq<char>,
    value: Option<JsonView>,
    comment: Option<Seq<char>>,
)
    requires
        client.config.projects_filter.len() > 0,
        client.get_issue_request(request) is Ok || client.add_comment_request(
            request.issue_key,
            body,
            value,
        ) is Ok || client.edit_comment_request(request.issue_key, comment_id, body, value) is Ok
            || client.transitions_request(request.issue_key) is Ok || client.transition_request(
            request.issue_key,
            transition_id,
            value,
            comment,
        ) is Ok,
    ensures
        text::before_first(request.issue_key, '-') matches Some(project)
            && client.config.projects_filter.contains(project),
{
}

/// No more fields are reported than asked for, and none that does not match.
pub proof fn law_matching_fields_match(
    fields: Seq<FieldView>,
    keyword: Option<Seq<char>>,
    limit: Option<u64>,
)
    ensures
        matching_fields(fields, keyword, limit).len() <= limit_or_default(limit),
        forall|i: int|
            0 <= i < matching_fields(fields, keyword, limit).len() ==> field_matches(
                #[trigger] matching_fields(fields, keyword, limit)[i],
                keyword,
            ) && fields.contains(matching_fields(fields, keyword, limit)[i]),
{
    let kept = |field: FieldView| field_matches(field, keyword);
    let found = matching_fields(fields, keyword, limit);
    assert forall|i: int| 0 <= i < found.len() implies field_matches(#[trigger] found[i], keyword)
        && fields.contains(found[i]) by {
        fields.lemma_filter_pred(kept, i);
        assert(fields.filter(kept)[i] == found[i]);
        fields.lemma_filter_contains_rev(kept, found[i]);
    }
}

/// No more options are reported than asked for, and none that does not match.
pub proof fn law_matching_options_match(
    options: Seq<JsonView>,
    wanted: Option<Seq<char>>,
    limit: Option<u64>,
)
    ensures
        matching_options(options, wanted, limit).len() <= limit_or_default(limit),
        forall|i: int|
            0 <= i < matching_options(options, wanted, limit).len() ==> option_matches(
                #[trigger] matching_options(options, wanted, limit)[i],
                wanted,
            ) && options.contains(matching_options(options, wanted, limit)[i]),
{
    let kept = |option: JsonView| option_matches(option, wanted);
    let found = matching_options(options, wanted, limit);
    assert forall|i: int| 0 <= i < found.len() implies option_matches(#[trigger] found[i], wanted)
        && options.contains(found[i]) by {
        options.lemma_filter_pred(kept, i);
        assert(options.filter(kept)[i] == found[i]);
        options.lemma_filter_contains_rev(kept, found[i]);
    }
}

} // verus!
