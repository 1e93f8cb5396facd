//! What the tools send, built from their arguments.

use vstd::prelude::*;

use crate::jira::client;
use crate::jira::config::JiraDeployment;
use crate::jira::formatting;
use crate::jira::formatting::{comment_body_for_deployment, merge_optional_objects};
use crate::jira::tools::{
    JiraAddWorklogArgs, JiraCreateIssueArgs, JiraCreateIssueLinkArgs,
    JiraCreateRemoteIssueLinkArgs, JiraCreateSprintArgs, JiraCreateVersionArgs,
    JiraUpdateIssueArgs, JiraUpdateSprintArgs,
};
use crate::json::{take_entry, Json, JsonView};
use crate::mcp::args;
use crate::mcp::args::{
    optional_non_empty_arg, parse_optional_object_arg, parse_optional_string_list_arg,
    parse_required_object_arg, parse_required_object_list_arg, refuse, required_non_empty_arg,
    take_optional_string_alias, take_optional_string_field, take_required_string_field,
    value_into_object,
};
use crate::mcp_errors::{jira_error, ErrorData, FailureView};
use crate::text::{concat, decimal_text};
use crate::{json, outcome, text};

verus! {

/// What the arguments for the creation of an issue stand for.
#[verifier::ext_equal]
pub struct CreateIssueView {
    pub project_key: Seq<char>,
    pub summary: Seq<char>,
    pub issue_type: Seq<char>,
    pub assignee: Option<Seq<char>>,
    pub description: Option<Seq<char>>,
    pub components: Option<JsonView>,
    pub additional_fields: Option<JsonView>,
}

impl View for JiraCreateIssueArgs {
    type V = CreateIssueView;

    open spec fn view(&self) -> CreateIssueView {
        CreateIssueView {
            project_key: self.project_key@,
            summary: self.summary@,
            issue_type: self.issue_type@,
            assignee: self.assignee.deep_view(),
            description: self.description.deep_view(),
            components: self.components.deep_view(),
            additional_fields: self.additional_fields.deep_view(),
        }
    }
}

/// A user, as an issue's field names one.
pub open spec fn user_reference(deployment: JiraDeployment, user: Seq<char>) -> JsonView {
    match deployment {
        JiraDeployment::Cloud => json::singleton("accountId"@, JsonView::Text(user)),
        JiraDeployment::ServerDataCenter => json::singleton("name"@, JsonView::Text(user)),
    }
}

fn user_value(deployment: JiraDeployment, user: &str) -> (value: Json)
    ensures
        value@ == user_reference(deployment, user@),
{
    match deployment {
        JiraDeployment::Cloud => Json::single("accountId", Json::text(user)),
        JiraDeployment::ServerDataCenter => Json::single("name", Json::text(user)),
    }
}

/// Components, as an issue's field names them; none where the list names none.
pub open spec fn component_references(names: Option<Seq<Seq<char>>>) -> Option<JsonView> {
    match names {
        Some(names) => if names.len() == 0 {
            None
        } else {
            Some(
                JsonView::Array(
                    names.map_values(
                        |name: Seq<char>| json::singleton("name"@, JsonView::Text(name)),
                    ),
                ),
            )
        },
        None => None,
    }
}

fn component_values(names: Option<Vec<String>>) -> (value: Option<Json>)
    ensures
        value.deep_view() == component_references(names.deep_view()),
{
    let names = match names {
        Some(names) => names,
        None => {
            return None;
        },
    };
    if names.is_empty() {
        return None;
    }
    let mut items: Vec<Json> = Vec::new();
    let mut i: usize = 0;
    while i < names.len()
        invariant
            i <= names.len(),
            items.deep_view() =~= names.deep_view().take(i as int).map_values(
                |name: Seq<char>| json::singleton("name"@, JsonView::Text(name)),
            ),
        decreases names.len() - i,
    {
        let item = Json::single("name", Json::text(names[i].as_str()));
        let ghost before = items.deep_view();
        items.push(item);
        proof {
            assert(items.deep_view() =~= before.push(item@));
            assert(names.deep_view()[i as int] == names@[i as int]@);
        }
        i = i + 1;
    }
    proof {
        assert(names.deep_view().take(i as int) =~= names.deep_view());
    }
    Some(Json::array(items))
}

/// A text in the form that the service takes, where there is one.
pub open spec fn optional_body(deployment: JiraDeployment, text: Option<Seq<char>>) -> Option<
    JsonView,
> {
    match args::optional_text(text) {
        Some(text) => Some(formatting::comment_body(deployment, text)),
        None => None,
    }
}

fn body_value(deployment: JiraDeployment, text: Option<String>) -> (value: Option<Json>)
    ensures
        value.deep_view() == optional_body(deployment, text.deep_view()),
{
    match optional_non_empty_arg(text) {
        Some(text) => Some(comment_body_for_deployment(deployment, text.as_str())),
        None => None,
    }
}

/// The fields that the arguments themselves give a new issue.
pub open spec fn named_fields(
    args: CreateIssueView,
    deployment: JiraDeployment,
    project_key: Seq<char>,
    summary: Seq<char>,
    issue_type: Seq<char>,
    components: Option<Seq<Seq<char>>>,
) -> JsonView {
    JsonView::empty_object().with(
        "project"@,
        json::singleton("key"@, JsonView::Text(project_key)),
    ).with("summary"@, JsonView::Text(summary)).with(
        "issuetype"@,
        json::singleton("name"@, JsonView::Text(issue_type)),
    ).with_some("description"@, optional_body(deployment, args.description)).with_some(
        "assignee"@,
        match args::optional_text(args.assignee) {
            Some(assignee) => Some(user_reference(deployment, assignee)),
            None => None,
        },
    ).with_some("components"@, component_references(components))
}

/// The fields of a new issue: those that the arguments give, with the additional ones put
/// in their place.
pub open spec fn new_issue_fields(args: CreateIssueView, deployment: JiraDeployment) -> Result<
    JsonView,
    FailureView,
> {
    outcome::and_then(
        args::required_text(args.project_key, "project_key"@),
        |project_key: Seq<char>|
            outcome::and_then(
                args::required_text(args.summary, "summary"@),
                |summary: Seq<char>|
                    outcome::and_then(
                        args::required_text(args.issue_type, "issue_type"@),
                        |issue_type: Seq<char>|
                            outcome::and_then(
                                args::answered(
                                    formatting::optional_string_list_argument(
                                        args.components,
                                        "components"@,
                                    ),
                                ),
                                |components: Option<Seq<Seq<char>>>|
                                    outcome::and_then(
                                        args::answered(
                                            formatting::optional_object_argument(
                                                args.additional_fields,
                                                "additional_fields"@,
                                            ),
                                        ),
                                        |additional: Option<JsonView>|
                                            args::answered(
                                                formatting::merged_objects(
                                                    named_fields(
                                                        args,
                                                        deployment,
                                                        project_key,
                                                        summary,
                                                        issue_type,
                                                        components,
                                                    ),
                                                    additional,
                                                    "additional_fields"@,
                                                ),
                                            ),
                                    ),
                            ),
                    ),
            ),
    )
}

/// The fields of a new issue: those that the arguments give, with the additional ones put
/// in their place.
pub fn create_issue_fields_from_args(
    args: JiraCreateIssueArgs,
    deployment: JiraDeployment,
) -> (fields: Result<Json, ErrorData>)
    ensures
        outcome::of(fields) == new_issue_fields(args@, deployment),
{
    let project_key = required_non_empty_arg(args.project_key, "project_key")?;
    let summary = required_non_empty_arg(args.summary, "summary")?;
    let issue_type = required_non_empty_arg(args.issue_type, "issue_type")?;
    let components = parse_optional_string_list_arg(args.components, "components")?;
    let additional_fields = parse_optional_object_arg(
        args.additional_fields,
        "additional_fields",
    )?;
    let mut fields = Json::new_object();
    fields.set("project", Json::single("key", Json::Text(project_key)));
    fields.set("summary", Json::Text(summary));
    fields.set("issuetype", Json::single("name", Json::Text(issue_type)));
    fields.set_optional("description", body_value(deployment, args.description));
    let assignee = match optional_non_empty_arg(args.assignee) {
        Some(assignee) => Some(user_value(deployment, assignee.as_str())),
        None => None,
    };
    fields.set_optional("assignee", assignee);
    fields.set_optional("components", component_values(components));
    match merge_optional_objects(fields, additional_fields, "additional_fields") {
        Ok(fields) => Ok(fields),
        Err(error) => Err(jira_error(error)),
    }
}

/// The arguments for the creation of an issue that an object holds; what else it holds
/// are additional fields.
pub open spec fn issue_of_members(object: Map<Seq<char>, JsonView>) -> Result<
    CreateIssueView,
    FailureView,
> {
    let without_project = object.remove("project_key"@);
    let without_summary = without_project.remove("summary"@);
    let without_type = without_summary.remove("issue_type"@);
    let without_assignee = without_type.remove("assignee"@);
    let without_description = without_assignee.remove("description"@);
    let rest = without_description.remove("components"@);
    outcome::and_then(
        args::required_member(object, "project_key"@),
        |project_key: Seq<char>|
            outcome::and_then(
                args::required_member(without_project, "summary"@),
                |summary: Seq<char>|
                    outcome::and_then(
                        args::required_member(without_summary, "issue_type"@),
                        |issue_type: Seq<char>|
                            outcome::and_then(
                                args::optional_member(without_type, "assignee"@),
                                |assignee: Option<Seq<char>>|
                                    outcome::and_then(
                                        args::optional_member(without_assignee, "description"@),
                                        |description: Option<Seq<char>>|
                                            Ok(
                                                CreateIssueView {
                                                    project_key,
                                                    summary,
                                                    issue_type,
                                                    assignee,
                                                    description,
                                                    components: JsonView::Object(
                                                        without_description,
                                                    ).member("components"@),
                                                    additional_fields: if rest == Map::<
                                                        Seq<char>,
                                                        JsonView,
                                                    >::empty() {
                                                        None
                                                    } else {
                                                        Some(JsonView::Object(rest))
                                                    },
                                                },
                                            ),
                                    ),
                            ),
                    ),
            ),
    )
}

/// The fields of a new issue that a value describes.
pub open spec fn new_issue_fields_of(issue: JsonView, deployment: JiraDeployment) -> Result<
    JsonView,
    FailureView,
> {
    outcome::and_then(
        args::argument_members(issue, "issue"@),
        |object: Map<Seq<char>, JsonView>|
            outcome::and_then(
                issue_of_members(object),
                |args: CreateIssueView| new_issue_fields(args, deployment),
            ),
    )
}

/// The fields of a new issue that a value describes.
pub fn create_issue_fields_from_value(issue: Json, deployment: JiraDeployment) -> (fields: Result<
    Json,
    ErrorData,
>)
    ensures
        outcome::of(fields) == new_issue_fields_of(issue@, deployment),
{
    let mut fields = value_into_object(issue, "issue")?;
    let project_key = take_required_string_field(&mut fields, "project_key")?;
    let summary = take_required_string_field(&mut fields, "summary")?;
    let issue_type = take_required_string_field(&mut fields, "issue_type")?;
    let assignee = take_optional_string_field(&mut fields, "assignee")?;
    let description = take_optional_string_field(&mut fields, "description")?;
    let components = take_entry(&mut fields, "components");
    let rest = Json::Object(fields);
    let additional_fields = if rest.is_empty_object() {
        None
    } else {
        Some(rest)
    };
    create_issue_fields_from_args(
        JiraCreateIssueArgs {
            project_key,
            summary,
            issue_type,
            assignee,
            description,
            components,
            additional_fields,
        },
        deployment,
    )
}

/// What each value becomes, in order; the first error where there is one.
pub open spec fn each(
    values: Seq<JsonView>,
    make: spec_fn(JsonView) -> Result<JsonView, FailureView>,
) -> Result<Seq<JsonView>, FailureView>
    decreases values.len(),
{
    if values.len() == 0 {
        Ok(Seq::empty())
    } else {
        outcome::and_then(
            each(values.drop_last(), make),
            |made: Seq<JsonView>|
                outcome::and_then(make(values.last()), |value: JsonView| Ok(made.push(value))),
        )
    }
}

/// An error among the first values is the error of all.
proof fn lemma_each_error(
    values: Seq<JsonView>,
    make: spec_fn(JsonView) -> Result<JsonView, FailureView>,
    i: int,
)
    requires
        0 <= i <= values.len(),
        each(values.take(i), make) is Err,
    ensures
        each(values, make) == each(values.take(i), make),
    decreases values.len(),
{
    if i < values.len() {
        assert(values.drop_last().take(i) =~= values.take(i));
        lemma_each_error(values.drop_last(), make, i);
    } else {
        assert(values.take(i) =~= values);
    }
}

/// What the creation of one issue of many is sent as.
pub open spec fn issue_update(issue: JsonView, deployment: JiraDeployment) -> Result<
    JsonView,
    FailureView,
> {
    outcome::and_then(
        new_issue_fields_of(issue, deployment),
        |fields: JsonView| Ok(json::singleton("fields"@, fields)),
    )
}

/// What the creation of many issues is sent as.
pub open spec fn issue_updates(issues: JsonView, deployment: JiraDeployment) -> Result<
    Seq<JsonView>,
    FailureView,
> {
    outcome::and_then(
        args::answered(formatting::object_list_argument(issues, "issues"@)),
        |issues: Seq<JsonView>| each(issues, |issue: JsonView| issue_update(issue, deployment)),
    )
}

/// What the creation of many issues is sent as.
pub fn batch_create_issue_updates_from_args(issues: Json, deployment: JiraDeployment) -> (updates:
    Result<Vec<Json>, ErrorData>)
    ensures
        outcome::of(updates) == issue_updates(issues@, deployment),
{
    let listed = parse_required_object_list_arg(issues, "issues")?;
    let ghost views = listed.deep_view();
    let ghost make = |issue: JsonView| issue_update(issue, deployment);
    let mut updates: Vec<Json> = Vec::new();
    let mut i: usize = 0;
    proof {
        assert(updates.deep_view() =~= Seq::empty());
    }
    while i < listed.len()
        invariant
            i <= listed.len(),
            views == listed.deep_view(),
            args::answered(formatting::object_list_argument(issues@, "issues"@)) == Ok::<
                Seq<JsonView>,
                FailureView,
            >(views),
            make == (|issue: JsonView| issue_update(issue, deployment)),
            each(views.take(i as int), make) == Ok::<Seq<JsonView>, FailureView>(
                updates.deep_view(),
            ),
        decreases listed.len() - i,
    {
        let issue = listed[i].clone();
        proof {
            assert(views[i as int] == issue@);
            assert(views.take(i + 1).drop_last() =~= views.take(i as int));
        }
        match create_issue_fields_from_value(issue, deployment) {
            Ok(fields) => {
                let update = Json::single("fields", fields);
                let ghost before = updates.deep_view();
                updates.push(update);
                proof {
                    assert(updates.deep_view() =~= before.push(update@));
                }
            },
            Err(error) => {
                proof {
                    lemma_each_error(views, make, i + 1);
                }
                return Err(error);
            },
        }
        i = i + 1;
    }
    proof {
        assert(views.take(i as int) =~= views);
    }
    Ok(updates)
}

/// The refusal of attachments among the fields of an update.
pub open spec fn attachments_refused(field_name: Seq<char>) -> FailureView {
    args::refused(
        field_name + ".attachments is not supported by jira_update_issue in Stage 3"@,
    )
}

/// Refuses attachments among the fields of an update.
fn reject_unsupported_attachments(value: &Json, field_name: &str) -> (checked: Result<
    (),
    ErrorData,
>)
    ensures
        outcome::of(checked) == (if value@.member("attachments"@) is Some {
            Err(attachments_refused(field_name@))
        } else {
            Ok(())
        }),
{
    match value.get("attachments") {
        Some(_) => Err(
            refuse(
                concat(
                    field_name,
                    ".attachments is not supported by jira_update_issue in Stage 3",
                ),
            ),
        ),
        None => Ok(()),
    }
}

/// An object whose description and assignee, where they are texts, are written as the
/// service takes them.
pub open spec fn written_fields(fields: JsonView, deployment: JiraDeployment) -> JsonView {
    fields.with_some(
        "description"@,
        match fields.member("description"@) {
            Some(JsonView::Text(text)) => Some(formatting::comment_body(deployment, text)),
            _ => None,
        },
    ).with_some(
        "assignee"@,
        match fields.member("assignee"@) {
            Some(JsonView::Text(user)) => Some(user_reference(deployment, user)),
            _ => None,
        },
    )
}

/// The fields of an update as the service takes them; attachments are refused.
pub open spec fn normal_fields(
    fields: JsonView,
    deployment: JiraDeployment,
    field_name: Seq<char>,
) -> Result<JsonView, FailureView> {
    if fields.member("attachments"@) is Some {
        Err(attachments_refused(field_name))
    } else if fields is Object {
        Ok(written_fields(fields, deployment))
    } else {
        Err(args::answered::<()>(Err(formatting::no_object(field_name)))->Err_0)
    }
}

/// The fields of an update as the service takes them; attachments are refused.
pub fn normalize_issue_fields(
    fields: Json,
    deployment: JiraDeployment,
    field_name: &str,
) -> (normal: Result<Json, ErrorData>)
    ensures
        outcome::of(normal) == normal_fields(fields@, deployment, field_name@),
{
    reject_unsupported_attachments(&fields, field_name)?;
    if !fields.is_object() {
        return Err(refuse(concat(field_name, " must be a JSON object")));
    }
    let description = match fields.get("description") {
        Some(Json::Text(text)) => Some(comment_body_for_deployment(deployment, text.as_str())),
        _ => None,
    };
    let assignee = match fields.get("assignee") {
        Some(Json::Text(user)) => Some(user_value(deployment, user.as_str())),
        _ => None,
    };
    let mut fields = fields;
    fields.set_optional("description", description);
    fields.set_optional("assignee", assignee);
    Ok(fields)
}

/// The fields of an update, and the issue that they are for.
#[derive(Debug)]
pub struct UpdateIssueFields {
    pub issue_key: String,
    pub fields: Json,
    pub notify_users: Option<bool>,
}

/// What such an update stands for.
#[verifier::ext_equal]
pub struct UpdateView {
    pub issue_key: Seq<char>,
    pub fields: JsonView,
    pub notify_users: Option<bool>,
}

impl DeepView for UpdateIssueFields {
    type V = UpdateView;

    open spec fn deep_view(&self) -> UpdateView {
        UpdateView {
            issue_key: self.issue_key@,
            fields: self.fields@,
            notify_users: self.notify_users,
        }
    }
}

/// The additional fields of an update as the service takes them, where there are any.
pub open spec fn normal_additional(
    additional: Option<JsonView>,
    deployment: JiraDeployment,
) -> Result<Option<JsonView>, FailureView> {
    match additional {
        Some(additional) => outcome::and_then(
            normal_fields(additional, deployment, "additional_fields"@),
            |normal: JsonView| Ok(Some(normal)),
        ),
        None => Ok(None),
    }
}

/// The additional fields of an update with the components among them, where some are
/// named.
pub open spec fn with_components(
    additional: Option<JsonView>,
    components: Option<Seq<Seq<char>>>,
) -> Option<JsonView> {
    match component_references(components) {
        Some(components) => Some(
            match additional {
                Some(additional) => additional.with("components"@, components),
                None => json::singleton("components"@, components),
            },
        ),
        None => additional,
    }
}

/// The fields of an update and its additional fields.
pub open spec fn issue_update_of(args: JiraUpdateIssueArgs, deployment: JiraDeployment) -> Result<
    (UpdateView, Option<JsonView>),
    FailureView,
> {
    outcome::and_then(
        args::required_text(args.issue_key@, "issue_key"@),
        |issue_key: Seq<char>|
            outcome::and_then(
                args::answered(formatting::object_argument(args.fields@, "fields"@)),
                |fields: JsonView|
                    outcome::and_then(
                        normal_fields(fields, deployment, "fields"@),
                        |fields: JsonView|
                            outcome::and_then(
                                args::answered(
                                    formatting::optional_string_list_argument(
                                        args.components.deep_view(),
                                        "components"@,
                                    ),
                                ),
                                |components: Option<Seq<Seq<char>>>|
                                    outcome::and_then(
                                        args::answered(
                                            formatting::optional_object_argument(
                                                args.additional_fields.deep_view(),
                                                "additional_fields"@,
                                            ),
                                        ),
                                        |additional: Option<JsonView>|
                                            outcome::and_then(
                                                normal_additional(additional, deployment),
                                                |additional: Option<JsonView>|
                                                    update_of_parts(
                                                        issue_key,
                                                        fields,
                                                        args.notify_users,
                                                        with_components(additional, components),
                                                    ),
                                            ),
                                    ),
                            ),
                    ),
            ),
    )
}

/// An update of these parts, which must change something.
pub open spec fn update_of_parts(
    issue_key: Seq<char>,
    fields: JsonView,
    notify_users: Option<bool>,
    additional: Option<JsonView>,
) -> Result<(UpdateView, Option<JsonView>), FailureView> {
    if fields == JsonView::empty_object() && additional is None {
        Err(args::refused("fields must contain at least one update"@))
    } else {
        Ok((UpdateView { issue_key, fields, notify_users }, additional))
    }
}

/// Writing an object's description and assignee brings no attachments into it.
proof fn lemma_written_fields(fields: JsonView, deployment: JiraDeployment)
    requires
        fields is Object,
        fields.member("attachments"@) is None,
    ensures
        written_fields(fields, deployment) is Object,
        written_fields(fields, deployment).member("attachments"@) is None,
{
    reveal_strlit("attachments");
    reveal_strlit("description");
    reveal_strlit("assignee");
    assert("attachments"@[0] != "description"@[0]);
    assert("attachments"@.len() != "assignee"@.len());
}

/// The fields of an update and its additional fields.
pub fn update_issue_fields_from_args(
    args: JiraUpdateIssueArgs,
    deployment: JiraDeployment,
) -> (update: Result<(UpdateIssueFields, Option<Json>), ErrorData>)
    ensures
        outcome::of(update) == issue_update_of(args, deployment),
{
    let issue_key = required_non_empty_arg(args.issue_key, "issue_key")?;
    let given = parse_required_object_arg(args.fields, "fields")?;
    let ghost given_view = given@;
    let fields = normalize_issue_fields(given, deployment, "fields")?;
    let components = parse_optional_string_list_arg(args.components, "components")?;
    let given_additional = parse_optional_object_arg(args.additional_fields, "additional_fields")?;
    let mut additional_fields = match given_additional {
        Some(additional) => {
            let ghost additional_view = additional@;
            let normal = normalize_issue_fields(additional, deployment, "additional_fields")?;
            proof {
                lemma_written_fields(additional_view, deployment);
            }
            Some(normal)
        },
        None => None,
    };
    proof {
        lemma_written_fields(given_view, deployment);
    }
    reject_unsupported_attachments(&fields, "fields")?;
    if let Some(additional) = &additional_fields {
        reject_unsupported_attachments(additional, "additional_fields")?;
    }
    if let Some(components) = component_values(components) {
        let mut additional = match additional_fields {
            Some(additional) => additional,
            None => Json::new_object(),
        };
        additional.set("components", components);
        additional_fields = Some(additional);
    }
    if fields.is_empty_object() && additional_fields.is_none() {
        return Err(refuse("fields must contain at least one update".to_owned()));
    }
    let update = UpdateIssueFields { issue_key, fields, notify_users: args.notify_users };
    Ok((update, additional_fields))
}

/// An update changes something and carries no attachments.
pub proof fn law_updates_carry_no_attachments(
    args: JiraUpdateIssueArgs,
    deployment: JiraDeployment,
)
    ensures
        issue_update_of(args, deployment) matches Ok((update, additional)) ==> {
            &&& update.fields.member("attachments"@) is None
            &&& additional matches Some(additional) ==> additional.member("attachments"@) is None
            &&& update.fields != JsonView::empty_object() || additional is Some
        },
{
    reveal_strlit("attachments");
    reveal_strlit("components");
    assert("attachments"@.len() != "components"@.len());
    if issue_update_of(args, deployment) is Ok {
        let fields = formatting::object_argument(args.fields@, "fields"@)->Ok_0;
        lemma_written_fields(fields, deployment);
        let additional = formatting::optional_object_argument(
            args.additional_fields.deep_view(),
            "additional_fields"@,
        )->Ok_0;
        if let Some(additional) = additional {
            lemma_written_fields(additional, deployment);
        }
    }
}

/// What the creation of a version is sent as.
pub open spec fn version_payload(args: JiraCreateVersionArgs) -> Result<JsonView, FailureView> {
    outcome::and_then(
        args::required_text(args.project_key@, "project_key"@),
        |project_key: Seq<char>|
            outcome::and_then(
                args::required_text(args.name@, "name"@),
                |name: Seq<char>|
                    Ok(
                        JsonView::empty_object().with("project"@, JsonView::Text(project_key)).with(
                            "name"@,
                            JsonView::Text(name),
                        ).with_text(
                            "startDate"@,
                            args::optional_text(args.start_date.deep_view()),
                        ).with_text(
                            "releaseDate"@,
                            args::optional_text(args.release_date.deep_view()),
                        ).with_text(
                            "description"@,
                            args::optional_text(args.description.deep_view()),
                        ),
                    ),
            ),
    )
}

/// What the creation of a version is sent as.
pub fn version_payload_from_args(args: JiraCreateVersionArgs) -> (payload: Result<Json, ErrorData>)
    ensures
        outcome::of(payload) == version_payload(args),
{
    let project_key = required_non_empty_arg(args.project_key, "project_key")?;
    let name = required_non_empty_arg(args.name, "name")?;
    let mut payload = Json::new_object();
    payload.set("project", Json::Text(project_key));
    payload.set("name", Json::Text(name));
    payload.set_optional_text("startDate", optional_non_empty_arg(args.start_date));
    payload.set_optional_text("releaseDate", optional_non_empty_arg(args.release_date));
    payload.set_optional_text("description", optional_non_empty_arg(args.description));
    Ok(payload)
}

/// What the creation of a version of many is sent as: what its object holds, with the
/// project and with its dates under the names that the service takes.
pub open spec fn version_payload_of(value: JsonView, project_key: Seq<char>) -> Result<
    JsonView,
    FailureView,
> {
    outcome::and_then(
        args::argument_members(value, "version"@),
        |object: Map<Seq<char>, JsonView>| version_of_members(object, project_key),
    )
}

/// `version_payload_of`, from the members of the version's object.
pub open spec fn version_of_members(
    object: Map<Seq<char>, JsonView>,
    project_key: Seq<char>,
) -> Result<JsonView, FailureView> {
    let without_name = object.remove("name"@);
    let without_start = args::without_alias(without_name, "startDate"@, "start_date"@);
    let without_release = args::without_alias(without_start, "releaseDate"@, "release_date"@);
    let rest = without_release.remove("description"@);
    outcome::and_then(
        args::required_member(object, "name"@),
        |name: Seq<char>|
            outcome::and_then(
                args::alias_member(without_name, "startDate"@, "start_date"@),
                |start_date: Option<Seq<char>>|
                    outcome::and_then(
                        args::alias_member(without_start, "releaseDate"@, "release_date"@),
                        |release_date: Option<Seq<char>>|
                            outcome::and_then(
                                args::optional_member(without_release, "description"@),
                                |description: Option<Seq<char>>|
                                    Ok(
                                        JsonView::Object(rest).with(
                                            "project"@,
                                            JsonView::Text(project_key),
                                        ).with("name"@, JsonView::Text(name)).with_text(
                                            "startDate"@,
                                            start_date,
                                        ).with_text("releaseDate"@, release_date).with_text(
                                            "description"@,
                                            description,
                                        ),
                                    ),
                            ),
                    ),
            ),
    )
}

/// What the creation of a version of many is sent as.
pub fn version_payload_from_value(value: Json, project_key: &str) -> (payload: Result<
    Json,
    ErrorData,
>)
    ensures
        outcome::of(payload) == version_payload_of(value@, project_key@),
{
    let mut object = value_into_object(value, "version")?;
    let name = take_required_string_field(&mut object, "name")?;
    let start_date = take_optional_string_alias(&mut object, "startDate", "start_date")?;
    let release_date = take_optional_string_alias(&mut object, "releaseDate", "release_date")?;
    let description = take_optional_string_field(&mut object, "description")?;
    let mut payload = Json::Object(object);
    payload.set("project", Json::text(project_key));
    payload.set("name", Json::Text(name));
    payload.set_optional_text("startDate", start_date);
    payload.set_optional_text("releaseDate", release_date);
    payload.set_optional_text("description", description);
    Ok(payload)
}

/// What the creation of many versions is sent as.
pub open spec fn version_payloads(versions: JsonView, project_key: Seq<char>) -> Result<
    Seq<JsonView>,
    FailureView,
> {
    outcome::and_then(
        args::answered(formatting::object_list_argument(versions, "versions"@)),
        |versions: Seq<JsonView>|
            each(versions, |version: JsonView| version_payload_of(version, project_key)),
    )
}

/// What the creation of many versions is sent as.
pub fn version_payloads_from_args(versions: Json, project_key: &str) -> (payloads: Result<
    Vec<Json>,
    ErrorData,
>)
    ensures
        outcome::of(payloads) == version_payloads(versions@, project_key@),
{
    let listed = parse_required_object_list_arg(versions, "versions")?;
    let ghost views = listed.deep_view();
    let ghost make = |version: JsonView| version_payload_of(version, project_key@);
    let mut payloads: Vec<Json> = Vec::new();
    let mut i: usize = 0;
    proof {
        assert(payloads.deep_view() =~= Seq::empty());
    }
    while i < listed.len()
        invariant
            i <= listed.len(),
            views == listed.deep_view(),
            args::answered(formatting::object_list_argument(versions@, "versions"@)) == Ok::<
                Seq<JsonView>,
                FailureView,
            >(views),
            make == (|version: JsonView| version_payload_of(version, project_key@)),
            each(views.take(i as int), make) == Ok::<Seq<JsonView>, FailureView>(
                payloads.deep_view(),
            ),
        decreases listed.len() - i,
    {
        let version = listed[i].clone();
        proof {
            assert(views[i as int] == version@);
            assert(views.take(i + 1).drop_last() =~= views.take(i as int));
        }
        match version_payload_from_value(version, project_key) {
            Ok(payload) => {
                let ghost before = payloads.deep_view();
                payloads.push(payload);
                proof {
                    assert(payloads.deep_view() =~= before.push(payload@));
                }
            },
            Err(error) => {
                proof {
                    lemma_each_error(views, make, i + 1);
                }
                return Err(error);
            },
        }
        i = i + 1;
    }
    proof {
        assert(views.take(i as int) =~= views);
    }
    Ok(payloads)
}

/// The query parameters of a new worklog entry.
pub open spec fn worklog_query(args: JiraAddWorklogArgs) -> Seq<(Seq<char>, Seq<char>)> {
    client::present_params(
        seq![
            ("adjustEstimate"@, args::optional_text(args.adjust_estimate.deep_view())),
            ("newEstimate"@, args::optional_text(args.new_estimate.deep_view())),
            ("reduceBy"@, args::optional_text(args.reduce_by.deep_view())),
        ],
    )
}

/// What a new worklog entry is sent as: the issue, the body and the query parameters.
pub open spec fn worklog_payload(args: JiraAddWorklogArgs, deployment: JiraDeployment) -> Result<
    (Seq<char>, JsonView, Seq<(Seq<char>, Seq<char>)>),
    FailureView,
> {
    outcome::and_then(
        args::required_text(args.issue_key@, "issue_key"@),
        |issue_key: Seq<char>|
            outcome::and_then(
                args::required_text(args.time_spent@, "time_spent"@),
                |time_spent: Seq<char>|
                    outcome::and_then(
                        args::answered(
                            formatting::optional_object_argument(
                                args.visibility.deep_view(),
                                "visibility"@,
                            ),
                        ),
                        |visibility: Option<JsonView>|
                            Ok(
                                (
                                    issue_key,
                                    json::singleton(
                                        "timeSpent"@,
                                        JsonView::Text(time_spent),
                                    ).with_text(
                                        "started"@,
                                        args::optional_text(args.started.deep_view()),
                                    ).with_some(
                                        "comment"@,
                                        optional_body(deployment, args.comment.deep_view()),
                                    ).with_some("visibility"@, visibility),
                                    worklog_query(args),
                                ),
                            ),
                    ),
            ),
    )
}

/// The parameters of a query, with one more where it has a value.
fn push_optional_query_value(query: &mut Vec<(String, String)>, key: &str, value: Option<String>)
    ensures
        final(query).deep_view() == (match args::optional_text(value.deep_view()) {
            Some(value) => old(query).deep_view().push((key@, value)),
            None => old(query).deep_view(),
        }),
{
    if let Some(value) = optional_non_empty_arg(value) {
        let ghost before = query.deep_view();
        query.push((key.to_owned(), value));
        proof {
            assert(query.deep_view() =~= before.push((key@, value@)));
        }
    }
}

/// What a new worklog entry is sent as: the issue, the body and the query parameters.
pub fn add_worklog_payload_from_args(
    args: JiraAddWorklogArgs,
    deployment: JiraDeployment,
) -> (payload: Result<(String, Json, Vec<(String, String)>), ErrorData>)
    ensures
        outcome::of(payload) == worklog_payload(args, deployment),
{
    let issue_key = required_non_empty_arg(args.issue_key, "issue_key")?;
    let time_spent = required_non_empty_arg(args.time_spent, "time_spent")?;
    let visibility = parse_optional_object_arg(args.visibility, "visibility")?;
    let mut payload = Json::single("timeSpent", Json::Text(time_spent));
    payload.set_optional_text("started", optional_non_empty_arg(args.started));
    payload.set_optional("comment", body_value(deployment, args.comment));
    payload.set_optional("visibility", visibility);
    let mut query: Vec<(String, String)> = Vec::new();
    proof {
        assert(query.deep_view() =~= Seq::empty());
        let adjust = ("adjustEstimate"@, args::optional_text(args.adjust_estimate.deep_view()));
        let estimate = ("newEstimate"@, args::optional_text(args.new_estimate.deep_view()));
        let reduce = ("reduceBy"@, args::optional_text(args.reduce_by.deep_view()));
        assert(seq![adjust, estimate, reduce].drop_last() =~= seq![adjust, estimate]);
        assert(seq![adjust, estimate].drop_last() =~= seq![adjust]);
        assert(seq![adjust].drop_last() =~= Seq::empty());
        assert(client::present_params(Seq::empty()) == Seq::<(Seq<char>, Seq<char>)>::empty());
        assert(client::present_params(seq![adjust]) == (match adjust.1 {
            Some(value) => Seq::empty().push((adjust.0, value)),
            None => Seq::empty(),
        }));
        assert(client::present_params(seq![adjust, estimate]) == (match estimate.1 {
            Some(value) => client::present_params(seq![adjust]).push((estimate.0, value)),
            None => client::present_params(seq![adjust]),
        }));
    }
    push_optional_query_value(&mut query, "adjustEstimate", args.adjust_estimate);
    push_optional_query_value(&mut query, "newEstimate", args.new_estimate);
    push_optional_query_value(&mut query, "reduceBy", args.reduce_by);
    Ok((issue_key, payload, query))
}

/// What a link between two issues is sent as.
pub open spec fn issue_link_payload(
    args: JiraCreateIssueLinkArgs,
    deployment: JiraDeployment,
) -> Result<JsonView, FailureView> {
    outcome::and_then(
        args::required_text(args.link_type@, "link_type"@),
        |link_type: Seq<char>|
            outcome::and_then(
                args::required_text(args.inward_issue_key@, "inward_issue_key"@),
                |inward: Seq<char>|
                    outcome::and_then(
                        args::required_text(args.outward_issue_key@, "outward_issue_key"@),
                        |outward: Seq<char>|
                            Ok(
                                JsonView::empty_object().with(
                                    "type"@,
                                    json::singleton("name"@, JsonView::Text(link_type)),
                                ).with(
                                    "inwardIssue"@,
                                    json::singleton("key"@, JsonView::Text(inward)),
                                ).with(
                                    "outwardIssue"@,
                                    json::singleton("key"@, JsonView::Text(outward)),
                                ).with_some(
                                    "comment"@,
                                    match optional_body(deployment, args.comment.deep_view()) {
                                        Some(body) => Some(json::singleton("body"@, body)),
                                        None => None,
                                    },
                                ),
                            ),
                    ),
            ),
    )
}

/// What a link between two issues is sent as.
pub fn issue_link_payload_from_args(
    args: JiraCreateIssueLinkArgs,
    deployment: JiraDeployment,
) -> (payload: Result<Json, ErrorData>)
    ensures
        outcome::of(payload) == issue_link_payload(args, deployment),
{
    let link_type = required_non_empty_arg(args.link_type, "link_type")?;
    let inward = required_non_empty_arg(args.inward_issue_key, "inward_issue_key")?;
    let outward = required_non_empty_arg(args.outward_issue_key, "outward_issue_key")?;
    let mut payload = Json::new_object();
    payload.set("type", Json::single("name", Json::Text(link_type)));
    payload.set("inwardIssue", Json::single("key", Json::Text(inward)));
    payload.set("outwardIssue", Json::single("key", Json::Text(outward)));
    if let Some(body) = body_value(deployment, args.comment) {
        payload.set("comment", Json::single("body", body));
    }
    Ok(payload)
}

/// The page that a remote link leads to.
pub open spec fn remote_object(
    args: JiraCreateRemoteIssueLinkArgs,
    url: Seq<char>,
    title: Seq<char>,
    status: Option<JsonView>,
) -> JsonView {
    JsonView::empty_object().with("url"@, JsonView::Text(url)).with(
        "title"@,
        JsonView::Text(title),
    ).with_text("summary"@, args::optional_text(args.summary.deep_view())).with_some(
        "icon"@,
        match args::optional_text(args.icon_url.deep_view()) {
            Some(icon_url) => Some(
                JsonView::empty_object().with("url16x16"@, JsonView::Text(icon_url)).with(
                    "title"@,
                    JsonView::Text(title),
                ),
            ),
            None => None,
        },
    ).with_some("status"@, status)
}

/// What a link from an issue to a page is sent as: the issue and the body.
pub open spec fn remote_link_payload(args: JiraCreateRemoteIssueLinkArgs) -> Result<
    (Seq<char>, JsonView),
    FailureView,
> {
    outcome::and_then(
        args::required_text(args.issue_key@, "issue_key"@),
        |issue_key: Seq<char>|
            outcome::and_then(
                args::required_text(args.url@, "url"@),
                |url: Seq<char>|
                    outcome::and_then(
                        args::required_text(args.title@, "title"@),
                        |title: Seq<char>|
                            outcome::and_then(
                                args::answered(
                                    formatting::optional_object_argument(
                                        args.status.deep_view(),
                                        "status"@,
                                    ),
                                ),
                                |status: Option<JsonView>|
                                    Ok(
                                        (
                                            issue_key,
                                            json::singleton(
                                                "object"@,
                                                remote_object(args, url, title, status),
                                            ).with_text(
                                                "globalId"@,
                                                args::optional_text(args.global_id.deep_view()),
                                            ).with_text(
                                                "relationship"@,
                                                args::optional_text(args.relationship.deep_view()),
                                            ),
                                        ),
                                    ),
                            ),
                    ),
            ),
    )
}

/// What a link from an issue to a page is sent as: the issue and the body.
pub fn remote_issue_link_payload_from_args(args: JiraCreateRemoteIssueLinkArgs) -> (payload: Result<
    (String, Json),
    ErrorData,
>)
    ensures
        outcome::of(payload) == remote_link_payload(args),
{
    let issue_key = required_non_empty_arg(args.issue_key, "issue_key")?;
    let url = required_non_empty_arg(args.url, "url")?;
    let title = required_non_empty_arg(args.title, "title")?;
    let status = parse_optional_object_arg(args.status, "status")?;
    let mut object = Json::new_object();
    object.set("url", Json::Text(url));
    object.set("title", Json::text(title.as_str()));
    object.set_optional_text("summary", optional_non_empty_arg(args.summary));
    if let Some(icon_url) = optional_non_empty_arg(args.icon_url) {
        let mut icon = Json::new_object();
        icon.set("url16x16", Json::Text(icon_url));
        icon.set("title", Json::Text(title));
        object.set("icon", icon);
    }
    object.set_optional("status", status);
    let mut payload = Json::single("object", object);
    payload.set_optional_text("globalId", optional_non_empty_arg(args.global_id));
    payload.set_optional_text("relationship", optional_non_empty_arg(args.relationship));
    Ok((issue_key, payload))
}

/// What the creation of a sprint is sent as.
pub open spec fn new_sprint_payload(args: JiraCreateSprintArgs) -> Result<JsonView, FailureView> {
    outcome::and_then(
        args::required_text(args.name@, "name"@),
        |name: Seq<char>|
            Ok(
                JsonView::empty_object().with("name"@, JsonView::Text(name)).with(
                    "originBoardId"@,
                    client::json_number(args.origin_board_id),
                ).with_text(
                    "startDate"@,
                    args::optional_text(args.start_date.deep_view()),
                ).with_text("endDate"@, args::optional_text(args.end_date.deep_view())).with_text(
                    "goal"@,
                    args::optional_text(args.goal.deep_view()),
                ),
            ),
    )
}

/// What the creation of a sprint is sent as.
pub fn create_sprint_payload_from_args(args: JiraCreateSprintArgs) -> (payload: Result<
    Json,
    ErrorData,
>)
    ensures
        outcome::of(payload) == new_sprint_payload(args),
{
    let name = required_non_empty_arg(args.name, "name")?;
    let mut payload = Json::new_object();
    payload.set("name", Json::Text(name));
    payload.set("originBoardId", Json::Number(decimal_text(args.origin_board_id)));
    payload.set_optional_text("startDate", optional_non_empty_arg(args.start_date));
    payload.set_optional_text("endDate", optional_non_empty_arg(args.end_date));
    payload.set_optional_text("goal", optional_non_empty_arg(args.goal));
    Ok(payload)
}

/// What an update of a sprint changes.
pub open spec fn sprint_changes(args: JiraUpdateSprintArgs) -> JsonView {
    JsonView::empty_object().with_text(
        "name"@,
        args::optional_text(args.name.deep_view()),
    ).with_text("state"@, args::optional_text(args.state.deep_view())).with_text(
        "startDate"@,
        args::optional_text(args.start_date.deep_view()),
    ).with_text("endDate"@, args::optional_text(args.end_date.deep_view())).with_text(
        "goal"@,
        args::optional_text(args.goal.deep_view()),
    )
}

/// What an update of a sprint is sent as, which must change something: the sprint and the
/// body.
pub open spec fn sprint_update(args: JiraUpdateSprintArgs) -> Result<(u64, JsonView), FailureView> {
    if sprint_changes(args) == JsonView::empty_object() {
        Err(args::refused("sprint update must contain at least one field"@))
    } else {
        Ok((args.sprint_id, sprint_changes(args)))
    }
}

/// What an update of a sprint is sent as, which must change something: the sprint and the
/// body.
pub fn update_sprint_payload_from_args(args: JiraUpdateSprintArgs) -> (payload: Result<
    (u64, Json),
    ErrorData,
>)
    ensures
        outcome::of(payload) == sprint_update(args),
{
    let mut payload = Json::new_object();
    payload.set_optional_text("name", optional_non_empty_arg(args.name));
    payload.set_optional_text("state", optional_non_empty_arg(args.state));
    payload.set_optional_text("startDate", optional_non_empty_arg(args.start_date));
    payload.set_optional_text("endDate", optional_non_empty_arg(args.end_date));
    payload.set_optional_text("goal", optional_non_empty_arg(args.goal));
    if payload.is_empty_object() {
        return Err(refuse("sprint update must contain at least one field".to_owned()));
    }
    Ok((args.sprint_id, payload))
}

/// A field of a new issue is what the additional fields say of it or, where they say
/// nothing, what the arguments give.
pub proof fn law_additional_fields_win(
    args: CreateIssueView,
    deployment: JiraDeployment,
    key: Seq<char>,
)
    ensures
        new_issue_fields(args, deployment) matches Ok(fields) ==> {
            let components = formatting::optional_string_list_argument(
                args.components,
                "components"@,
            )->Ok_0;
            let additional = formatting::optional_object_argument(
                args.additional_fields,
                "additional_fields"@,
            )->Ok_0;
            let given = named_fields(
                args,
                deployment,
                text::trimmed(args.project_key),
                text::trimmed(args.summary),
                text::trimmed(args.issue_type),
                components,
            );
            fields.member(key) == (match additional {
                Some(additional) => match additional.member(key) {
                    Some(value) => Some(value),
                    None => given.member(key),
                },
                None => given.member(key),
            })
        },
{
}

/// Of many values each becomes what it would become alone, and keeps its place; where one
/// is refused, all are.
pub proof fn law_each_is_made_alone(
    values: Seq<JsonView>,
    make: spec_fn(JsonView) -> Result<JsonView, FailureView>,
)
    ensures
        (each(values, make) is Ok) == (forall|i: int|
            0 <= i < values.len() ==> make(#[trigger] values[i]) is Ok),
        each(values, make) matches Ok(made) ==> made.len() == values.len() && forall|i: int|
            0 <= i < values.len() ==> make(#[trigger] values[i]) == Ok::<JsonView, FailureView>(
                made[i],
            ),
    decreases values.len(),
{
    if values.len() > 0 {
        let rest = values.drop_last();
        law_each_is_made_alone(rest, make);
        assert forall|i: int| 0 <= i < rest.len() implies #[trigger] rest[i] == values[i] by {}
        assert(values.last() == values[values.len() - 1]);
        if each(rest, make) is Err {
            let k = choose|k: int| 0 <= k < rest.len() && make(#[trigger] rest[k]) is Err;
            assert(make(values[k]) is Err);
        } else if each(values, make) is Ok {
            let made = each(values, make)->Ok_0;
            assert forall|i: int| 0 <= i < values.len() implies make(#[trigger] values[i]) == Ok::<
                JsonView,
                FailureView,
            >(made[i]) by {
                if i < rest.len() {
                    assert(rest[i] == values[i]);
                }
            }
        }
    }
}

/// An update of a sprint is refused exactly where every argument is blank.
pub proof fn law_sprint_update_changes_something(args: JiraUpdateSprintArgs)
    ensures
        (sprint_update(args) is Err) == (args::optional_text(args.name.deep_view()) is None
            && args::optional_text(args.state.deep_view()) is None && args::optional_text(
            args.start_date.deep_view(),
        ) is None && args::optional_text(args.end_date.deep_view()) is None && args::optional_text(
            args.goal.deep_view(),
        ) is None),
{
    let empty = JsonView::empty_object();
    let changes = sprint_changes(args);
    if args::optional_text(args.goal.deep_view()) is Some {
        assert(changes.member("goal"@) is Some);
    } else if args::optional_text(args.end_date.deep_view()) is Some {
        assert(changes.member("endDate"@) is Some);
    } else if args::optional_text(args.start_date.deep_view()) is Some {
        assert(changes.member("startDate"@) is Some);
    } else if args::optional_text(args.state.deep_view()) is Some {
        assert(changes.member("state"@) is Some);
    } else if args::optional_text(args.name.deep_view()) is Some {
        assert(changes.member("name"@) is Some);
    }
    assert(forall|key: Seq<char>| empty.member(key) is None);
}

} // verus!
