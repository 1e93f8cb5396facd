//! What holds of what the tools send.

use vstd::prelude::*;

use crate::jira::config::JiraDeployment;
use crate::jira::formatting;
use crate::jira::laws;
use crate::jira::tools::{
    JiraAddWorklogArgs, JiraCreateIssueArgs, JiraCreateIssueLinkArgs,
    JiraCreateRemoteIssueLinkArgs, JiraCreateSprintArgs, JiraCreateVersionArgs,
    JiraUpdateIssueArgs, JiraUpdateSprintArgs,
};
use crate::json::JsonView;
use crate::mcp;
use crate::mcp::args;
use crate::mcp::payloads;
use crate::mcp::payloads::UpdateView;
use crate::mcp_errors::{ErrorCode, FailureView};
use crate::text;

verus! {

/// Whether an argument has more than white space in it.
pub open spec fn is_given(text: Seq<char>) -> bool {
    text::trimmed(text).len() > 0
}

/// An optional argument without the white space around it, where that leaves something.
pub open spec fn given_text(value: Option<String>) -> Option<Seq<char>> {
    match value {
        Some(value) => if is_given(value@) {
            Some(text::trimmed(value@))
        } else {
            None
        },
        None => None,
    }
}

/// A text as a member, where there is one.
pub open spec fn text_value(text: Option<Seq<char>>) -> Option<JsonView> {
    match text {
        Some(text) => Some(JsonView::Text(text)),
        None => None,
    }
}

/// Whether a value names a user as the service does: by the account on Cloud, by the name on
/// Server and Data Center.
pub open spec fn is_user(value: JsonView, deployment: JiraDeployment, user: Seq<char>) -> bool {
    match deployment {
        JiraDeployment::Cloud => value.member("accountId"@) == Some(JsonView::Text(user))
            && laws::has_only(value, "accountId"@),
        JiraDeployment::ServerDataCenter => value.member("name"@) == Some(JsonView::Text(user))
            && laws::has_only(value, "name"@),
    }
}

/// Whether a value lists objects with these names.
pub open spec fn lists_names(value: JsonView, names: Seq<Seq<char>>) -> bool {
    value matches JsonView::Array(items) && items.len() == names.len() && forall|i: int|
        0 <= i < names.len() ==> (#[trigger] items[i]).member("name"@) == Some(
            JsonView::Text(names[i]),
        ) && laws::has_only(items[i], "name"@)
}

/// Whether a member is the text that is given in the form that the service takes, or is
/// missing where none is given.
pub open spec fn is_text_for(
    value: Option<JsonView>,
    deployment: JiraDeployment,
    text: Option<Seq<char>>,
) -> bool {
    match text {
        Some(text) => value matches Some(value) && laws::says(value, deployment, text),
        None => value is None,
    }
}

/// Whether an outcome is a refusal of the caller's parameters.
pub open spec fn is_refusal<T>(outcome: Result<T, FailureView>) -> bool {
    outcome matches Err(failure) && failure.code == ErrorCode::InvalidParams
}

/// A required text is taken without the white space around it, and refused where that
/// leaves nothing; an optional one then counts as left out.
pub proof fn law_texts_are_taken_trimmed(value: String, field_name: Seq<char>)
    ensures
        is_given(value@) ==> args::required_text(value@, field_name) == Ok::<
            Seq<char>,
            FailureView,
        >(text::trimmed(value@)),
        !is_given(value@) ==> is_refusal(args::required_text(value@, field_name)),
        args::optional_text(Some(value@)) == given_text(Some(value)),
        args::optional_text(None) == None::<Seq<char>>,
{
}

proof fn lemma_given_text(value: Option<String>)
    ensures
        args::optional_text(value.deep_view()) == given_text(value),
{
}

proof fn lemma_user(deployment: JiraDeployment, user: Seq<char>)
    ensures
        is_user(payloads::user_reference(deployment, user), deployment, user),
{
    reveal_strlit("accountId");
    reveal_strlit("name");
    assert("accountId"@.len() == 9);
    assert("name"@.len() == 4);
}

proof fn lemma_names(names: Seq<Seq<char>>)
    ensures
        names.len() > 0 ==> (payloads::component_references(Some(names)) matches Some(value)
            && lists_names(value, names)),
        names.len() == 0 ==> payloads::component_references(Some(names)) is None,
        payloads::component_references(None) is None,
{
}

proof fn lemma_body(deployment: JiraDeployment, text: Option<String>)
    ensures
        is_text_for(
            payloads::optional_body(deployment, text.deep_view()),
            deployment,
            given_text(text),
        ),
{
    if let Some(text) = given_text(text) {
        laws::law_texts_are_written_for_the_service(deployment, text);
    }
}

/// The names of the components that an argument lists, none where there is no argument.
pub open spec fn component_names(components: Option<JsonView>) -> Seq<Seq<char>> {
    match components {
        Some(components) => formatting::string_list_argument(components, "components"@)->Ok_0,
        None => Seq::empty(),
    }
}

/// Whether an argument is left out or lists texts.
pub open spec fn lists_texts(value: Option<JsonView>, field_name: Seq<char>) -> bool {
    value matches Some(value) ==> formatting::string_list_argument(value, field_name) is Ok
}

/// A new issue is made exactly where its project, summary and type are given, its components
/// are a list of texts and its additional fields an object, as far as they are there.
pub proof fn law_new_issues_need_project_summary_and_type(
    args: JiraCreateIssueArgs,
    deployment: JiraDeployment,
)
    ensures
        (payloads::new_issue_fields(args@, deployment) is Ok) == (is_given(args.project_key@)
            && is_given(args.summary@) && is_given(args.issue_type@) && lists_texts(
            args.components.deep_view(),
            "components"@,
        ) && laws::is_object_or_absent(args.additional_fields.deep_view())),
        payloads::new_issue_fields(args@, deployment) is Err ==> is_refusal(
            payloads::new_issue_fields(args@, deployment),
        ),
{
    if let Some(value) = args.additional_fields.deep_view() {
        laws::law_object_arguments(value, "additional_fields"@);
    }
}

/// The fields of a new issue are those that are given, each under the name and in the form
/// that the service takes, unless an additional field stands in its place; an additional
/// field is sent as it is, and no other field is sent.
pub proof fn law_new_issues_have_the_given_fields(
    args: JiraCreateIssueArgs,
    deployment: JiraDeployment,
    fields: JsonView,
    key: Seq<char>,
)
    requires
        payloads::new_issue_fields(args@, deployment) == Ok::<JsonView, FailureView>(fields),
    ensures
        fields is Object,
        ({
            let more = laws::optional_object(args.additional_fields.deep_view());
            let names = component_names(args.components.deep_view());
            if more is Some && more->0.member(key) is Some {
                fields.member(key) == more->0.member(key)
            } else if key == "project"@ {
                &&& fields.member(key) matches Some(project)
                &&& project.member("key"@) == Some(
                    JsonView::Text(text::trimmed(args.project_key@)),
                )
                &&& laws::has_only(project, "key"@)
            } else if key == "summary"@ {
                fields.member(key) == Some(JsonView::Text(text::trimmed(args.summary@)))
            } else if key == "issuetype"@ {
                &&& fields.member(key) matches Some(issue_type)
                &&& issue_type.member("name"@) == Some(
                    JsonView::Text(text::trimmed(args.issue_type@)),
                )
                &&& laws::has_only(issue_type, "name"@)
            } else if key == "description"@ {
                is_text_for(fields.member(key), deployment, given_text(args.description))
            } else if key == "assignee"@ {
                match given_text(args.assignee) {
                    Some(user) => fields.member(key) matches Some(value) && is_user(
                        value,
                        deployment,
                        user,
                    ),
                    None => fields.member(key) is None,
                }
            } else if key == "components"@ && names.len() > 0 {
                fields.member(key) matches Some(value) && lists_names(value, names)
            } else {
                fields.member(key) is None
            }
        }),
{
    reveal_strlit("project");
    reveal_strlit("summary");
    reveal_strlit("issuetype");
    reveal_strlit("description");
    reveal_strlit("assignee");
    reveal_strlit("components");
    reveal_strlit("key");
    reveal_strlit("name");
    assert("project"@.len() == 7);
    assert("summary"@.len() == 7);
    assert("issuetype"@.len() == 9);
    assert("description"@.len() == 11);
    assert("assignee"@.len() == 8);
    assert("components"@.len() == 10);
    assert("key"@.len() == 3);
    assert("name"@.len() == 4);
    assert("project"@[0] != "summary"@[0]);
    lemma_given_text(args.assignee);
    lemma_body(deployment, args.description);
    if let Some(user) = given_text(args.assignee) {
        lemma_user(deployment, user);
    }
    lemma_names(component_names(args.components.deep_view()));
    if let Some(value) = args.additional_fields.deep_view() {
        laws::law_object_arguments(value, "additional_fields"@);
    }
    payloads::law_additional_fields_win(args@, deployment, key);
}

/// Whether a key is one that an issue of many describes itself by.
pub open spec fn is_issue_key(key: Seq<char>) -> bool {
    key == "project_key"@ || key == "summary"@ || key == "issue_type"@ || key == "assignee"@ || key
        == "description"@ || key == "components"@
}

/// An issue of many is made as it would be made alone: what its object holds under the names
/// of the arguments are the arguments, and what else it holds are additional fields.
pub proof fn law_issues_of_many_are_made_as_alone(
    issue: JsonView,
    args: JiraCreateIssueArgs,
    deployment: JiraDeployment,
)
    requires
        issue is Object,
        issue.member("project_key"@) == Some(JsonView::Text(args.project_key@)),
        issue.member("summary"@) == Some(JsonView::Text(args.summary@)),
        issue.member("issue_type"@) == Some(JsonView::Text(args.issue_type@)),
        issue.member("assignee"@) == text_value(args.assignee.deep_view()),
        issue.member("description"@) == text_value(args.description.deep_view()),
        issue.member("components"@) == args.components.deep_view(),
        match args.additional_fields.deep_view() {
            Some(more) => more is Object && more != JsonView::empty_object() && forall|
                key: Seq<char>,
            | #[trigger]
                more.member(key) == (if is_issue_key(key) {
                    None
                } else {
                    issue.member(key)
                }),
            None => forall|key: Seq<char>| #[trigger]
                issue.member(key) is Some ==> is_issue_key(key),
        },
    ensures
        payloads::new_issue_fields_of(issue, deployment) == payloads::new_issue_fields(
            args@,
            deployment,
        ),
{
    reveal_strlit("project_key");
    reveal_strlit("summary");
    reveal_strlit("issue_type");
    reveal_strlit("assignee");
    reveal_strlit("description");
    reveal_strlit("components");
    assert("project_key"@.len() == 11);
    assert("summary"@.len() == 7);
    assert("issue_type"@.len() == 10);
    assert("assignee"@.len() == 8);
    assert("description"@.len() == 11);
    assert("components"@.len() == 10);
    assert("project_key"@[0] != "description"@[0]);
    assert("issue_type"@[0] != "components"@[0]);
    text::law_trimmed_stays(args.project_key@);
    text::law_trimmed_stays(args.summary@);
    text::law_trimmed_stays(args.issue_type@);
    if let Some(assignee) = args.assignee {
        text::law_trimmed_stays(assignee@);
    }
    if let Some(description) = args.description {
        text::law_trimmed_stays(description@);
    }
    let object = issue->Object_0;
    let rest = object.remove("project_key"@).remove("summary"@).remove("issue_type"@).remove(
        "assignee"@,
    ).remove("description"@).remove("components"@);
    match args.additional_fields.deep_view() {
        Some(more) => {
            let members = more->Object_0;
            assert forall|key: Seq<char>| #[trigger] rest.dom().contains(key)
                == members.dom().contains(key) && (rest.dom().contains(key) ==> rest[key]
                == members[key]) by {
                assert(more.member(key) == (if is_issue_key(key) {
                    None
                } else {
                    issue.member(key)
                }));
            }
            assert(rest.dom() =~= members.dom());
            assert(rest =~= members);
        },
        None => {
            assert forall|key: Seq<char>| !rest.contains_key(key) by {
                assert(issue.member(key) is Some ==> is_issue_key(key));
            }
            assert(rest =~= Map::<Seq<char>, JsonView>::empty());
        },
    }
    lemma_issue_of_members(issue, args, deployment, rest);
}

proof fn lemma_issue_of_members(
    issue: JsonView,
    args: JiraCreateIssueArgs,
    deployment: JiraDeployment,
    rest: Map<Seq<char>, JsonView>,
)
    requires
        issue is Object,
        issue.member("project_key"@) == Some(JsonView::Text(args.project_key@)),
        issue.member("summary"@) == Some(JsonView::Text(args.summary@)),
        issue.member("issue_type"@) == Some(JsonView::Text(args.issue_type@)),
        issue.member("assignee"@) == text_value(args.assignee.deep_view()),
        issue.member("description"@) == text_value(args.description.deep_view()),
        issue.member("components"@) == args.components.deep_view(),
        rest == issue->Object_0.remove("project_key"@).remove("summary"@).remove(
            "issue_type"@,
        ).remove("assignee"@).remove("description"@).remove("components"@),
        args.additional_fields.deep_view() == (if rest == Map::<Seq<char>, JsonView>::empty() {
            None
        } else {
            Some(JsonView::Object(rest))
        }),
    ensures
        payloads::new_issue_fields_of(issue, deployment) == payloads::new_issue_fields(
            args@,
            deployment,
        ),
{
    reveal_strlit("project_key");
    reveal_strlit("summary");
    reveal_strlit("issue_type");
    reveal_strlit("assignee");
    reveal_strlit("description");
    reveal_strlit("components");
    assert("project_key"@.len() == 11);
    assert("summary"@.len() == 7);
    assert("issue_type"@.len() == 10);
    assert("assignee"@.len() == 8);
    assert("description"@.len() == 11);
    assert("components"@.len() == 10);
    assert("project_key"@[0] != "description"@[0]);
    assert("issue_type"@[0] != "components"@[0]);
    text::law_trimmed_stays(args.project_key@);
    text::law_trimmed_stays(args.summary@);
    text::law_trimmed_stays(args.issue_type@);
    if let Some(assignee) = args.assignee {
        text::law_trimmed_stays(assignee@);
    }
    if let Some(description) = args.description {
        text::law_trimmed_stays(description@);
    }
    let object = issue->Object_0;
    if is_given(args.project_key@) && is_given(args.summary@) && is_given(args.issue_type@) {
        let made = payloads::issue_of_members(object)->Ok_0;
        assert(payloads::issue_of_members(object) is Ok);
        assert(made.project_key == text::trimmed(args.project_key@));
        assert(made.summary == text::trimmed(args.summary@));
        assert(made.issue_type == text::trimmed(args.issue_type@));
        assert(made.assignee == given_text(args.assignee));
        assert(made.description == given_text(args.description));
        assert(made.components == args.components.deep_view());
        assert(made.additional_fields == args.additional_fields.deep_view());
        assert(args::optional_text(made.assignee) == args::optional_text(args@.assignee));
        assert(args::optional_text(made.description) == args::optional_text(args@.description));
        lemma_same_named_fields(args@, made, deployment);
    }
}

proof fn lemma_same_named_fields(
    left: payloads::CreateIssueView,
    right: payloads::CreateIssueView,
    deployment: JiraDeployment,
)
    requires
        text::trimmed(left.project_key) == text::trimmed(right.project_key),
        text::trimmed(left.summary) == text::trimmed(right.summary),
        text::trimmed(left.issue_type) == text::trimmed(right.issue_type),
        args::optional_text(left.assignee) == args::optional_text(right.assignee),
        args::optional_text(left.description) == args::optional_text(right.description),
        left.components == right.components,
        left.additional_fields == right.additional_fields,
    ensures
        payloads::new_issue_fields(left, deployment) == payloads::new_issue_fields(
            right,
            deployment,
        ),
{
}

/// Many issues are made where each can be, in their order and each with its own fields and
/// nothing else.
pub proof fn law_many_issues_are_made_one_by_one(
    issues: JsonView,
    deployment: JiraDeployment,
    i: int,
)
    ensures
        match formatting::object_list_argument(issues, "issues"@) {
            Ok(listed) => {
                &&& (payloads::issue_updates(issues, deployment) is Ok) == (forall|k: int|
                    0 <= k < listed.len() ==> payloads::new_issue_fields_of(
                        #[trigger] listed[k],
                        deployment,
                    ) is Ok)
                &&& payloads::issue_updates(issues, deployment) matches Ok(updates) ==> {
                    &&& updates.len() == listed.len()
                    &&& 0 <= i < listed.len() ==> {
                        &&& updates[i].member("fields"@) is Some
                        &&& payloads::new_issue_fields_of(listed[i], deployment) == Ok::<
                            JsonView,
                            FailureView,
                        >(updates[i].member("fields"@)->0)
                        &&& laws::has_only(updates[i], "fields"@)
                    }
                }
            },
            Err(_) => is_refusal(payloads::issue_updates(issues, deployment)),
        },
{
    laws::law_object_arguments(issues, "issues"@);
    if let Ok(listed) = formatting::object_list_argument(issues, "issues"@) {
        let make = |issue: JsonView| payloads::issue_update(issue, deployment);
        payloads::law_each_is_made_alone(listed, make);
        assert forall|k: int| 0 <= k < listed.len() implies (make(#[trigger] listed[k]) is Ok) == (
        payloads::new_issue_fields_of(listed[k], deployment) is Ok) by {}
        if payloads::issue_updates(issues, deployment) is Ok {
            assert forall|k: int| 0 <= k < listed.len() implies payloads::new_issue_fields_of(
                #[trigger] listed[k],
                deployment,
            ) is Ok by {
                assert(make(listed[k]) is Ok);
            }
            if 0 <= i < listed.len() {
                assert(make(listed[i]) is Ok);
            }
        } else {
            let k = choose|k: int| 0 <= k < listed.len() && make(#[trigger] listed[k]) is Err;
            assert(payloads::new_issue_fields_of(listed[k], deployment) is Err);
        }
    }
}

/// Whether the fields of an update are those that are given, with a description and an
/// assignee that are texts written in the form that the service takes.
pub open spec fn are_written(
    sent: JsonView,
    given: JsonView,
    deployment: JiraDeployment,
    key: Seq<char>,
) -> bool {
    if key == "description"@ && laws::has_text(given, "description"@) {
        sent.member(key) matches Some(value) && laws::says(
            value,
            deployment,
            given.member("description"@)->0->Text_0,
        )
    } else if key == "assignee"@ && laws::has_text(given, "assignee"@) {
        sent.member(key) matches Some(value) && is_user(
            value,
            deployment,
            given.member("assignee"@)->0->Text_0,
        )
    } else {
        sent.member(key) == given.member(key)
    }
}

proof fn lemma_written(given: JsonView, deployment: JiraDeployment, key: Seq<char>)
    requires
        given is Object,
    ensures
        payloads::written_fields(given, deployment) is Object,
        are_written(payloads::written_fields(given, deployment), given, deployment, key),
{
    reveal_strlit("description");
    reveal_strlit("assignee");
    assert("description"@.len() == 11);
    assert("assignee"@.len() == 8);
    if let Some(JsonView::Text(text)) = given.member("description"@) {
        laws::law_texts_are_written_for_the_service(deployment, text);
    }
    if let Some(JsonView::Text(user)) = given.member("assignee"@) {
        lemma_user(deployment, user);
    }
}

/// The fields of an update are sent as they are given, but for a description and an assignee
/// that are texts: those are written in the form that the service takes. Attachments, and
/// what is no object, are refused.
pub proof fn law_updates_are_written_for_the_service(
    fields: JsonView,
    deployment: JiraDeployment,
    field_name: Seq<char>,
    key: Seq<char>,
)
    ensures
        (payloads::normal_fields(fields, deployment, field_name) is Ok) == (fields is Object
            && fields.member("attachments"@) is None),
        payloads::normal_fields(fields, deployment, field_name) is Err ==> is_refusal(
            payloads::normal_fields(fields, deployment, field_name),
        ),
        payloads::normal_fields(fields, deployment, field_name) matches Ok(sent) ==> are_written(
            sent,
            fields,
            deployment,
            key,
        ),
{
    if fields is Object {
        lemma_written(fields, deployment, key);
    }
}

/// Whether an argument is an object without attachments.
pub open spec fn is_update(value: JsonView) -> bool {
    laws::given_object(value) matches Some(object) && object.member("attachments"@) is None
}

/// An update is sent for the issue that is named, with the fields that are given, written
/// for the service. Its additional fields are sent beside them, with the components that
/// are listed among them.
pub proof fn law_updates_send_what_is_given(
    args: JiraUpdateIssueArgs,
    deployment: JiraDeployment,
    update: UpdateView,
    additional: Option<JsonView>,
    key: Seq<char>,
)
    requires
        payloads::issue_update_of(args, deployment) == Ok::<
            (UpdateView, Option<JsonView>),
            FailureView,
        >((update, additional)),
    ensures
        update.issue_key == text::trimmed(args.issue_key@),
        update.notify_users == args.notify_users,
        are_written(update.fields, laws::given_object(args.fields@)->0, deployment, key),
        ({
            let given = laws::optional_object(args.additional_fields.deep_view());
            let names = component_names(args.components.deep_view());
            &&& additional is None == (given is None && names.len() == 0)
            &&& additional matches Some(sent) ==> if key == "components"@ && names.len() > 0 {
                sent.member(key) matches Some(value) && lists_names(value, names)
            } else if given is Some {
                are_written(sent, given->0, deployment, key)
            } else {
                sent.member(key) is None
            }
        }),
{
    reveal_strlit("description");
    reveal_strlit("assignee");
    reveal_strlit("components");
    assert("description"@.len() == 11);
    assert("assignee"@.len() == 8);
    assert("components"@.len() == 10);
    laws::law_object_arguments(args.fields@, "fields"@);
    let fields = laws::given_object(args.fields@)->0;
    lemma_written(fields, deployment, key);
    lemma_names(component_names(args.components.deep_view()));
    if let Some(value) = args.additional_fields.deep_view() {
        laws::law_object_arguments(value, "additional_fields"@);
        lemma_written(laws::given_object(value)->0, deployment, key);
    }
}

/// An update is made exactly where the issue is named, the fields and the additional fields
/// are objects without attachments, the components are a list of texts, and something is to
/// be changed.
pub proof fn law_updates_are_made_where_something_changes(
    args: JiraUpdateIssueArgs,
    deployment: JiraDeployment,
)
    ensures
        (payloads::issue_update_of(args, deployment) is Ok) == {
            &&& is_given(args.issue_key@)
            &&& is_update(args.fields@)
            &&& lists_texts(args.components.deep_view(), "components"@)
            &&& args.additional_fields.deep_view() matches Some(value) ==> is_update(value)
            &&& laws::given_object(args.fields@) != Some(JsonView::empty_object())
                || args.additional_fields is Some || component_names(
                args.components.deep_view(),
            ).len() > 0
        },
        payloads::issue_update_of(args, deployment) is Err ==> is_refusal(
            payloads::issue_update_of(args, deployment),
        ),
{
    laws::law_object_arguments(args.fields@, "fields"@);
    if let Some(value) = args.additional_fields.deep_view() {
        laws::law_object_arguments(value, "additional_fields"@);
    }
    lemma_names(component_names(args.components.deep_view()));
    if is_update(args.fields@) {
        let fields = laws::given_object(args.fields@)->0;
        let sent = payloads::written_fields(fields, deployment);
        let empty = JsonView::empty_object();
        assert(forall|key: Seq<char>| empty.member(key) is None);
        if fields == empty {
            assert(sent == empty);
        } else {
            if forall|key: Seq<char>| #[trigger] fields.member(key) is None {
                assert forall|key: Seq<char>| !#[trigger] fields->Object_0.dom().contains(key) by {
                    assert(fields.member(key) is None);
                }
                assert(fields->Object_0 =~= Map::<Seq<char>, JsonView>::empty());
            }
            let key = choose|key: Seq<char>| #[trigger] fields.member(key) is Some;
            lemma_written(fields, deployment, key);
            assert(sent.member(key) is Some);
        }
    }
}

/// A new issue and an update that name the same assignee send the same reference.
pub proof fn law_assignees_are_named_alike(
    args: JiraCreateIssueArgs,
    update: JsonView,
    deployment: JiraDeployment,
    field_name: Seq<char>,
)
    requires
        args.additional_fields is None,
        given_text(args.assignee) is Some,
        update is Object,
        update.member("assignee"@) == Some(JsonView::Text(given_text(args.assignee)->0)),
    ensures
        payloads::new_issue_fields(args@, deployment) is Ok && payloads::normal_fields(
            update,
            deployment,
            field_name,
        ) is Ok ==> payloads::new_issue_fields(args@, deployment)->Ok_0.member("assignee"@)
            == payloads::normal_fields(update, deployment, field_name)->Ok_0.member("assignee"@),
{
    reveal_strlit("project");
    reveal_strlit("summary");
    reveal_strlit("issuetype");
    reveal_strlit("description");
    reveal_strlit("assignee");
    reveal_strlit("components");
    assert("project"@.len() == 7);
    assert("summary"@.len() == 7);
    assert("issuetype"@.len() == 9);
    assert("description"@.len() == 11);
    assert("assignee"@.len() == 8);
    assert("components"@.len() == 10);
    assert("project"@[0] != "summary"@[0]);
    lemma_given_text(args.assignee);
}

/// A version is made where its project and its name are given, and is sent with them, its
/// dates and its description, as far as they are given.
pub proof fn law_new_versions_have_what_is_given(args: JiraCreateVersionArgs)
    ensures
        (payloads::version_payload(args) is Ok) == (is_given(args.project_key@) && is_given(
            args.name@,
        )),
        payloads::version_payload(args) is Err ==> is_refusal(payloads::version_payload(args)),
        payloads::version_payload(args) matches Ok(sent) ==> {
            &&& sent.member("project"@) == Some(JsonView::Text(text::trimmed(args.project_key@)))
            &&& sent.member("name"@) == Some(JsonView::Text(text::trimmed(args.name@)))
            &&& sent.member("startDate"@) == text_value(given_text(args.start_date))
            &&& sent.member("releaseDate"@) == text_value(given_text(args.release_date))
            &&& sent.member("description"@) == text_value(given_text(args.description))
            &&& forall|key: Seq<char>| #[trigger]
                sent.member(key) is Some ==> key == "project"@ || key == "name"@
                    || key == "startDate"@ || key == "releaseDate"@ || key == "description"@
        },
{
    reveal_strlit("project");
    reveal_strlit("name");
    reveal_strlit("startDate");
    reveal_strlit("releaseDate");
    reveal_strlit("description");
    assert("project"@.len() == 7);
    assert("name"@.len() == 4);
    assert("startDate"@.len() == 9);
    assert("releaseDate"@.len() == 11);
    assert("description"@.len() == 11);
    assert("releaseDate"@[0] != "description"@[0]);
    lemma_given_text(args.start_date);
    lemma_given_text(args.release_date);
    lemma_given_text(args.description);
}

/// The text of a member without the white space around it, where that leaves something.
pub open spec fn given_member(value: JsonView, key: Seq<char>) -> Option<Seq<char>> {
    if laws::has_text(value, key) && is_given(value.member(key)->0->Text_0) {
        Some(text::trimmed(value.member(key)->0->Text_0))
    } else {
        None
    }
}

/// Whether a member is a text, null or missing.
pub open spec fn is_text_or_nothing(value: JsonView, key: Seq<char>) -> bool {
    value.member(key) matches Some(member) ==> member is Text || member is Null
}

/// The text of the first of two members or, where it has none, of the second.
pub open spec fn given_by_either(value: JsonView, first: Seq<char>, second: Seq<char>) -> Option<
    Seq<char>,
> {
    match given_member(value, first) {
        Some(text) => Some(text),
        None => given_member(value, second),
    }
}

/// A version of many is sent with the project of all, its own name, and its dates and its
/// description as far as they are given; a date may come under either of two names. What
/// else it holds is sent as it is.
pub proof fn law_versions_of_many_have_what_is_given(
    version: JsonView,
    project_key: Seq<char>,
    key: Seq<char>,
)
    requires
        version is Object,
    ensures
        (payloads::version_payload_of(version, project_key) is Ok) == {
            &&& given_member(version, "name"@) is Some
            &&& is_text_or_nothing(version, "startDate"@)
            &&& given_member(version, "startDate"@) is Some || is_text_or_nothing(
                version,
                "start_date"@,
            )
            &&& is_text_or_nothing(version, "releaseDate"@)
            &&& given_member(version, "releaseDate"@) is Some || is_text_or_nothing(
                version,
                "release_date"@,
            )
            &&& is_text_or_nothing(version, "description"@)
        },
        payloads::version_payload_of(version, project_key) is Err ==> is_refusal(
            payloads::version_payload_of(version, project_key),
        ),
        payloads::version_payload_of(version, project_key) matches Ok(sent) ==> sent.member(key)
            == (if key == "project"@ {
            Some(JsonView::Text(project_key))
        } else if key == "name"@ {
            text_value(given_member(version, "name"@))
        } else if key == "startDate"@ {
            text_value(given_by_either(version, "startDate"@, "start_date"@))
        } else if key == "releaseDate"@ {
            text_value(given_by_either(version, "releaseDate"@, "release_date"@))
        } else if key == "description"@ {
            text_value(given_member(version, "description"@))
        } else if key == "start_date"@ && given_member(version, "startDate"@) is None {
            None
        } else if key == "release_date"@ && given_member(version, "releaseDate"@) is None {
            None
        } else {
            version.member(key)
        }),
{
    reveal_strlit("project");
    reveal_strlit("name");
    reveal_strlit("startDate");
    reveal_strlit("start_date");
    reveal_strlit("releaseDate");
    reveal_strlit("release_date");
    reveal_strlit("description");
    assert("project"@.len() == 7);
    assert("name"@.len() == 4);
    assert("startDate"@.len() == 9);
    assert("start_date"@.len() == 10);
    assert("releaseDate"@.len() == 11);
    assert("release_date"@.len() == 12);
    assert("description"@.len() == 11);
    assert("releaseDate"@[0] != "description"@[0]);
    let object = version->Object_0;
    let without_name = object.remove("name"@);
    lemma_alias(without_name, "startDate"@, "start_date"@);
    let without_start = args::without_alias(without_name, "startDate"@, "start_date"@);
    lemma_alias(without_start, "releaseDate"@, "release_date"@);
    let without_release = args::without_alias(without_start, "releaseDate"@, "release_date"@);
    let left = JsonView::Object(without_name);
    assert(given_member(left, "startDate"@) == given_member(version, "startDate"@));
    assert(given_member(left, "start_date"@) == given_member(version, "start_date"@));
    let left = JsonView::Object(without_start);
    assert(left.member("releaseDate"@) == version.member("releaseDate"@));
    assert(left.member("release_date"@) == version.member("release_date"@));
    assert(given_member(left, "releaseDate"@) == given_member(version, "releaseDate"@));
    assert(given_member(left, "release_date"@) == given_member(version, "release_date"@));
    let left = JsonView::Object(without_release);
    assert(left.member("description"@) == version.member("description"@));
    assert(payloads::version_payload_of(version, project_key) == payloads::version_of_members(
        object,
        project_key,
    ));
}

proof fn lemma_alias(object: Map<Seq<char>, JsonView>, first: Seq<char>, second: Seq<char>)
    requires
        first != second,
    ensures
        ({
            let value = JsonView::Object(object);
            let either = args::alias_member(object, first, second);
            &&& (either is Ok) == (is_text_or_nothing(value, first) && (given_member(value, first)
                is Some || is_text_or_nothing(value, second)))
            &&& either matches Ok(text) ==> text == given_by_either(value, first, second)
            &&& either matches Err(failure) ==> failure.code == ErrorCode::InvalidParams
            &&& is_text_or_nothing(value, first) ==> args::without_alias(object, first, second)
                == (if given_member(value, first) is Some {
                object.remove(first)
            } else {
                object.remove(first).remove(second)
            })
        }),
{
    let value = JsonView::Object(object);
    let rest = JsonView::Object(object.remove(first));
    assert(rest.member(second) == value.member(second));
}

/// Many versions are made where each can be, in their order, each as it would be made alone.
pub proof fn law_many_versions_are_made_one_by_one(
    versions: JsonView,
    project_key: Seq<char>,
    i: int,
)
    ensures
        match formatting::object_list_argument(versions, "versions"@) {
            Ok(listed) => {
                &&& (payloads::version_payloads(versions, project_key) is Ok) == (forall|k: int|
                    0 <= k < listed.len() ==> payloads::version_payload_of(
                        #[trigger] listed[k],
                        project_key,
                    ) is Ok)
                &&& payloads::version_payloads(versions, project_key) matches Ok(sent) ==> {
                    &&& sent.len() == listed.len()
                    &&& 0 <= i < listed.len() ==> payloads::version_payload_of(
                        listed[i],
                        project_key,
                    ) == Ok::<JsonView, FailureView>(sent[i])
                }
            },
            Err(_) => is_refusal(payloads::version_payloads(versions, project_key)),
        },
{
    laws::law_object_arguments(versions, "versions"@);
    if let Ok(listed) = formatting::object_list_argument(versions, "versions"@) {
        let make = |version: JsonView| payloads::version_payload_of(version, project_key);
        payloads::law_each_is_made_alone(listed, make);
        if payloads::version_payloads(versions, project_key) is Ok {
            assert forall|k: int| 0 <= k < listed.len() implies payloads::version_payload_of(
                #[trigger] listed[k],
                project_key,
            ) is Ok by {
                assert(make(listed[k]) is Ok);
            }
            if 0 <= i < listed.len() {
                assert(make(listed[i]) is Ok);
            }
        } else {
            let k = choose|k: int| 0 <= k < listed.len() && make(#[trigger] listed[k]) is Err;
            assert(payloads::version_payload_of(listed[k], project_key) is Err);
        }
    }
}

/// An entry of a worklog is made where its issue and its time are given. Its time, its
/// start, its comment in the form of the service and its visibility are its body, and how
/// the estimate changes are its parameters, as far as they are given.
pub proof fn law_worklogs_have_what_is_given(
    args: JiraAddWorklogArgs,
    deployment: JiraDeployment,
    name: Seq<char>,
    value: Seq<char>,
)
    ensures
        (payloads::worklog_payload(args, deployment) is Ok) == (is_given(args.issue_key@)
            && is_given(args.time_spent@) && laws::is_object_or_absent(
            args.visibility.deep_view(),
        )),
        payloads::worklog_payload(args, deployment) is Err ==> is_refusal(
            payloads::worklog_payload(args, deployment),
        ),
        payloads::worklog_payload(args, deployment) matches Ok((issue_key, sent, query)) ==> {
            &&& issue_key == text::trimmed(args.issue_key@)
            &&& sent.member("timeSpent"@) == Some(JsonView::Text(text::trimmed(args.time_spent@)))
            &&& sent.member("started"@) == text_value(given_text(args.started))
            &&& is_text_for(sent.member("comment"@), deployment, given_text(args.comment))
            &&& sent.member("visibility"@) == laws::optional_object(args.visibility.deep_view())
            &&& forall|key: Seq<char>| #[trigger]
                sent.member(key) is Some ==> key == "timeSpent"@ || key == "started"@
                    || key == "comment"@ || key == "visibility"@
            &&& query.contains((name, value)) == {
                ||| name == "adjustEstimate"@ && given_text(args.adjust_estimate) == Some(value)
                ||| name == "newEstimate"@ && given_text(args.new_estimate) == Some(value)
                ||| name == "reduceBy"@ && given_text(args.reduce_by) == Some(value)
            }
        },
{
    reveal_strlit("timeSpent");
    reveal_strlit("started");
    reveal_strlit("comment");
    reveal_strlit("visibility");
    assert("timeSpent"@.len() == 9);
    assert("started"@.len() == 7);
    assert("comment"@.len() == 7);
    assert("visibility"@.len() == 10);
    assert("started"@[0] != "comment"@[0]);
    lemma_given_text(args.started);
    lemma_given_text(args.adjust_estimate);
    lemma_given_text(args.new_estimate);
    lemma_given_text(args.reduce_by);
    lemma_body(deployment, args.comment);
    if let Some(value) = args.visibility.deep_view() {
        laws::law_object_arguments(value, "visibility"@);
    }
    let adjust = ("adjustEstimate"@, args::optional_text(args.adjust_estimate.deep_view()));
    let estimate = ("newEstimate"@, args::optional_text(args.new_estimate.deep_view()));
    let reduce = ("reduceBy"@, args::optional_text(args.reduce_by.deep_view()));
    let none = Seq::<(Seq<char>, Option<Seq<char>>)>::empty();
    assert(seq![adjust, estimate, reduce] =~= none.push(adjust).push(estimate).push(reduce));
    laws::lemma_param(none, adjust, (name, value));
    laws::lemma_param(none.push(adjust), estimate, (name, value));
    laws::lemma_param(none.push(adjust).push(estimate), reduce, (name, value));
    assert(crate::jira::client::present_params(none) =~= Seq::empty());
}

/// A link between two issues is made where its type and both issues are given, and is sent
/// with each of them in its own place and with the comment in the form of the service.
pub proof fn law_links_have_both_issues(args: JiraCreateIssueLinkArgs, deployment: JiraDeployment)
    ensures
        (payloads::issue_link_payload(args, deployment) is Ok) == (is_given(args.link_type@)
            && is_given(args.inward_issue_key@) && is_given(args.outward_issue_key@)),
        payloads::issue_link_payload(args, deployment) is Err ==> is_refusal(
            payloads::issue_link_payload(args, deployment),
        ),
        payloads::issue_link_payload(args, deployment) matches Ok(sent) ==> {
            &&& sent.member("type"@) is Some
            &&& sent.member("type"@)->0.member("name"@) == Some(
                JsonView::Text(text::trimmed(args.link_type@)),
            )
            &&& laws::has_only(sent.member("type"@)->0, "name"@)
            &&& sent.member("inwardIssue"@) is Some
            &&& sent.member("inwardIssue"@)->0.member("key"@) == Some(
                JsonView::Text(text::trimmed(args.inward_issue_key@)),
            )
            &&& laws::has_only(sent.member("inwardIssue"@)->0, "key"@)
            &&& sent.member("outwardIssue"@) is Some
            &&& sent.member("outwardIssue"@)->0.member("key"@) == Some(
                JsonView::Text(text::trimmed(args.outward_issue_key@)),
            )
            &&& laws::has_only(sent.member("outwardIssue"@)->0, "key"@)
            &&& match given_text(args.comment) {
                Some(text) => sent.member("comment"@) is Some && is_text_for(
                    sent.member("comment"@)->0.member("body"@),
                    deployment,
                    Some(text),
                ),
                None => sent.member("comment"@) is None,
            }
            &&& forall|key: Seq<char>| #[trigger]
                sent.member(key) is Some ==> key == "type"@ || key == "inwardIssue"@
                    || key == "outwardIssue"@ || key == "comment"@
        },
{
    reveal_strlit("type");
    reveal_strlit("name");
    reveal_strlit("inwardIssue");
    reveal_strlit("key");
    reveal_strlit("outwardIssue");
    reveal_strlit("comment");
    reveal_strlit("body");
    assert("type"@.len() == 4);
    assert("name"@.len() == 4);
    assert("inwardIssue"@.len() == 11);
    assert("key"@.len() == 3);
    assert("outwardIssue"@.len() == 12);
    assert("comment"@.len() == 7);
    assert("body"@.len() == 4);
    assert("type"@[0] != "name"@[0]);
    assert("type"@[0] != "body"@[0]);
    assert("name"@[0] != "body"@[0]);
    lemma_body(deployment, args.comment);
}

/// A link to a page is made where its issue, its URL and its title are given, and is sent
/// with what else is given of the page and of the link; an icon has the title of the page.
pub proof fn law_remote_links_have_what_is_given(args: JiraCreateRemoteIssueLinkArgs)
    ensures
        (payloads::remote_link_payload(args) is Ok) == (is_given(args.issue_key@) && is_given(
            args.url@,
        ) && is_given(args.title@) && laws::is_object_or_absent(args.status.deep_view())),
        payloads::remote_link_payload(args) is Err ==> is_refusal(
            payloads::remote_link_payload(args),
        ),
        payloads::remote_link_payload(args) matches Ok((issue_key, sent)) ==> {
            let page = sent.member("object"@)->0;
            &&& issue_key == text::trimmed(args.issue_key@)
            &&& sent.member("object"@) is Some
            &&& page.member("url"@) == Some(JsonView::Text(text::trimmed(args.url@)))
            &&& page.member("title"@) == Some(JsonView::Text(text::trimmed(args.title@)))
            &&& page.member("summary"@) == text_value(given_text(args.summary))
            &&& match given_text(args.icon_url) {
                Some(icon_url) => {
                    &&& page.member("icon"@) is Some
                    &&& page.member("icon"@)->0.member("url16x16"@) == Some(
                        JsonView::Text(icon_url),
                    )
                    &&& page.member("icon"@)->0.member("title"@) == page.member("title"@)
                },
                None => page.member("icon"@) is None,
            }
            &&& page.member("status"@) == laws::optional_object(args.status.deep_view())
            &&& forall|key: Seq<char>| #[trigger]
                page.member(key) is Some ==> key == "url"@ || key == "title"@
                    || key == "summary"@ || key == "icon"@ || key == "status"@
            &&& sent.member("globalId"@) == text_value(given_text(args.global_id))
            &&& sent.member("relationship"@) == text_value(given_text(args.relationship))
            &&& forall|key: Seq<char>| #[trigger]
                sent.member(key) is Some ==> key == "object"@ || key == "globalId"@
                    || key == "relationship"@
        },
{
    reveal_strlit("url");
    reveal_strlit("title");
    reveal_strlit("summary");
    reveal_strlit("icon");
    reveal_strlit("status");
    reveal_strlit("url16x16");
    reveal_strlit("object");
    reveal_strlit("globalId");
    reveal_strlit("relationship");
    assert("url"@.len() == 3);
    assert("title"@.len() == 5);
    assert("summary"@.len() == 7);
    assert("icon"@.len() == 4);
    assert("status"@.len() == 6);
    assert("url16x16"@.len() == 8);
    assert("object"@.len() == 6);
    assert("globalId"@.len() == 8);
    assert("relationship"@.len() == 12);
    assert("status"@[0] != "object"@[0]);
    assert("url16x16"@[0] != "globalId"@[0]);
    lemma_given_text(args.summary);
    lemma_given_text(args.icon_url);
    lemma_given_text(args.global_id);
    lemma_given_text(args.relationship);
    if let Some(value) = args.status.deep_view() {
        laws::law_object_arguments(value, "status"@);
    }
}

/// A sprint is made where its name is given, and is sent with its board and with its dates
/// and its goal, as far as they are given.
pub proof fn law_new_sprints_have_what_is_given(args: JiraCreateSprintArgs)
    ensures
        (payloads::new_sprint_payload(args) is Ok) == is_given(args.name@),
        payloads::new_sprint_payload(args) is Err ==> is_refusal(
            payloads::new_sprint_payload(args),
        ),
        payloads::new_sprint_payload(args) matches Ok(sent) ==> {
            &&& sent.member("name"@) == Some(JsonView::Text(text::trimmed(args.name@)))
            &&& sent.member("originBoardId"@) == Some(
                JsonView::Number(text::decimal(args.origin_board_id as nat)),
            )
            &&& sent.member("startDate"@) == text_value(given_text(args.start_date))
            &&& sent.member("endDate"@) == text_value(given_text(args.end_date))
            &&& sent.member("goal"@) == text_value(given_text(args.goal))
            &&& forall|key: Seq<char>| #[trigger]
                sent.member(key) is Some ==> key == "name"@ || key == "originBoardId"@
                    || key == "startDate"@ || key == "endDate"@ || key == "goal"@
        },
{
    reveal_strlit("name");
    reveal_strlit("originBoardId");
    reveal_strlit("startDate");
    reveal_strlit("endDate");
    reveal_strlit("goal");
    assert("name"@.len() == 4);
    assert("originBoardId"@.len() == 13);
    assert("startDate"@.len() == 9);
    assert("endDate"@.len() == 7);
    assert("goal"@.len() == 4);
    assert("name"@[0] != "goal"@[0]);
    lemma_given_text(args.start_date);
    lemma_given_text(args.end_date);
    lemma_given_text(args.goal);
}

/// An update of a sprint is for the sprint that is named and changes what is given, each
/// under its own name, and nothing else.
pub proof fn law_sprint_updates_change_what_is_given(
    args: JiraUpdateSprintArgs,
    sprint_id: u64,
    sent: JsonView,
)
    requires
        payloads::sprint_update(args) == Ok::<(u64, JsonView), FailureView>((sprint_id, sent)),
    ensures
        sprint_id == args.sprint_id,
        sent.member("name"@) == text_value(given_text(args.name)),
        sent.member("state"@) == text_value(given_text(args.state)),
        sent.member("startDate"@) == text_value(given_text(args.start_date)),
        sent.member("endDate"@) == text_value(given_text(args.end_date)),
        sent.member("goal"@) == text_value(given_text(args.goal)),
        forall|key: Seq<char>| #[trigger]
            sent.member(key) is Some ==> key == "name"@ || key == "state"@ || key == "startDate"@
                || key == "endDate"@ || key == "goal"@,
{
    reveal_strlit("name");
    reveal_strlit("state");
    reveal_strlit("startDate");
    reveal_strlit("endDate");
    reveal_strlit("goal");
    assert("name"@.len() == 4);
    assert("state"@.len() == 5);
    assert("startDate"@.len() == 9);
    assert("endDate"@.len() == 7);
    assert("goal"@.len() == 4);
    assert("name"@[0] != "goal"@[0]);
    lemma_given_text(args.name);
    lemma_given_text(args.state);
    lemma_given_text(args.start_date);
    lemma_given_text(args.end_date);
    lemma_given_text(args.goal);
}

/// Whether a link type is one that is asked for: its name holds a text, whatever the case of
/// letters.
pub open spec fn is_wanted_link_type(link_type: JsonView, wanted: Seq<char>) -> bool {
    laws::has_text(link_type, "name"@) && text::contains_text(
        text::unicode_lowercase(link_type.member("name"@)->0->Text_0),
        text::unicode_lowercase(wanted),
    )
}

/// Of a listing of link types those stay, in their order, whose name holds the text that is
/// asked for. Where no text is given, or there is no list, the listing stays as it is.
pub proof fn law_link_types_are_narrowed_by_name(
    listing: JsonView,
    name_filter: Option<String>,
    link_type: JsonView,
    key: Seq<char>,
)
    ensures
        given_text(name_filter) is None || !(listing.member("issueLinkTypes"@) matches Some(
            JsonView::Array(_),
        )) ==> mcp::narrowed_link_types(listing, name_filter.deep_view()) == listing,
        given_text(name_filter) is Some && (listing.member("issueLinkTypes"@) matches Some(
            JsonView::Array(_),
        )) ==> {
            let wanted = given_text(name_filter)->0;
            let types = laws::items_under(listing, "issueLinkTypes"@);
            let narrowed = mcp::narrowed_link_types(listing, name_filter.deep_view());
            let kept = laws::items_under(narrowed, "issueLinkTypes"@);
            &&& kept == types.filter(
                |link_type: JsonView| is_wanted_link_type(link_type, wanted),
            )
            &&& kept.contains(link_type) == (types.contains(link_type) && is_wanted_link_type(
                link_type,
                wanted,
            ))
            &&& key != "issueLinkTypes"@ ==> narrowed.member(key) == listing.member(key)
        },
{
    lemma_given_text(name_filter);
    if let Some(JsonView::Array(types)) = listing.member("issueLinkTypes"@) {
        if let Some(wanted) = given_text(name_filter) {
            let left = |link_type: JsonView|
                mcp::link_type_matches(link_type, text::unicode_lowercase(wanted));
            let right = |link_type: JsonView| is_wanted_link_type(link_type, wanted);
            laws::lemma_same_filter(types, left, right);
            laws::lemma_filter_holds(types, right, link_type);
        }
    }
}

} // verus!
