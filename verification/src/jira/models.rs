//! What is read from Jira's replies.

use vstd::prelude::*;

use crate::atlassian::error::{AtlassianError, ErrorView};
use crate::jira::formatting;
use crate::jira::formatting::extract_adf_text;
use crate::json::{Json, JsonView};
use crate::{json, lists, outcome, text};

verus! {

/// A field that issues can have.
#[derive(Debug)]
pub struct JiraField {
    pub id: String,
    pub name: String,
    pub key: Option<String>,
    /// The field as it was reported.
    pub raw: Json,
}

/// What a field stands for.
#[verifier::ext_equal]
pub struct FieldView {
    pub id: Seq<char>,
    pub name: Seq<char>,
    pub key: Option<Seq<char>>,
    pub raw: JsonView,
}

impl DeepView for JiraField {
    type V = FieldView;

    open spec fn deep_view(&self) -> FieldView {
        FieldView {
            id: self.id@,
            name: self.name@,
            key: self.key.deep_view(),
            raw: self.raw@,
        }
    }
}

impl Clone for JiraField {
    fn clone(&self) -> (copy: Self)
        ensures
            copy.deep_view() == self.deep_view(),
    {
        JiraField {
            id: self.id.clone(),
            name: self.name.clone(),
            key: match &self.key {
                Some(key) => Some(key.clone()),
                None => None,
            },
            raw: self.raw.clone(),
        }
    }
}

/// The text under `key`, where there is one.
pub open spec fn member_text(value: JsonView, key: Seq<char>) -> Option<Seq<char>> {
    match value.member(key) {
        Some(JsonView::Text(text)) => Some(text),
        _ => None,
    }
}

/// The text under `key`, where there is one.
pub fn text_member<'a>(value: &'a Json, key: &str) -> (text: Option<&'a str>)
    ensures
        text.deep_view() == member_text(value@, key@),
{
    match value.get(key) {
        Some(member) => member.as_str(),
        None => None,
    }
}

/// Whether a value reports a field: it has an id and a name.
pub open spec fn is_field(value: JsonView) -> bool {
    member_text(value, "id"@) is Some && member_text(value, "name"@) is Some
}

/// The field that a value reports.
pub open spec fn field_of(value: JsonView) -> FieldView {
    FieldView {
        id: member_text(value, "id"@)->0,
        name: member_text(value, "name"@)->0,
        key: member_text(value, "key"@),
        raw: value,
    }
}

/// The refusal of a reply that is no list of fields.
pub open spec fn no_fields() -> ErrorView {
    ErrorView::JsonDecode { message: "expected a list of fields with id and name"@ }
}

/// The fields that a reply lists.
pub open spec fn fields_of(reply: JsonView) -> Result<Seq<FieldView>, ErrorView> {
    match reply {
        JsonView::Array(items) => if forall|i: int|
            0 <= i < items.len() ==> is_field(#[trigger] items[i]) {
            Ok(items.map_values(|item: JsonView| field_of(item)))
        } else {
            Err(no_fields())
        },
        _ => Err(no_fields()),
    }
}

fn read_field(value: &Json) -> (field: Option<JiraField>)
    ensures
        field is Some == is_field(value@),
        field matches Some(field) ==> field.deep_view() == field_of(value@),
{
    let id = match text_member(value, "id") {
        Some(id) => id.to_owned(),
        None => {
            return None;
        },
    };
    let name = match text_member(value, "name") {
        Some(name) => name.to_owned(),
        None => {
            return None;
        },
    };
    let key = match text_member(value, "key") {
        Some(key) => Some(key.to_owned()),
        None => None,
    };
    Some(JiraField { id, name, key, raw: value.clone() })
}

fn fields_error() -> (error: AtlassianError)
    ensures
        error@ == no_fields(),
{
    AtlassianError::JsonDecode {
        message: "expected a list of fields with id and name".to_owned(),
    }
}

/// The fields that a reply lists.
pub fn read_fields(reply: &Json) -> (fields: Result<Vec<JiraField>, AtlassianError>)
    ensures
        outcome::of(fields) == fields_of(reply@),
{
    let items = match reply.as_array() {
        Some(items) => items,
        None => {
            return Err(fields_error());
        },
    };
    let ghost views = items.deep_view();
    let mut fields: Vec<JiraField> = Vec::new();
    let mut i: usize = 0;
    while i < items.len()
        invariant
            i <= items.len(),
            views == items.deep_view(),
            reply@ == JsonView::Array(views),
            forall|k: int| 0 <= k < i ==> is_field(#[trigger] views[k]),
            fields.deep_view() =~= views.take(i as int).map_values(|item: JsonView| field_of(item)),
        decreases items.len() - i,
    {
        proof {
            assert(views[i as int] == items@[i as int]@);
        }
        match read_field(&items[i]) {
            Some(field) => {
                let ghost before = fields.deep_view();
                fields.push(field);
                proof {
                    assert(fields.deep_view() =~= before.push(field.deep_view()));
                }
            },
            None => {
                return Err(fields_error());
            },
        }
        i = i + 1;
    }
    proof {
        assert(views.take(i as int) =~= views);
    }
    Ok(fields)
}

/// The reports of these fields.
pub open spec fn simplified_fields(fields: Seq<FieldView>) -> JsonView {
    JsonView::Array(fields.map_values(|field: FieldView| field.raw))
}

/// The reports of these fields.
pub fn simplify_fields(fields: &Vec<JiraField>) -> (simplified: Json)
    ensures
        simplified@ == simplified_fields(fields.deep_view()),
{
    let mut items: Vec<Json> = Vec::new();
    let mut i: usize = 0;
    while i < fields.len()
        invariant
            i <= fields.len(),
            items.deep_view() =~= fields.deep_view().take(i as int).map_values(
                |field: FieldView| field.raw,
            ),
        decreases fields.len() - i,
    {
        let item = fields[i].raw.clone();
        let ghost before = items.deep_view();
        items.push(item);
        proof {
            assert(items.deep_view() =~= before.push(item@));
            assert(fields.deep_view()[i as int] == fields@[i as int].deep_view());
        }
        i = i + 1;
    }
    proof {
        assert(fields.deep_view().take(i as int) =~= fields.deep_view());
    }
    Json::array(items)
}

/// A value that a field can take.
#[derive(Debug)]
pub struct JiraFieldOption {
    /// The option as it was reported.
    pub raw: Json,
}

impl DeepView for JiraFieldOption {
    type V = JsonView;

    open spec fn deep_view(&self) -> JsonView {
        self.raw@
    }
}

impl Clone for JiraFieldOption {
    fn clone(&self) -> (copy: Self)
        ensures
            copy.deep_view() == self.deep_view(),
    {
        JiraFieldOption { raw: self.raw.clone() }
    }
}

/// What an option is called: its value or, where it has none, its name.
pub open spec fn option_label(option: JsonView) -> Option<Seq<char>> {
    match member_text(option, "value"@) {
        Some(label) => Some(label),
        None => member_text(option, "name"@),
    }
}

impl JiraFieldOption {
    /// What the option is called: its value or, where it has none, its name.
    pub fn label(&self) -> (label: Option<&str>)
        ensures
            label.deep_view() == option_label(self.deep_view()),
    {
        match text_member(&self.raw, "value") {
            Some(label) => Some(label),
            None => text_member(&self.raw, "name"),
        }
    }
}

/// The options among these values, all of which must be objects.
pub open spec fn options_of(values: Seq<JsonView>) -> Option<Seq<JsonView>> {
    if forall|i: int| 0 <= i < values.len() ==> (#[trigger] values[i]) is Object {
        Some(values)
    } else {
        None
    }
}

/// The options among these values, all of which must be objects.
pub fn read_options(values: &Vec<Json>) -> (options: Option<Vec<JiraFieldOption>>)
    ensures
        options.deep_view() == options_of(values.deep_view()),
{
    let mut options: Vec<JiraFieldOption> = Vec::new();
    let mut i: usize = 0;
    while i < values.len()
        invariant
            i <= values.len(),
            forall|k: int| 0 <= k < i ==> (#[trigger] values.deep_view()[k]) is Object,
            options.deep_view() =~= values.deep_view().take(i as int),
        decreases values.len() - i,
    {
        proof {
            assert(values.deep_view()[i as int] == values@[i as int]@);
        }
        if !values[i].is_object() {
            return None;
        }
        let option = JiraFieldOption { raw: values[i].clone() };
        let ghost before = options.deep_view();
        options.push(option);
        proof {
            assert(options.deep_view() =~= before.push(option.deep_view()));
        }
        i = i + 1;
    }
    proof {
        assert(values.deep_view().take(i as int) =~= values.deep_view());
    }
    Some(options)
}

/// What these options are called, but for those that have no label.
pub open spec fn labels_of(options: Seq<JsonView>) -> Seq<Seq<char>> {
    options.filter(|option: JsonView| option_label(option) is Some).map_values(
        |option: JsonView| option_label(option)->0,
    )
}

/// The options, or only what they are called.
pub open spec fn simplified_options(options: Seq<JsonView>, values_only: bool) -> JsonView {
    if values_only {
        json::text_array(labels_of(options))
    } else {
        json::singleton("values"@, JsonView::Array(options))
    }
}

fn option_labels(options: &Vec<JiraFieldOption>) -> (labels: Vec<String>)
    ensures
        labels.deep_view() == labels_of(options.deep_view()),
{
    let ghost views = options.deep_view();
    let ghost labelled = |option: JsonView| option_label(option) is Some;
    let ghost label = |option: JsonView| option_label(option)->0;
    let mut labels: Vec<String> = Vec::new();
    let mut i: usize = 0;
    proof {
        lists::lemma_filter_none(views, labelled);
        assert(labels.deep_view() =~= Seq::<JsonView>::empty().map_values(label));
    }
    while i < options.len()
        invariant
            i <= options.len(),
            views == options.deep_view(),
            labelled == (|option: JsonView| option_label(option) is Some),
            label == (|option: JsonView| option_label(option)->0),
            labels.deep_view() == views.take(i as int).filter(labelled).map_values(label),
        decreases options.len() - i,
    {
        proof {
            lists::lemma_filter_next(views, labelled, i as int);
            assert(views[i as int] == options@[i as int].deep_view());
        }
        if let Some(text) = options[i].label() {
            let text = text.to_owned();
            let ghost kept = views.take(i as int).filter(labelled);
            let ghost before = labels.deep_view();
            labels.push(text);
            proof {
                assert(labels.deep_view() =~= before.push(text@));
                assert(kept.push(views[i as int]).map_values(label) =~= kept.map_values(
                    label,
                ).push(text@));
            }
        }
        i = i + 1;
    }
    proof {
        assert(views.take(i as int) =~= views);
    }
    labels
}

/// The options, or only what they are called.
pub fn simplify_options(options: &Vec<JiraFieldOption>, values_only: bool) -> (simplified: Json)
    ensures
        simplified@ == simplified_options(options.deep_view(), values_only),
{
    if values_only {
        return Json::array_of_texts(option_labels(options));
    }
    let mut items: Vec<Json> = Vec::new();
    let mut i: usize = 0;
    while i < options.len()
        invariant
            i <= options.len(),
            items.deep_view() =~= options.deep_view().take(i as int),
        decreases options.len() - i,
    {
        let item = options[i].raw.clone();
        let ghost before = items.deep_view();
        items.push(item);
        proof {
            assert(items.deep_view() =~= before.push(item@));
            assert(options.deep_view()[i as int] == options@[i as int].deep_view());
        }
        i = i + 1;
    }
    proof {
        assert(options.deep_view().take(i as int) =~= options.deep_view());
    }
    Json::single("values", Json::array(items))
}

/// An issue as it was reported, with its summary beside its fields; what is missing of
/// the two is null. What is no object stays as it is.
pub open spec fn simplified_issue(issue: JsonView) -> JsonView {
    issue.with("fields"@, issue.member_or_null("fields"@)).with(
        "summary"@,
        issue.member_or_null("fields"@).member_or_null("summary"@),
    )
}

/// An issue as it was reported, with its summary beside its fields; what is missing of
/// the two is null. What is no object stays as it is.
pub fn simplify_issue(issue: Json) -> (simplified: Json)
    ensures
        simplified@ == simplified_issue(issue@),
{
    let fields = issue.copy_or_null("fields");
    let summary = fields.copy_or_null("summary");
    let mut simplified = issue;
    simplified.set("fields", fields);
    simplified.set("summary", summary);
    simplified
}

/// These issues, each simplified.
pub open spec fn simplified_issues(issues: Seq<JsonView>) -> Seq<JsonView> {
    issues.map_values(|issue: JsonView| simplified_issue(issue))
}

fn simplify_issues(issues: &Vec<Json>) -> (simplified: Vec<Json>)
    ensures
        simplified.deep_view() == simplified_issues(issues.deep_view()),
{
    let mut simplified: Vec<Json> = Vec::new();
    let mut i: usize = 0;
    while i < issues.len()
        invariant
            i <= issues.len(),
            simplified.deep_view() =~= simplified_issues(issues.deep_view().take(i as int)),
        decreases issues.len() - i,
    {
        let issue = simplify_issue(issues[i].clone());
        let ghost before = simplified.deep_view();
        simplified.push(issue);
        proof {
            assert(simplified.deep_view() =~= before.push(issue@));
            assert(issues.deep_view()[i as int] == issues@[i as int]@);
        }
        i = i + 1;
    }
    proof {
        assert(issues.deep_view().take(i as int) =~= issues.deep_view());
    }
    simplified
}

/// The result of a search as it was reported, with its issues simplified and the token of
/// the next page under `next_page_token`.
pub open spec fn simplified_search(result: JsonView) -> JsonView {
    result.with_some(
        "issues"@,
        match result.member("issues"@) {
            Some(JsonView::Array(issues)) => Some(JsonView::Array(simplified_issues(issues))),
            _ => None,
        },
    ).without("nextPageToken"@).without("next_page_token"@).with_some(
        "next_page_token"@,
        result.member("nextPageToken"@),
    )
}

/// The result of a search as it was reported, with its issues simplified and the token of
/// the next page under `next_page_token`.
pub fn simplify_search(result: Json) -> (simplified: Json)
    ensures
        simplified@ == simplified_search(result@),
{
    let issues = match result.get("issues") {
        Some(issues) => match issues.as_array() {
            Some(issues) => Some(Json::array(simplify_issues(issues))),
            None => None,
        },
        None => None,
    };
    let mut simplified = result;
    proof {
        reveal_strlit("issues");
        reveal_strlit("nextPageToken");
        assert("issues"@.len() != "nextPageToken"@.len());
    }
    simplified.set_optional("issues", issues);
    let token = simplified.take("nextPageToken");
    let _replaced = simplified.take("next_page_token");
    simplified.set_optional("next_page_token", token);
    simplified
}

/// An object with what it has under `from` under `to` too; null where it has nothing. What
/// is no object becomes one with that null alone.
pub open spec fn with_alias(value: JsonView, from: Seq<char>, to: Seq<char>) -> JsonView {
    match value {
        JsonView::Object(_) => value.with(to, value.member_or_null(from)),
        _ => json::singleton(to, JsonView::Null),
    }
}

fn add_alias(value: Json, from: &str, to: &str) -> (aliased: Json)
    ensures
        aliased@ == with_alias(value@, from@, to@),
{
    if !value.is_object() {
        return Json::single(to, Json::Null);
    }
    let alias = value.copy_or_null(from);
    let mut aliased = value;
    aliased.set(to, alias);
    aliased
}

/// The text of a comment; nothing where it has no body.
pub open spec fn comment_text(comment: JsonView) -> Seq<char> {
    text::trimmed(formatting::adf_text(comment.member_or_null("body"@)))
}

/// A comment as it was reported, with its body as plain text and its author's name under
/// `display_name`, null where it has none. What is no object stays as it is.
pub open spec fn simplified_comment(comment: JsonView) -> JsonView {
    comment.with("body"@, JsonView::Text(comment_text(comment))).with(
        "author"@,
        with_alias(comment.member_or_null("author"@), "displayName"@, "display_name"@),
    )
}

/// A comment as it was reported, with its body as plain text and its author's name under
/// `display_name`, null where it has none. What is no object stays as it is.
pub fn simplify_comment(comment: Json) -> (simplified: Json)
    ensures
        simplified@ == simplified_comment(comment@),
{
    let body = extract_adf_text(&comment.copy_or_null("body"));
    let author = add_alias(comment.copy_or_null("author"), "displayName", "display_name");
    let mut simplified = comment;
    simplified.set("body", Json::Text(body));
    simplified.set("author", author);
    simplified
}

/// A transition as it was reported; its fields, and the name of the status that it leads
/// to, are null where they are missing. What is no object stays as it is.
pub open spec fn simplified_transition(transition: JsonView) -> JsonView {
    transition.with("fields"@, transition.member_or_null("fields"@)).with(
        "to"@,
        with_alias(transition.member_or_null("to"@), "name"@, "name"@),
    )
}

/// A transition as it was reported; its fields, and the name of the status that it leads
/// to, are null where they are missing. What is no object stays as it is.
pub fn simplify_transition(transition: Json) -> (simplified: Json)
    ensures
        simplified@ == simplified_transition(transition@),
{
    let fields = transition.copy_or_null("fields");
    let to = add_alias(transition.copy_or_null("to"), "name", "name");
    let mut simplified = transition;
    simplified.set("fields", fields);
    simplified.set("to", to);
    simplified
}

/// A listing of transitions as it was reported, each transition simplified; it lists none
/// where it has no list.
pub open spec fn simplified_transitions(listing: JsonView) -> JsonView {
    listing.with(
        "transitions"@,
        JsonView::Array(
            match listing.member("transitions"@) {
                Some(JsonView::Array(transitions)) => transitions.map_values(
                    |transition: JsonView| simplified_transition(transition),
                ),
                _ => Seq::empty(),
            },
        ),
    )
}

/// A listing of transitions as it was reported, each transition simplified; it lists none
/// where it has no list.
pub fn simplify_transitions(listing: Json) -> (simplified: Json)
    ensures
        simplified@ == simplified_transitions(listing@),
{
    let mut items: Vec<Json> = Vec::new();
    let listed = match listing.get("transitions") {
        Some(transitions) => transitions.as_array(),
        None => None,
    };
    if let Some(transitions) = listed {
        let mut i: usize = 0;
        while i < transitions.len()
            invariant
                i <= transitions.len(),
                items.deep_view() =~= transitions.deep_view().take(i as int).map_values(
                    |transition: JsonView| simplified_transition(transition),
                ),
            decreases transitions.len() - i,
        {
            let item = simplify_transition(transitions[i].clone());
            let ghost before = items.deep_view();
            items.push(item);
            proof {
                assert(items.deep_view() =~= before.push(item@));
                assert(transitions.deep_view()[i as int] == transitions@[i as int]@);
            }
            i = i + 1;
        }
        proof {
            assert(transitions.deep_view().take(i as int) =~= transitions.deep_view());
        }
    } else {
        proof {
            assert(items.deep_view() =~= Seq::empty());
        }
    }
    let mut simplified = listing;
    simplified.set("transitions", Json::array(items));
    simplified
}

/// What a search gives back under `next_page_token` is what was reported under
/// `nextPageToken`, and nothing where nothing was.
pub proof fn law_next_page_token_is_kept(result: JsonView)
    ensures
        simplified_search(result).member("next_page_token"@) == result.member("nextPageToken"@),
{
}

/// A comment without a body has the empty text, and one without an author's name has null
/// under `display_name`.
pub proof fn law_missing_comment_parts_are_blank(comment: JsonView)
    requires
        comment is Object,
    ensures
        comment.member("body"@) is None ==> simplified_comment(comment).member("body"@) == Some(
            JsonView::Text(Seq::empty()),
        ),
        comment.member_or_null("author"@).member("displayName"@) is None ==> (simplified_comment(
            comment,
        ).member("author"@) matches Some(author) && author.member("display_name"@) == Some(
            JsonView::Null,
        )),
{
    reveal_strlit("body");
    reveal_strlit("author");
    assert("body"@.len() != "author"@.len());
    if comment.member("body"@) is None {
        let nothing = formatting::adf_text(JsonView::Null);
        assert(nothing == Seq::<char>::empty());
        assert(text::trim_start(nothing, |c: char| text::is_whitespace(c)) == nothing);
        assert(comment_text(comment) =~= Seq::<char>::empty());
    }
}

} // verus!
