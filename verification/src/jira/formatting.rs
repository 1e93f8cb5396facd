//! Checks of arguments, and texts in the forms that Jira takes and gives.

use vstd::prelude::*;
use vstd::string::StringExecFns;

use crate::atlassian::error;
use crate::atlassian::error::{AtlassianError, ErrorView};
use crate::jira::config::{JiraConfig, JiraDeployment};
use crate::json::{Json, JsonView};
use crate::json_codec::parse_json;
use crate::text::{
    concat, concat3, contains_char, join, prefix_before, replace_char, same_text, split, trim,
};
use crate::{json, json_codec, lists, outcome, text};

verus! {

/// The texts in a document of the Atlassian Document Format, one after the other: of an
/// object its own text, where it is a text node, and then those of its content.
pub open spec fn adf_text(value: JsonView) -> Seq<char>
    decreases value,
{
    match value {
        JsonView::Object(map) => {
            let own = if value.member("type"@) == Some(JsonView::Text("text"@)) {
                match value.member("text"@) {
                    Some(JsonView::Text(text)) => text,
                    _ => Seq::empty(),
                }
            } else {
                Seq::empty()
            };
            if map.contains_key("content"@) {
                own + adf_text(map["content"@])
            } else {
                own
            }
        },
        JsonView::Array(items) => adf_texts(items),
        JsonView::Text(text) => text,
        _ => Seq::empty(),
    }
}

/// The texts in a list of documents, one after the other.
pub open spec fn adf_texts(items: Seq<JsonView>) -> Seq<char>
    decreases items,
{
    if items.len() == 0 {
        Seq::empty()
    } else {
        adf_texts(items.drop_last()) + adf_text(items.last())
    }
}

/// Appends the texts in `value`.
pub fn collect_adf_text(value: &Json, collected: &mut String)
    ensures
        final(collected)@ == old(collected)@ + adf_text(value@),
    decreases value@,
{
    match value {
        Json::Object(_) => {
            let ghost own = if value@.member("type"@) == Some(JsonView::Text("text"@)) {
                match value@.member("text"@) {
                    Some(JsonView::Text(text)) => text,
                    _ => Seq::empty(),
                }
            } else {
                Seq::empty()
            };
            if member_is_text(value, "type", "text") {
                if let Some(inner) = value.get("text") {
                    if let Some(inner) = inner.as_str() {
                        collected.append(inner);
                    }
                }
            }
            assert(collected@ =~= old(collected)@ + own);
            if let Some(content) = value.get("content") {
                proof {
                    json::lemma_object_finite(*value);
                    assert(decreases_to!(value@ => value@->Object_0));
                    assert(decreases_to!(value@->Object_0 => value@->Object_0["content"@]));
                }
                collect_adf_text(content, collected);
            }
        },
        Json::Array(items) => {
            proof {
                json::lemma_array_view(*items);
            }
            let ghost views = items.deep_view();
            let mut i: usize = 0;
            while i < items.len()
                invariant
                    i <= items.len(),
                    views == items.deep_view(),
                    value@ == JsonView::Array(views),
                    collected@ == old(collected)@ + adf_texts(views.take(i as int)),
                decreases items.len() - i,
            {
                proof {
                    assert(decreases_to!(value@ => value@->Array_0));
                    assert(decreases_to!(views => views[i as int]));
                    assert(views.take(i + 1).drop_last() =~= views.take(i as int));
                }
                collect_adf_text(&items[i], collected);
                i = i + 1;
            }
            assert(views.take(i as int) =~= views);
        },
        Json::Text(inner) => {
            collected.append(inner.as_str());
        },
        _ => {},
    }
}

/// Tells whether the member under `key` is this text.
pub(crate) fn member_is_text(value: &Json, key: &str, expected: &str) -> (yes: bool)
    ensures
        yes == (value@.member(key@) == Some(JsonView::Text(expected@))),
{
    match value.get(key) {
        Some(found) => match found.as_str() {
            Some(found) => same_text(found, expected),
            None => false,
        },
        None => false,
    }
}

/// The text of a document of the Atlassian Document Format, without the white space
/// around it.
pub fn extract_adf_text(value: &Json) -> (text: String)
    ensures
        text@ == text::trimmed(adf_text(value@)),
{
    let mut collected = String::new();
    collect_adf_text(value, &mut collected);
    trim(collected.as_str())
}

/// A document of the Atlassian Document Format with one paragraph of one text.
pub open spec fn adf_document(text: Seq<char>) -> JsonView {
    let node = JsonView::empty_object().with("type"@, JsonView::Text("text"@)).with(
        "text"@,
        JsonView::Text(text),
    );
    let paragraph = JsonView::empty_object().with("type"@, JsonView::Text("paragraph"@)).with(
        "content"@,
        JsonView::Array(seq![node]),
    );
    JsonView::empty_object().with("version"@, JsonView::Number("1"@)).with(
        "type"@,
        JsonView::Text("doc"@),
    ).with("content"@, JsonView::Array(seq![paragraph]))
}

/// A document of the Atlassian Document Format with one paragraph of one text.
pub fn cloud_adf_body(text: &str) -> (body: Json)
    ensures
        body@ == adf_document(text@),
{
    let mut node = Json::new_object();
    node.set("type", Json::text("text"));
    node.set("text", Json::text(text));
    let mut paragraph = Json::new_object();
    paragraph.set("type", Json::text("paragraph"));
    paragraph.set("content", Json::array_of_one(node));
    let mut body = Json::new_object();
    body.set("version", Json::Number("1".to_owned()));
    body.set("type", Json::text("doc"));
    body.set("content", Json::array_of_one(paragraph));
    body
}

/// The body of a comment: a document for Cloud, plain text for Server and Data Center.
pub open spec fn comment_body(deployment: JiraDeployment, text: Seq<char>) -> JsonView {
    match deployment {
        JiraDeployment::Cloud => adf_document(text),
        JiraDeployment::ServerDataCenter => JsonView::Text(text),
    }
}

/// The body of a comment: a document for Cloud, plain text for Server and Data Center.
pub fn comment_body_for_deployment(deployment: JiraDeployment, text: &str) -> (body: Json)
    ensures
        body@ == comment_body(deployment, text@),
{
    match deployment {
        JiraDeployment::Cloud => cloud_adf_body(text),
        JiraDeployment::ServerDataCenter => Json::text(text),
    }
}

/// What a comment's body reads back as is the text that it was made of, without the
/// white space around it, on either kind of service.
pub proof fn law_comment_body_reads_back(deployment: JiraDeployment, text: Seq<char>)
    ensures
        text::trimmed(adf_text(comment_body(deployment, text))) == text::trimmed(text),
{
    reveal_strlit("type");
    reveal_strlit("text");
    reveal_strlit("content");
    reveal_strlit("paragraph");
    reveal_strlit("doc");
    reveal_strlit("version");
    assert("type"@[1] != "text"@[1]);
    assert("version"@[0] != "content"@[0]);
    let node = JsonView::empty_object().with("type"@, JsonView::Text("text"@)).with(
        "text"@,
        JsonView::Text(text),
    );
    assert(node.member("type"@) == Some(JsonView::Text("text"@)));
    assert(node.member("text"@) == Some(JsonView::Text(text)));
    assert(node.member("content"@) is None);
    assert(adf_text(node) == text);
    let nodes = seq![node];
    assert(nodes.drop_last() =~= Seq::<JsonView>::empty());
    assert(adf_texts(nodes.drop_last()) == Seq::<char>::empty());
    assert(adf_texts(nodes) =~= text);
    let paragraph = JsonView::empty_object().with("type"@, JsonView::Text("paragraph"@)).with(
        "content"@,
        JsonView::Array(nodes),
    );
    assert(paragraph.member("type"@) == Some(JsonView::Text("paragraph"@)));
    assert(paragraph.member("content"@) == Some(JsonView::Array(nodes)));
    assert(adf_text(JsonView::Array(nodes)) == text);
    assert(adf_text(paragraph) =~= text);
    let paragraphs = seq![paragraph];
    assert(paragraphs.drop_last() =~= Seq::<JsonView>::empty());
    assert(adf_texts(paragraphs.drop_last()) == Seq::<char>::empty());
    assert(adf_texts(paragraphs) =~= text);
    let document = adf_document(text);
    assert(document.member("type"@) == Some(JsonView::Text("doc"@)));
    assert(document.member("content"@) == Some(JsonView::Array(paragraphs)));
    assert(adf_text(JsonView::Array(paragraphs)) == text);
    assert(adf_text(document) =~= text);
}

/// The refusal of what is no JSON object.
pub open spec fn no_object(field_name: Seq<char>) -> ErrorView {
    error::invalid_input(field_name + " must be a JSON object"@)
}

/// The object that a parsed text holds.
pub open spec fn parsed_object(parsed: Option<JsonView>, field_name: Seq<char>) -> Result<
    JsonView,
    ErrorView,
> {
    match parsed {
        Some(JsonView::Object(map)) => Ok(JsonView::Object(map)),
        _ => Err(no_object(field_name)),
    }
}

/// The object that an argument holds, as itself or as JSON text.
pub open spec fn object_argument(value: JsonView, field_name: Seq<char>) -> Result<
    JsonView,
    ErrorView,
> {
    match value {
        JsonView::Object(_) => Ok(value),
        JsonView::Text(raw) => parsed_object(json_codec::parsed_json(raw), field_name),
        _ => Err(no_object(field_name)),
    }
}

/// `object_argument`, where there is an argument.
pub open spec fn optional_object_argument(
    value: Option<JsonView>,
    field_name: Seq<char>,
) -> Result<Option<JsonView>, ErrorView> {
    match value {
        None => Ok(None),
        Some(value) => match object_argument(value, field_name) {
            Ok(object) => Ok(Some(object)),
            Err(error) => Err(error),
        },
    }
}

/// The object that a parsed text holds; what is no object is refused.
pub fn object_of_parsed(parsed: Option<Json>, field_name: &str) -> (object: Result<
    Json,
    AtlassianError,
>)
    ensures
        outcome::of(object) == parsed_object(parsed.deep_view(), field_name@),
{
    match parsed {
        Some(value) => {
            if value.is_object() {
                return Ok(value);
            }
        },
        None => {},
    }
    Err(AtlassianError::invalid_input(concat(field_name, " must be a JSON object")))
}

/// The object that an argument holds, as itself or as JSON text.
pub fn parse_required_object(value: Json, field_name: &str) -> (object: Result<
    Json,
    AtlassianError,
>)
    ensures
        outcome::of(object) == object_argument(value@, field_name@),
{
    match value {
        Json::Object(_) => Ok(value),
        Json::Text(raw) => object_of_parsed(parse_json(raw.as_str()), field_name),
        _ => Err(AtlassianError::invalid_input(concat(field_name, " must be a JSON object"))),
    }
}

/// `parse_required_object`, where there is an argument.
pub fn parse_optional_object(value: Option<Json>, field_name: &str) -> (object: Result<
    Option<Json>,
    AtlassianError,
>)
    ensures
        outcome::of(object) == optional_object_argument(value.deep_view(), field_name@),
{
    match value {
        None => Ok(None),
        Some(value) => Ok(Some(parse_required_object(value, field_name)?)),
    }
}

/// An accepted object argument is an object.
pub proof fn law_object_argument_is_object(value: JsonView, field_name: Seq<char>)
    ensures
        object_argument(value, field_name) matches Ok(object) ==> object is Object,
{
}

/// The texts without the white space around them, but for those that hold nothing else.
pub open spec fn non_blank(texts: Seq<Seq<char>>) -> Seq<Seq<char>> {
    texts.map_values(|text: Seq<char>| text::trimmed(text)).filter(
        |text: Seq<char>| text.len() > 0,
    )
}

/// A text with more than white space in it.
pub open spec fn is_non_blank_text(value: JsonView) -> bool {
    value matches JsonView::Text(text) && text::trimmed(text).len() > 0
}

/// The refusal of what is no list of texts.
pub open spec fn no_string_list(field_name: Seq<char>) -> ErrorView {
    error::invalid_input(field_name + " must be a string or array of strings"@)
}

/// The texts that an argument lists: the items of an array, all of which must be texts
/// with more than white space in them, or what stands between the commas of a text.
pub open spec fn string_list_argument(value: JsonView, field_name: Seq<char>) -> Result<
    Seq<Seq<char>>,
    ErrorView,
> {
    match value {
        JsonView::Array(items) => if forall|i: int|
            0 <= i < items.len() ==> is_non_blank_text(#[trigger] items[i]) {
            Ok(items.map_values(|item: JsonView| text::trimmed(item->Text_0)))
        } else {
            Err(no_string_list(field_name))
        },
        JsonView::Text(text) => Ok(non_blank(text::split_at(text, ','))),
        _ => Err(no_string_list(field_name)),
    }
}

/// `string_list_argument`, where there is an argument.
pub open spec fn optional_string_list_argument(
    value: Option<JsonView>,
    field_name: Seq<char>,
) -> Result<Option<Seq<Seq<char>>>, ErrorView> {
    match value {
        None => Ok(None),
        Some(value) => match string_list_argument(value, field_name) {
            Ok(texts) => Ok(Some(texts)),
            Err(error) => Err(error),
        },
    }
}

/// The texts without the white space around them, but for those that hold nothing else.
fn keep_non_blank(pieces: &Vec<String>) -> (kept: Vec<String>)
    ensures
        kept.deep_view() == non_blank(pieces.deep_view()),
{
    let mut kept: Vec<String> = Vec::new();
    let ghost inner = pieces.deep_view().map_values(|text: Seq<char>| text::trimmed(text));
    let ghost full = |text: Seq<char>| text.len() > 0;
    proof {
        lists::lemma_filter_none(inner, full);
        assert(kept.deep_view() =~= Seq::empty());
    }
    let mut i: usize = 0;
    while i < pieces.len()
        invariant
            i <= pieces.len(),
            inner == pieces.deep_view().map_values(|text: Seq<char>| text::trimmed(text)),
            full == (|text: Seq<char>| text.len() > 0),
            kept.deep_view() == inner.take(i as int).filter(full),
        decreases pieces.len() - i,
    {
        let piece = trim(pieces[i].as_str());
        proof {
            lists::lemma_filter_next(inner, full, i as int);
            assert(inner[i as int] == piece@);
        }
        if !piece.as_str().is_empty() {
            let ghost before = kept.deep_view();
            kept.push(piece);
            proof {
                assert(kept.deep_view() =~= before.push(piece@));
            }
        }
        i = i + 1;
    }
    proof {
        assert(inner.take(i as int) =~= inner);
    }
    kept
}

/// The texts of an array without the white space around them; none where an item is no
/// text, or holds nothing else.
fn non_blank_items(items: &Vec<Json>) -> (texts: Option<Vec<String>>)
    ensures
        texts is Some == (forall|i: int|
            0 <= i < items.deep_view().len() ==> is_non_blank_text(
                #[trigger] items.deep_view()[i],
            )),
        texts matches Some(texts) ==> texts.deep_view() == items.deep_view().map_values(
            |item: JsonView| text::trimmed(item->Text_0),
        ),
{
    let mut texts: Vec<String> = Vec::new();
    let mut i: usize = 0;
    while i < items.len()
        invariant
            i <= items.len(),
            forall|k: int| 0 <= k < i ==> is_non_blank_text(#[trigger] items.deep_view()[k]),
            texts.deep_view() =~= items.deep_view().take(i as int).map_values(
                |item: JsonView| text::trimmed(item->Text_0),
            ),
        decreases items.len() - i,
    {
        proof {
            assert(items.deep_view()[i as int] == items@[i as int]@);
        }
        let inner = match items[i].as_str() {
            Some(inner) => trim(inner),
            None => {
                return None;
            },
        };
        if inner.as_str().is_empty() {
            return None;
        }
        let ghost before = texts.deep_view();
        texts.push(inner);
        proof {
            assert(texts.deep_view() =~= before.push(inner@));
        }
        i = i + 1;
    }
    proof {
        assert(items.deep_view().take(i as int) =~= items.deep_view());
    }
    Some(texts)
}

/// The texts that an argument lists: the items of an array, all of which must be texts
/// with more than white space in them, or what stands between the commas of a text.
pub fn parse_required_string_list(value: Json, field_name: &str) -> (texts: Result<
    Vec<String>,
    AtlassianError,
>)
    ensures
        outcome::of(texts) == string_list_argument(value@, field_name@),
{
    match value {
        Json::Array(items) => {
            proof {
                json::lemma_array_view(items);
            }
            match non_blank_items(&items) {
                Some(texts) => Ok(texts),
                None => Err(
                    AtlassianError::invalid_input(
                        concat(field_name, " must be a string or array of strings"),
                    ),
                ),
            }
        },
        Json::Text(text) => Ok(keep_non_blank(&split(text.as_str(), ','))),
        _ => Err(
            AtlassianError::invalid_input(
                concat(field_name, " must be a string or array of strings"),
            ),
        ),
    }
}

/// `parse_required_string_list`, where there is an argument.
pub fn parse_optional_string_list(value: Option<Json>, field_name: &str) -> (texts: Result<
    Option<Vec<String>>,
    AtlassianError,
>)
    ensures
        outcome::of(texts) == optional_string_list_argument(value.deep_view(), field_name@),
{
    match value {
        None => Ok(None),
        Some(value) => Ok(Some(parse_required_string_list(value, field_name)?)),
    }
}

/// The refusal of what is no array.
pub open spec fn no_array(field_name: Seq<char>) -> ErrorView {
    error::invalid_input(field_name + " must be a JSON array"@)
}

/// The refusal of an array with an item that is no object.
pub open spec fn not_only_objects(field_name: Seq<char>) -> ErrorView {
    error::invalid_input(field_name + " must contain only JSON objects"@)
}

/// The objects of an array.
pub open spec fn object_items(items: Seq<JsonView>, field_name: Seq<char>) -> Result<
    Seq<JsonView>,
    ErrorView,
> {
    if forall|i: int| 0 <= i < items.len() ==> (#[trigger] items[i]) is Object {
        Ok(items)
    } else {
        Err(not_only_objects(field_name))
    }
}

/// The objects that a parsed text holds.
pub open spec fn parsed_object_list(parsed: Option<JsonView>, field_name: Seq<char>) -> Result<
    Seq<JsonView>,
    ErrorView,
> {
    match parsed {
        Some(JsonView::Array(items)) => object_items(items, field_name),
        _ => Err(no_array(field_name)),
    }
}

/// The objects that an argument lists, as an array or as JSON text.
pub open spec fn object_list_argument(value: JsonView, field_name: Seq<char>) -> Result<
    Seq<JsonView>,
    ErrorView,
> {
    match value {
        JsonView::Array(items) => object_items(items, field_name),
        JsonView::Text(raw) => parsed_object_list(json_codec::parsed_json(raw), field_name),
        _ => Err(no_array(field_name)),
    }
}

fn only_objects(items: Vec<Json>, field_name: &str) -> (objects: Result<Vec<Json>, AtlassianError>)
    ensures
        outcome::of(objects) == object_items(items.deep_view(), field_name@),
{
    let mut i: usize = 0;
    while i < items.len()
        invariant
            i <= items.len(),
            forall|k: int| 0 <= k < i ==> (#[trigger] items.deep_view()[k]) is Object,
        decreases items.len() - i,
    {
        proof {
            assert(items.deep_view()[i as int] == items@[i as int]@);
        }
        if !items[i].is_object() {
            return Err(
                AtlassianError::invalid_input(
                    concat(field_name, " must contain only JSON objects"),
                ),
            );
        }
        i = i + 1;
    }
    Ok(items)
}

/// The objects that a parsed text holds; what is no array of objects is refused.
pub fn object_list_of_parsed(parsed: Option<Json>, field_name: &str) -> (objects: Result<
    Vec<Json>,
    AtlassianError,
>)
    ensures
        outcome::of(objects) == parsed_object_list(parsed.deep_view(), field_name@),
{
    match parsed {
        Some(Json::Array(items)) => {
            proof {
                json::lemma_array_view(items);
            }
            only_objects(items, field_name)
        },
        _ => Err(AtlassianError::invalid_input(concat(field_name, " must be a JSON array"))),
    }
}

/// The objects that an argument lists, as an array or as JSON text.
pub fn parse_required_object_list(value: Json, field_name: &str) -> (objects: Result<
    Vec<Json>,
    AtlassianError,
>)
    ensures
        outcome::of(objects) == object_list_argument(value@, field_name@),
{
    match value {
        Json::Array(items) => {
            proof {
                json::lemma_array_view(items);
            }
            only_objects(items, field_name)
        },
        Json::Text(raw) => object_list_of_parsed(parse_json(raw.as_str()), field_name),
        _ => Err(AtlassianError::invalid_input(concat(field_name, " must be a JSON array"))),
    }
}

/// An object with the members of another put in the place of its own.
pub open spec fn merged_objects(
    base: JsonView,
    additional: Option<JsonView>,
    field_name: Seq<char>,
) -> Result<JsonView, ErrorView> {
    match (base, additional) {
        (_, None) => Ok(base),
        (JsonView::Object(own), Some(JsonView::Object(more))) => Ok(
            JsonView::Object(own.union_prefer_right(more)),
        ),
        _ => Err(no_object(field_name)),
    }
}

/// An object with the members of another put in the place of its own.
pub fn merge_optional_objects(
    base: Json,
    additional: Option<Json>,
    field_name: &str,
) -> (merged: Result<Json, AtlassianError>)
    ensures
        outcome::of(merged) == merged_objects(base@, additional.deep_view(), field_name@),
{
    match additional {
        None => Ok(base),
        Some(additional) => match base.merge(additional) {
            Some(merged) => Ok(merged),
            None => Err(AtlassianError::invalid_input(concat(field_name, " must be a JSON object"))),
        },
    }
}

/// The project of an issue: what stands before the first hyphen of its key.
pub fn issue_project_key(issue_key: &str) -> (project: Option<&str>)
    ensures
        project.deep_view() == text::before_first(issue_key@, '-'),
{
    prefix_before(issue_key, '-')
}

/// Whether an issue may be touched under a project filter: always where the filter is
/// empty, else where it names the issue's project.
pub open spec fn issue_allowed(issue_key: Seq<char>, filter: Seq<Seq<char>>) -> Result<
    (),
    ErrorView,
> {
    if filter.len() == 0 {
        Ok(())
    } else {
        match text::before_first(issue_key, '-') {
            None => Err(error::invalid_input("issue_key must include a project key prefix"@)),
            Some(project) => if filter.contains(project) {
                Ok(())
            } else {
                Err(
                    error::invalid_input(
                        "issue `"@ + issue_key
                            + "` is outside the configured Jira project filter"@,
                    ),
                )
            },
        }
    }
}

/// Refuses an issue outside the configured project filter.
pub fn ensure_issue_allowed(issue_key: &str, config: &JiraConfig) -> (allowed: Result<
    (),
    AtlassianError,
>)
    ensures
        outcome::of(allowed) == issue_allowed(issue_key@, config.projects_filter@),
{
    if config.projects_filter.is_empty() {
        return Ok(());
    }
    match issue_project_key(issue_key) {
        None => Err(
            AtlassianError::invalid_input(
                "issue_key must include a project key prefix".to_owned(),
            ),
        ),
        Some(project) => {
            if config.projects_filter.contains(project) {
                Ok(())
            } else {
                Err(
                    AtlassianError::invalid_input(
                        concat3(
                            "issue `",
                            issue_key,
                            "` is outside the configured Jira project filter",
                        ),
                    ),
                )
            }
        },
    }
}

/// The text as it stands between the quotes of a JQL string.
pub open spec fn jql_escaped(value: Seq<char>) -> Seq<char> {
    text::replaced(text::replaced(value, '\\', "\\\\"@), '"', "\\\""@)
}

/// The text as it stands between the quotes of a JQL string.
pub fn escape_jql_string(value: &str) -> (escaped: String)
    ensures
        escaped@ == jql_escaped(value@),
{
    replace_char(replace_char(value, '\\', "\\\\").as_str(), '"', "\\\"")
}

/// A text as a JQL string.
pub open spec fn jql_quoted(value: Seq<char>) -> Seq<char> {
    "\""@ + jql_escaped(value) + "\""@
}

/// The JQL clause that holds of the issues of these projects.
pub open spec fn project_clause(projects: Seq<Seq<char>>) -> Seq<char> {
    if projects.len() == 1 {
        "project = "@ + jql_quoted(projects[0])
    } else {
        "project in ("@ + text::joined(
            projects.map_values(|project: Seq<char>| jql_quoted(project)),
            ", "@,
        ) + ")"@
    }
}

/// A JQL query, narrowed to the issues of these projects where there are any.
pub open spec fn narrowed_jql(jql: Seq<char>, projects: Seq<Seq<char>>) -> Seq<char> {
    if projects.len() == 0 {
        jql
    } else if text::trimmed(jql).len() == 0 {
        project_clause(projects)
    } else {
        "("@ + project_clause(projects) + ") AND ("@ + jql + ")"@
    }
}

fn quote_jql_string(value: &str) -> (quoted: String)
    ensures
        quoted@ == jql_quoted(value@),
{
    concat3("\"", escape_jql_string(value).as_str(), "\"")
}

/// A JQL query, narrowed to the issues of these projects where there are any.
pub fn inject_project_filter(jql: &str, projects: &[String]) -> (narrowed: String)
    ensures
        narrowed@ == narrowed_jql(jql@, projects.deep_view()),
{
    if projects.len() == 0 {
        return jql.to_owned();
    }
    let clause = if projects.len() == 1 {
        proof {
            assert(projects.deep_view()[0] == projects@[0]@);
        }
        concat("project = ", quote_jql_string(projects[0].as_str()).as_str())
    } else {
        let mut values: Vec<String> = Vec::new();
        let mut i: usize = 0;
        while i < projects.len()
            invariant
                i <= projects.len(),
                values.deep_view() =~= projects.deep_view().take(i as int).map_values(
                    |project: Seq<char>| jql_quoted(project),
                ),
            decreases projects.len() - i,
        {
            let quoted = quote_jql_string(projects[i].as_str());
            let ghost before = values.deep_view();
            values.push(quoted);
            proof {
                assert(values.deep_view() =~= before.push(quoted@));
                assert(projects.deep_view()[i as int] == projects@[i as int]@);
            }
            i = i + 1;
        }
        proof {
            assert(projects.deep_view().take(i as int) =~= projects.deep_view());
        }
        concat3("project in (", join(&values, ", ").as_str(), ")")
    };
    if trim(jql).as_str().is_empty() {
        clause
    } else {
        let left = concat3("(", clause.as_str(), ") AND (");
        concat3(left.as_str(), jql, ")")
    }
}

/// Whether a text, without the white space around it, may stand as one segment of a
/// path.
pub open spec fn is_path_segment(segment: Seq<char>) -> bool {
    segment.len() > 0 && !segment.contains('/') && !segment.contains('?') && !segment.contains('#')
}

/// The text as one segment of a path.
pub open spec fn path_segment(segment: Seq<char>, name: Seq<char>) -> Result<
    Seq<char>,
    ErrorView,
> {
    if is_path_segment(text::trimmed(segment)) {
        Ok(text::trimmed(segment))
    } else {
        Err(error::invalid_input(name + " must be a non-empty path segment"@))
    }
}

/// The text as one segment of a path; what would end the segment is refused.
pub fn safe_path_segment(segment: &str, name: &str) -> (safe: Result<String, AtlassianError>)
    ensures
        outcome::of(safe) == path_segment(segment@, name@),
{
    let segment = trim(segment);
    if segment.as_str().is_empty() || contains_char(segment.as_str(), '/') || contains_char(
        segment.as_str(),
        '?',
    ) || contains_char(segment.as_str(), '#') {
        Err(AtlassianError::invalid_input(concat(name, " must be a non-empty path segment")))
    } else {
        Ok(segment)
    }
}

/// A path segment that was accepted is a segment as it stands, and is accepted again
/// as the same.
pub proof fn law_path_segment_is_safe(segment: Seq<char>, name: Seq<char>)
    ensures
        path_segment(segment, name) matches Ok(safe) ==> {
            &&& is_path_segment(safe)
            &&& path_segment(safe, name) == Ok::<Seq<char>, ErrorView>(safe)
        },
{
    text::law_trimmed_stays(segment);
}

/// The texts of an accepted list have something in them and no white space around them.
pub proof fn law_string_list_is_non_blank(value: JsonView, field_name: Seq<char>)
    ensures
        string_list_argument(value, field_name) matches Ok(texts) ==> forall|i: int|
            0 <= i < texts.len() ==> (#[trigger] texts[i]).len() > 0 && text::trimmed(texts[i])
                == texts[i],
{
    match value {
        JsonView::Array(items) => {
            if string_list_argument(value, field_name) is Ok {
                let texts = string_list_argument(value, field_name)->Ok_0;
                assert forall|i: int| 0 <= i < texts.len() implies (#[trigger] texts[i]).len() > 0
                    && text::trimmed(texts[i]) == texts[i] by {
                    assert(is_non_blank_text(items[i]));
                    text::law_trimmed_stays(items[i]->Text_0);
                }
            }
        },
        JsonView::Text(text) => {
            let pieces = text::split_at(text, ',');
            let inner = pieces.map_values(|text: Seq<char>| text::trimmed(text));
            let full = |text: Seq<char>| text.len() > 0;
            let texts = inner.filter(full);
            assert forall|i: int| 0 <= i < texts.len() implies (#[trigger] texts[i]).len() > 0
                && text::trimmed(texts[i]) == texts[i] by {
                inner.lemma_filter_pred(full, i);
                inner.lemma_filter_contains_rev(full, texts[i]);
                let k = choose|k: int| 0 <= k < inner.len() && inner[k] == texts[i];
                text::law_trimmed_stays(pieces[k]);
            }
        },
        _ => {},
    }
}

/// The value of a JQL string, read from what stands between its quotes: a backslash
/// gives the character after it; a quote without one would end the string.
pub open spec fn jql_string_value(inner: Seq<char>) -> Option<Seq<char>>
    decreases inner.len(),
{
    if inner.len() == 0 {
        Some(Seq::empty())
    } else if inner[0] == '\\' {
        if inner.len() < 2 {
            None
        } else {
            match jql_string_value(inner.skip(2)) {
                Some(rest) => Some(seq![inner[1]] + rest),
                None => None,
            }
        }
    } else if inner[0] == '"' {
        None
    } else {
        match jql_string_value(inner.skip(1)) {
            Some(rest) => Some(seq![inner[0]] + rest),
            None => None,
        }
    }
}

/// A text that was escaped for JQL reads as itself: no character of it ends the string.
pub proof fn law_jql_escaped_reads_back(value: Seq<char>)
    ensures
        jql_string_value(jql_escaped(value)) == Some(value),
    decreases value.len(),
{
    reveal_strlit("\\\\");
    reveal_strlit("\\\"");
    if value.len() == 0 {
    } else {
        let first = seq![value[0]];
        let rest = value.skip(1);
        law_jql_escaped_reads_back(rest);
        assert(value =~= first + rest);
        text::lemma_replaced_concat(first, rest, '\\', "\\\\"@);
        assert(first.drop_last() =~= Seq::<char>::empty());
        assert(text::replaced(Seq::<char>::empty(), '\\', "\\\\"@) == Seq::<char>::empty());
        let once = text::replaced(first, '\\', "\\\\"@);
        assert(once =~= (if value[0] == '\\' {
            "\\\\"@
        } else {
            first
        }));
        text::lemma_replaced_concat(once, text::replaced(rest, '\\', "\\\\"@), '"', "\\\""@);
        let twice = text::replaced(once, '"', "\\\""@);
        assert(text::replaced(Seq::<char>::empty(), '"', "\\\""@) == Seq::<char>::empty());
        if value[0] == '\\' {
            assert(once.drop_last() =~= seq!['\\']);
            assert(seq!['\\'].drop_last() =~= Seq::<char>::empty());
            assert(text::replaced(seq!['\\'], '"', "\\\""@) =~= seq!['\\']);
            assert(twice =~= seq!['\\', '\\']);
        } else if value[0] == '"' {
            assert(twice =~= seq!['\\', '"']);
        } else {
            assert(twice =~= first);
        }
        assert(jql_escaped(value) =~= twice + jql_escaped(rest));
        assert(jql_escaped(value).skip(twice.len() as int) =~= jql_escaped(rest));
        assert(seq![value[0]] + rest =~= value);
    }
}

/// Texts that are the same once they are escaped for JQL are the same.
pub proof fn law_jql_escaped_is_injective(left: Seq<char>, right: Seq<char>)
    requires
        jql_escaped(left) == jql_escaped(right),
    ensures
        left == right,
{
    law_jql_escaped_reads_back(left);
    law_jql_escaped_reads_back(right);
}

/// A text that was escaped for JQL is longer by one character for each of its backslashes
/// and quotes.
pub proof fn law_jql_escaped_length(value: Seq<char>)
    ensures
        jql_escaped(value).len() == value.len() + value.filter(|c: char| c == '\\').len()
            + value.filter(|c: char| c == '"').len(),
{
    reveal_strlit("\\\\");
    reveal_strlit("\\\"");
    let once = text::replaced(value, '\\', "\\\\"@);
    text::lemma_replaced_len(value, '\\', "\\\\"@);
    text::lemma_replaced_len(once, '"', "\\\""@);
    text::lemma_replaced_keeps(value, '\\', "\\\\"@, '"');
}

/// A narrowed query holds the query that it was made of, unchanged, unless that is blank
/// and there is a project to put in its place.
pub proof fn law_narrowed_jql_keeps_query(jql: Seq<char>, projects: Seq<Seq<char>>)
    requires
        projects.len() == 0 || text::trimmed(jql).len() > 0,
    ensures
        text::contains_text(narrowed_jql(jql, projects), jql),
{
    let narrowed = narrowed_jql(jql, projects);
    if projects.len() == 0 {
        assert(narrowed.subrange(0, jql.len() as int) =~= jql);
        assert(text::occurs_at(narrowed, jql, 0));
    } else {
        let head = "("@ + project_clause(projects) + ") AND ("@;
        let start = head.len() as int;
        assert(narrowed =~= head + jql + ")"@);
        assert(narrowed.subrange(start, start + jql.len()) =~= jql);
        assert(text::occurs_at(narrowed, jql, start));
    }
}

/// Under a project filter an allowed issue belongs to a project that the filter names.
pub proof fn law_allowed_issue_is_in_filter(issue_key: Seq<char>, filter: Seq<Seq<char>>)
    requires
        filter.len() > 0,
        issue_allowed(issue_key, filter) is Ok,
    ensures
        text::before_first(issue_key, '-') matches Some(project) && filter.contains(project),
{
}

/// The texts in a list are those in its first items, and then those in the others.
proof fn lemma_adf_texts(left: Seq<JsonView>, right: Seq<JsonView>)
    ensures
        adf_texts(left + right) == adf_texts(left) + adf_texts(right),
    decreases right.len(),
{
    if right.len() == 0 {
        assert(left + right =~= left);
        assert(adf_texts(left) + adf_texts(right) =~= adf_texts(left));
    } else {
        assert((left + right).drop_last() =~= left + right.drop_last());
        lemma_adf_texts(left, right.drop_last());
        assert(adf_texts(left + right) =~= adf_texts(left) + adf_texts(right));
    }
}

/// The text of an array is that of its items one after the other; the text of its first
/// items comes first, and that of one item is the item's own.
pub proof fn law_adf_text_follows_the_items(left: Seq<JsonView>, right: Seq<JsonView>)
    ensures
        adf_text(JsonView::Array(left + right)) == adf_text(JsonView::Array(left)) + adf_text(
            JsonView::Array(right),
        ),
        adf_text(JsonView::Array(Seq::empty())) == Seq::<char>::empty(),
        right.len() == 1 ==> adf_text(JsonView::Array(right)) == adf_text(right[0]),
{
    lemma_adf_texts(left, right);
    assert(adf_texts(Seq::empty()) == Seq::<char>::empty());
    if right.len() == 1 {
        assert(right.drop_last() =~= Seq::<JsonView>::empty());
        assert(adf_texts(right.drop_last()) == Seq::<char>::empty());
        assert(adf_texts(right) =~= adf_text(right[0]));
    }
}

/// A value that is neither text, array nor object has no text, nor has an object that is
/// no text node and has no content; a text node's own text comes before that of its
/// content.
pub proof fn law_adf_text_of_one_value(value: JsonView)
    ensures
        value is Null || value is Bool || value is Number ==> adf_text(value)
            == Seq::<char>::empty(),
        value.member("type"@) != Some(JsonView::Text("text"@)) && value.member("content"@) is None
            && value is Object ==> adf_text(value) == Seq::<char>::empty(),
        value.member("type"@) == Some(JsonView::Text("text"@)) ==> (value.member("text"@) matches
            Some(JsonView::Text(own)) ==> adf_text(value) == own + (match value.member(
            "content"@,
        ) {
            Some(content) => adf_text(content),
            None => Seq::empty(),
        })),
{
    if let Some(JsonView::Text(own)) = value.member("text"@) {
        assert(own + Seq::<char>::empty() =~= own);
    }
}

/// A text that parses as an object is as good an argument as the object itself: both are
/// accepted as that object.
pub proof fn law_object_text_is_its_object(
    raw: Seq<char>,
    object: JsonView,
    field_name: Seq<char>,
)
    ensures
        json_codec::parsed_json(raw) == Some(object) && object is Object ==> {
            &&& object_argument(JsonView::Text(raw), field_name) == object_argument(
                object,
                field_name,
            )
            &&& object_argument(object, field_name) == Ok::<JsonView, ErrorView>(object)
        },
{
}

} // verus!
