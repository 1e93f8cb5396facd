//! Checks of a tool's arguments, with the answers that a refusal gets.

use vstd::prelude::*;

use crate::atlassian::error;
use crate::atlassian::error::{AtlassianError, ErrorView};
use crate::jira::formatting;
use crate::jira::formatting::{
    parse_optional_object, parse_optional_string_list, parse_required_object,
    parse_required_object_list, parse_required_string_list,
};
use crate::json::{take_entry, Json, JsonView};
use crate::mcp_errors;
use crate::mcp_errors::{jira_error, ErrorData, FailureView};
use crate::text::{concat, trim};
use crate::{json, outcome, text};

verus! {

/// The outcome of a check, with the error as it is answered.
pub open spec fn answered<T>(checked: Result<T, ErrorView>) -> Result<T, FailureView> {
    match checked {
        Ok(value) => Ok(value),
        Err(error) => Err(mcp_errors::jira_failure(error)),
    }
}

/// The refusal of an argument, as it is answered.
pub open spec fn refused(message: Seq<char>) -> FailureView {
    mcp_errors::jira_failure(error::invalid_input(message))
}

/// The answer to an argument that was refused.
pub(crate) fn refuse(message: String) -> (answer: ErrorData)
    ensures
        answer@ == refused(message@),
{
    jira_error(AtlassianError::invalid_input(message))
}

/// The texts that an argument lists, where there is one.
pub fn parse_optional_string_list_arg(value: Option<Json>, field_name: &str) -> (texts: Result<
    Option<Vec<String>>,
    ErrorData,
>)
    ensures
        outcome::of(texts) == answered(
            formatting::optional_string_list_argument(value.deep_view(), field_name@),
        ),
{
    match parse_optional_string_list(value, field_name) {
        Ok(texts) => Ok(texts),
        Err(error) => Err(jira_error(error)),
    }
}

/// The texts that an argument lists.
pub fn parse_required_string_list_arg(value: Json, field_name: &str) -> (texts: Result<
    Vec<String>,
    ErrorData,
>)
    ensures
        outcome::of(texts) == answered(formatting::string_list_argument(value@, field_name@)),
{
    match parse_required_string_list(value, field_name) {
        Ok(texts) => Ok(texts),
        Err(error) => Err(jira_error(error)),
    }
}

/// The object that an argument holds, where there is one.
pub fn parse_optional_object_arg(value: Option<Json>, field_name: &str) -> (object: Result<
    Option<Json>,
    ErrorData,
>)
    ensures
        outcome::of(object) == answered(
            formatting::optional_object_argument(value.deep_view(), field_name@),
        ),
{
    match parse_optional_object(value, field_name) {
        Ok(object) => Ok(object),
        Err(error) => Err(jira_error(error)),
    }
}

/// The object that an argument holds.
pub fn parse_required_object_arg(value: Json, field_name: &str) -> (object: Result<
    Json,
    ErrorData,
>)
    ensures
        outcome::of(object) == answered(formatting::object_argument(value@, field_name@)),
{
    match parse_required_object(value, field_name) {
        Ok(object) => Ok(object),
        Err(error) => Err(jira_error(error)),
    }
}

/// The objects that an argument lists.
pub fn parse_required_object_list_arg(value: Json, field_name: &str) -> (objects: Result<
    Vec<Json>,
    ErrorData,
>)
    ensures
        outcome::of(objects) == answered(formatting::object_list_argument(value@, field_name@)),
{
    match parse_required_object_list(value, field_name) {
        Ok(objects) => Ok(objects),
        Err(error) => Err(jira_error(error)),
    }
}

/// The text without the white space around it, which must leave something.
pub open spec fn required_text(value: Seq<char>, field_name: Seq<char>) -> Result<
    Seq<char>,
    FailureView,
> {
    if text::trimmed(value).len() == 0 {
        Err(refused(field_name + " must not be empty"@))
    } else {
        Ok(text::trimmed(value))
    }
}

/// The text without the white space around it, where that leaves something.
pub open spec fn optional_text(value: Option<Seq<char>>) -> Option<Seq<char>> {
    match value {
        Some(value) => if text::trimmed(value).len() == 0 {
            None
        } else {
            Some(text::trimmed(value))
        },
        None => None,
    }
}

/// The text without the white space around it, which must leave something.
pub fn required_non_empty_arg(value: String, field_name: &str) -> (inner: Result<
    String,
    ErrorData,
>)
    ensures
        outcome::of(inner) == required_text(value@, field_name@),
{
    let inner = trim(value.as_str());
    if inner.as_str().is_empty() {
        Err(refuse(concat(field_name, " must not be empty")))
    } else {
        Ok(inner)
    }
}

/// The text without the white space around it, where that leaves something.
pub fn optional_non_empty_arg(value: Option<String>) -> (inner: Option<String>)
    ensures
        inner.deep_view() == optional_text(value.deep_view()),
{
    match value {
        Some(value) => {
            let inner = trim(value.as_str());
            if inner.as_str().is_empty() {
                None
            } else {
                Some(inner)
            }
        },
        None => None,
    }
}

/// The number, which must be positive where there is one.
pub open spec fn positive_i64(value: Option<i64>, field_name: Seq<char>) -> Result<
    Option<i64>,
    FailureView,
> {
    match value {
        Some(number) => if number <= 0 {
            Err(refused(field_name + " must be positive"@))
        } else {
            Ok(value)
        },
        None => Ok(None),
    }
}

/// The number, which must be positive where there is one.
pub open spec fn positive_u64(value: Option<u64>, field_name: Seq<char>) -> Result<
    Option<u64>,
    FailureView,
> {
    match value {
        Some(number) => if number == 0 {
            Err(refused(field_name + " must be positive"@))
        } else {
            Ok(value)
        },
        None => Ok(None),
    }
}

/// The number, which must be positive where there is one.
pub fn optional_positive_i64_arg(value: Option<i64>, field_name: &str) -> (checked: Result<
    Option<i64>,
    ErrorData,
>)
    ensures
        outcome::of(checked) == positive_i64(value, field_name@),
{
    match value {
        Some(number) => {
            if number <= 0 {
                Err(refuse(concat(field_name, " must be positive")))
            } else {
                Ok(Some(number))
            }
        },
        None => Ok(None),
    }
}

/// The number, which must be positive where there is one.
pub fn optional_positive_u64_arg(value: Option<u64>, field_name: &str) -> (checked: Result<
    Option<u64>,
    ErrorData,
>)
    ensures
        outcome::of(checked) == positive_u64(value, field_name@),
{
    match value {
        Some(number) => {
            if number == 0 {
                Err(refuse(concat(field_name, " must be positive")))
            } else {
                Ok(Some(number))
            }
        },
        None => Ok(None),
    }
}

/// The members of an object.
pub open spec fn members(value: JsonView) -> Map<Seq<char>, JsonView> {
    value->Object_0
}

/// The members of the object that an argument holds.
pub open spec fn argument_members(value: JsonView, field_name: Seq<char>) -> Result<
    Map<Seq<char>, JsonView>,
    FailureView,
> {
    outcome::and_then(
        answered(formatting::object_argument(value, field_name)),
        |object: JsonView| Ok(members(object)),
    )
}

/// The members of the object that an argument holds.
pub fn value_into_object(value: Json, field_name: &str) -> (entries: Result<
    Vec<(String, Json)>,
    ErrorData,
>)
    ensures
        match entries {
            Ok(entries) => argument_members(value@, field_name@) == Ok::<
                Map<Seq<char>, JsonView>,
                FailureView,
            >(json::entries_view(entries@)),
            Err(error) => argument_members(value@, field_name@) == Err::<
                Map<Seq<char>, JsonView>,
                FailureView,
            >(error@),
        },
{
    match parse_required_object_arg(value, field_name)? {
        Json::Object(entries) => Ok(entries),
        _ => {
            proof {
                formatting::law_object_argument_is_object(value@, field_name@);
            }
            Err(refuse(concat(field_name, " must be a JSON object")))
        },
    }
}

/// The text under a key, which must be there and hold more than white space.
pub open spec fn required_member(
    object: Map<Seq<char>, JsonView>,
    field_name: Seq<char>,
) -> Result<Seq<char>, FailureView> {
    match JsonView::Object(object).member(field_name) {
        Some(JsonView::Text(value)) => required_text(value, field_name),
        Some(_) => Err(refused(field_name + " must be a string"@)),
        None => Err(refused(field_name + " is required"@)),
    }
}

/// The text under a key, where it is there and holds more than white space.
pub open spec fn optional_member(
    object: Map<Seq<char>, JsonView>,
    field_name: Seq<char>,
) -> Result<Option<Seq<char>>, FailureView> {
    match JsonView::Object(object).member(field_name) {
        Some(JsonView::Text(value)) => Ok(optional_text(Some(value))),
        Some(JsonView::Null) | None => Ok(None),
        Some(_) => Err(refused(field_name + " must be a string"@)),
    }
}

/// Takes the text under a key out of an object, where it must be.
pub fn take_required_string_field(object: &mut Vec<(String, Json)>, field_name: &str) -> (taken:
    Result<String, ErrorData>)
    ensures
        outcome::of(taken) == required_member(json::entries_view(old(object)@), field_name@),
        json::entries_view(final(object)@) == json::entries_view(old(object)@).remove(field_name@),
{
    match take_entry(object, field_name) {
        Some(Json::Text(value)) => required_non_empty_arg(value, field_name),
        Some(_) => Err(refuse(concat(field_name, " must be a string"))),
        None => Err(refuse(concat(field_name, " is required"))),
    }
}

/// Takes the text under a key out of an object, where it is there.
pub fn take_optional_string_field(object: &mut Vec<(String, Json)>, field_name: &str) -> (taken:
    Result<Option<String>, ErrorData>)
    ensures
        outcome::of(taken) == optional_member(json::entries_view(old(object)@), field_name@),
        json::entries_view(final(object)@) == json::entries_view(old(object)@).remove(field_name@),
{
    match take_entry(object, field_name) {
        Some(Json::Text(value)) => Ok(optional_non_empty_arg(Some(value))),
        Some(Json::Null) | None => Ok(None),
        Some(_) => Err(refuse(concat(field_name, " must be a string"))),
    }
}

/// The text under the first of two keys or, where it has none, under the second.
pub open spec fn alias_member(
    object: Map<Seq<char>, JsonView>,
    first: Seq<char>,
    second: Seq<char>,
) -> Result<Option<Seq<char>>, FailureView> {
    match optional_member(object, first) {
        Ok(Some(value)) => Ok(Some(value)),
        Ok(None) => optional_member(object.remove(first), second),
        Err(error) => Err(error),
    }
}

/// What is left of an object once its text under two keys is taken: the second key is
/// looked at, and taken, only where there is no text under the first.
pub open spec fn without_alias(
    object: Map<Seq<char>, JsonView>,
    first: Seq<char>,
    second: Seq<char>,
) -> Map<Seq<char>, JsonView> {
    match optional_member(object, first) {
        Ok(None) => object.remove(first).remove(second),
        _ => object.remove(first),
    }
}

/// Takes the text under the first of two keys or, where it has none, under the second.
pub fn take_optional_string_alias(
    object: &mut Vec<(String, Json)>,
    first: &str,
    second: &str,
) -> (taken: Result<Option<String>, ErrorData>)
    ensures
        outcome::of(taken) == alias_member(json::entries_view(old(object)@), first@, second@),
        json::entries_view(final(object)@) == without_alias(
            json::entries_view(old(object)@),
            first@,
            second@,
        ),
{
    match take_optional_string_field(object, first)? {
        Some(value) => Ok(Some(value)),
        None => take_optional_string_field(object, second),
    }
}

/// A required text that was accepted holds more than white space and has none around it.
pub proof fn law_required_text_is_non_blank(value: Seq<char>, field_name: Seq<char>)
    ensures
        required_text(value, field_name) matches Ok(inner) ==> inner.len() > 0 && text::trimmed(
            inner,
        ) == inner,
{
    text::law_trimmed_stays(value);
}

/// A checked number is positive.
pub proof fn law_checked_numbers_are_positive(
    signed: Option<i64>,
    unsigned: Option<u64>,
    field_name: Seq<char>,
)
    ensures
        positive_i64(signed, field_name) matches Ok(Some(number)) ==> number > 0,
        positive_u64(unsigned, field_name) matches Ok(Some(number)) ==> number > 0,
{
}

} // verus!
