//! JSON values, as the library reads and builds them.

use vstd::prelude::*;

use crate::text::same_text;

verus! {

/// A JSON value.
///
/// A number is kept as its JSON text. An object is a list of entries; where a key
/// occurs more than once the last entry counts.
#[derive(Debug, PartialEq)]
pub enum Json {
    Null,
    Bool(bool),
    Number(String),
    Text(String),
    Array(Vec<Json>),
    Object(Vec<(String, Json)>),
}

/// What a JSON value stands for.
#[verifier::ext_equal]
pub enum JsonView {
    Null,
    Bool(bool),
    Number(Seq<char>),
    Text(Seq<char>),
    Array(Seq<JsonView>),
    Object(Map<Seq<char>, JsonView>),
}

/// The value that `json` stands for.
pub open spec fn json_view(json: Json) -> JsonView
    decreases json,
{
    match json {
        Json::Null => JsonView::Null,
        Json::Bool(b) => JsonView::Bool(b),
        Json::Number(text) => JsonView::Number(text@),
        Json::Text(text) => JsonView::Text(text@),
        Json::Array(items) => JsonView::Array(
            Seq::new(
                items@.len(),
                |i: int|
                    if 0 <= i < items@.len() {
                        json_view(items@[i])
                    } else {
                        JsonView::Null
                    },
            ),
        ),
        Json::Object(entries) => JsonView::Object(entries_view(entries@)),
    }
}

/// The map that a list of object entries stands for: a later entry hides an earlier
/// one of the same key.
pub open spec fn entries_view(entries: Seq<(String, Json)>) -> Map<Seq<char>, JsonView>
    decreases entries,
{
    if entries.len() == 0 {
        Map::empty()
    } else {
        entries_view(entries.drop_last()).insert(entries.last().0@, json_view(entries.last().1))
    }
}

impl View for Json {
    type V = JsonView;

    open spec fn view(&self) -> JsonView {
        json_view(*self)
    }
}

impl DeepView for Json {
    type V = JsonView;

    open spec fn deep_view(&self) -> JsonView {
        json_view(*self)
    }
}

impl JsonView {
    /// The value under `key`, where this is an object that has the key.
    pub open spec fn member(self, key: Seq<char>) -> Option<JsonView> {
        match self {
            JsonView::Object(map) => if map.contains_key(key) {
                Some(map[key])
            } else {
                None
            },
            _ => None,
        }
    }

    /// This object with `value` under `key`; any other value unchanged.
    pub open spec fn with(self, key: Seq<char>, value: JsonView) -> JsonView {
        match self {
            JsonView::Object(map) => JsonView::Object(map.insert(key, value)),
            other => other,
        }
    }

    /// This object without the member under `key`; any other value unchanged.
    pub open spec fn without(self, key: Seq<char>) -> JsonView {
        match self {
            JsonView::Object(map) => JsonView::Object(map.remove(key)),
            other => other,
        }
    }

    /// The value under `key`, or null where there is none.
    pub open spec fn member_or_null(self, key: Seq<char>) -> JsonView {
        match self.member(key) {
            Some(value) => value,
            None => JsonView::Null,
        }
    }

    /// `with`, where there is a value.
    pub open spec fn with_some(self, key: Seq<char>, value: Option<JsonView>) -> JsonView {
        match value {
            Some(value) => self.with(key, value),
            None => self,
        }
    }

    /// `with_some` of a text.
    pub open spec fn with_text(self, key: Seq<char>, text: Option<Seq<char>>) -> JsonView {
        match text {
            Some(text) => self.with(key, JsonView::Text(text)),
            None => self,
        }
    }

    /// The text, where this is a text.
    pub open spec fn text(self) -> Option<Seq<char>> {
        match self {
            JsonView::Text(text) => Some(text),
            _ => None,
        }
    }

    /// The items, where this is an array.
    pub open spec fn items(self) -> Option<Seq<JsonView>> {
        match self {
            JsonView::Array(items) => Some(items),
            _ => None,
        }
    }

    /// The object without members.
    pub open spec fn empty_object() -> JsonView {
        JsonView::Object(Map::empty())
    }
}

/// The object whose one member is `value` under `key`.
pub open spec fn singleton(key: Seq<char>, value: JsonView) -> JsonView {
    JsonView::Object(map![key => value])
}

/// The array of these texts.
pub open spec fn text_array(texts: Seq<Seq<char>>) -> JsonView {
    JsonView::Array(texts.map_values(|text: Seq<char>| JsonView::Text(text)))
}

/// Entries that follow others hide the members of the same key.
proof fn lemma_entries_concat(left: Seq<(String, Json)>, right: Seq<(String, Json)>)
    ensures
        entries_view(left + right) == entries_view(left).union_prefer_right(entries_view(right)),
    decreases right.len(),
{
    if right.len() == 0 {
        assert(left + right =~= left);
        assert(entries_view(left).union_prefer_right(Map::empty()) =~= entries_view(left));
    } else {
        lemma_entries_concat(left, right.drop_last());
        assert((left + right).drop_last() =~= left + right.drop_last());
        assert(entries_view(left + right) =~= entries_view(left).union_prefer_right(
            entries_view(right),
        ));
    }
}

/// A key that no entry has is none of the map.
proof fn lemma_entries_absent(entries: Seq<(String, Json)>, key: Seq<char>)
    requires
        forall|i: int| 0 <= i < entries.len() ==> (#[trigger] entries[i]).0@ != key,
    ensures
        !entries_view(entries).contains_key(key),
    decreases entries.len(),
{
    if entries.len() > 0 {
        let rest = entries.drop_last();
        assert forall|i: int| 0 <= i < rest.len() implies (#[trigger] rest[i]).0@ != key by {
            assert(rest[i] == entries[i]);
        }
        lemma_entries_absent(rest, key);
    }
}

/// The map has no member exactly where the list has no entry.
proof fn lemma_entries_empty(entries: Seq<(String, Json)>)
    ensures
        (entries_view(entries) == Map::<Seq<char>, JsonView>::empty()) == (entries.len() == 0),
{
    if entries.len() > 0 {
        assert(entries_view(entries).contains_key(entries.last().0@));
    }
}

/// The last entry of a key is the map's member.
proof fn lemma_entries_last(entries: Seq<(String, Json)>, i: int)
    requires
        0 <= i < entries.len(),
        forall|k: int|
            i < k < entries.len() ==> (#[trigger] entries[k]).0@ != entries[i].0@,
    ensures
        entries_view(entries).contains_key(entries[i].0@),
        entries_view(entries)[entries[i].0@] == json_view(entries[i].1),
{
    let left = entries.take(i + 1);
    let right = entries.skip(i + 1);
    assert(entries =~= left + right);
    lemma_entries_concat(left, right);
    assert forall|k: int| 0 <= k < right.len() implies (#[trigger] right[k]).0@
        != entries[i].0@ by {
        assert(right[k] == entries[i + 1 + k]);
    }
    lemma_entries_absent(right, entries[i].0@);
    assert(left.last() == entries[i]);
}

/// An object has finitely many members.
pub proof fn lemma_object_finite(json: Json)
    ensures
        json@ matches JsonView::Object(map) ==> map.dom().finite(),
{
    if let Json::Object(entries) = json {
        lemma_entries_finite(entries@);
    }
}

proof fn lemma_entries_finite(entries: Seq<(String, Json)>)
    ensures
        entries_view(entries).dom().finite(),
    decreases entries.len(),
{
    if entries.len() > 0 {
        lemma_entries_finite(entries.drop_last());
    }
}

/// The last entry under `key`.
fn last_entry<'a>(entries: &'a Vec<(String, Json)>, key: &str) -> (found: Option<&'a Json>)
    ensures
        found.deep_view() == JsonView::Object(entries_view(entries@)).member(key@),
{
    let mut i: usize = entries.len();
    while i > 0
        invariant
            i <= entries.len(),
            forall|k: int| i <= k < entries.len() ==> (#[trigger] entries@[k]).0@ != key@,
        decreases i,
    {
        i = i - 1;
        if same_text(entries[i].0.as_str(), key) {
            proof {
                lemma_entries_last(entries@, i as int);
            }
            return Some(&entries[i].1);
        }
    }
    proof {
        lemma_entries_absent(entries@, key@);
    }
    None
}

/// Takes the member under `key` out of the object.
pub fn take_entry(entries: &mut Vec<(String, Json)>, key: &str) -> (taken: Option<Json>)
    ensures
        taken.deep_view() == JsonView::Object(entries_view(old(entries)@)).member(key@),
        entries_view(final(entries)@) == entries_view(old(entries)@).remove(key@),
{
    let ghost start = entries@;
    let mut taken: Option<Json> = None;
    let mut i: usize = entries.len();
    while i > 0
        invariant
            i <= entries.len(),
            forall|k: int| i <= k < entries.len() ==> (#[trigger] entries@[k]).0@ != key@,
            taken is None ==> entries@ == start,
            taken is Some ==> taken.deep_view() == JsonView::Object(entries_view(start)).member(
                key@,
            ),
            entries_view(entries@).remove(key@) == entries_view(start).remove(key@),
        decreases i,
    {
        i = i - 1;
        if same_text(entries[i].0.as_str(), key) {
            let ghost before = entries@;
            proof {
                let left = before.take(i as int);
                let one = before.subrange(i as int, i + 1);
                let right = before.skip(i + 1);
                assert(before =~= left + one + right);
                assert(before.remove(i as int) =~= left + right);
                assert(left + one =~= left.push(before[i as int]));
                lemma_entries_concat(left + one, right);
                lemma_entries_concat(left, right);
                assert(left.push(before[i as int]).drop_last() =~= left);
                assert(entries_view(before.remove(i as int)).remove(key@) =~= entries_view(
                    before,
                ).remove(key@));
                if taken is None {
                    lemma_entries_last(start, i as int);
                }
            }
            let entry = entries.remove(i);
            proof {
                assert forall|k: int| i <= k < entries@.len() implies (#[trigger] entries@[k]).0@
                    != key@ by {
                    assert(entries@[k] == before[k + 1]);
                }
            }
            if taken.is_none() {
                taken = Some(entry.1);
            }
        }
    }
    proof {
        lemma_entries_absent(entries@, key@);
        assert(entries_view(entries@).remove(key@) =~= entries_view(entries@));
    }
    taken
}

/// Copies the entries of an object.
fn copy_entries(entries: &Vec<(String, Json)>) -> (copy: Vec<(String, Json)>)
    ensures
        entries_view(copy@) == entries_view(entries@),
    decreases entries,
{
    let mut copy: Vec<(String, Json)> = Vec::new();
    let mut i: usize = 0;
    proof {
        assert(entries@.take(0) =~= Seq::<(String, Json)>::empty());
    }
    while i < entries.len()
        invariant
            i <= entries.len(),
            entries_view(copy@) == entries_view(entries@.take(i as int)),
        decreases entries.len() - i,
    {
        let ghost before = copy@;
        proof {
            assert(decreases_to!(entries => entries@));
            assert(decreases_to!(entries@ => entries@[i as int]));
            assert(decreases_to!(entries@[i as int] => entries@[i as int].1));
        }
        let value = entries[i].1.clone();
        copy.push((entries[i].0.clone(), value));
        proof {
            assert(copy@.drop_last() =~= before);
            assert(entries@.take(i + 1).drop_last() =~= entries@.take(i as int));
        }
        i = i + 1;
    }
    proof {
        assert(entries@.take(i as int) =~= entries@);
    }
    copy
}

/// Copies the items of an array.
fn copy_items(items: &Vec<Json>) -> (copy: Vec<Json>)
    ensures
        copy.deep_view() == items.deep_view(),
    decreases items,
{
    let mut copy: Vec<Json> = Vec::new();
    let mut i: usize = 0;
    while i < items.len()
        invariant
            i <= items.len(),
            copy.deep_view() == items.deep_view().take(i as int),
        decreases items.len() - i,
    {
        proof {
            assert(decreases_to!(items => items@));
            assert(decreases_to!(items@ => items@[i as int]));
        }
        let item = items[i].clone();
        let ghost before = copy.deep_view();
        copy.push(item);
        proof {
            assert(copy.deep_view() =~= before.push(item@));
            assert(items.deep_view().take(i + 1) =~= items.deep_view().take(i as int).push(
                items@[i as int]@,
            ));
        }
        i = i + 1;
    }
    proof {
        assert(items.deep_view().take(i as int) =~= items.deep_view());
    }
    copy
}

impl Clone for Json {
    fn clone(&self) -> (copy: Self)
        ensures
            copy@ == self@,
        decreases self,
    {
        match self {
            Json::Null => Json::Null,
            Json::Bool(b) => Json::Bool(*b),
            Json::Number(text) => Json::Number(text.clone()),
            Json::Text(text) => Json::Text(text.clone()),
            Json::Array(items) => {
                let copy = copy_items(items);
                proof {
                    lemma_array_view(*items);
                    lemma_array_view(copy);
                }
                Json::Array(copy)
            },
            Json::Object(entries) => Json::Object(copy_entries(entries)),
        }
    }
}

/// An array stands for the sequence of what its items stand for.
pub proof fn lemma_array_view(items: Vec<Json>)
    ensures
        Json::Array(items)@ == JsonView::Array(items.deep_view()),
{
    assert(json_view(Json::Array(items))->Array_0 =~= items.deep_view());
}

impl Json {
    /// An object without members.
    pub fn new_object() -> (object: Json)
        ensures
            object@ == JsonView::empty_object(),
    {
        let entries: Vec<(String, Json)> = Vec::new();
        proof {
            lemma_entries_empty(entries@);
        }
        Json::Object(entries)
    }

    /// The object whose one member is `value` under `key`.
    pub fn single(key: &str, value: Json) -> (object: Json)
        ensures
            object@ == singleton(key@, value@),
    {
        let mut object = Json::new_object();
        object.set(key, value);
        object
    }

    /// A text value.
    pub fn text(text: &str) -> (value: Json)
        ensures
            value@ == JsonView::Text(text@),
    {
        Json::Text(text.to_owned())
    }

    /// An array of the given values.
    pub fn array(items: Vec<Json>) -> (value: Json)
        ensures
            value@ == JsonView::Array(items.deep_view()),
    {
        proof {
            lemma_array_view(items);
        }
        Json::Array(items)
    }

    /// An array of one value.
    pub fn array_of_one(item: Json) -> (value: Json)
        ensures
            value@ == JsonView::Array(seq![item@]),
    {
        let mut items: Vec<Json> = Vec::new();
        items.push(item);
        proof {
            assert(items.deep_view() =~= seq![item@]);
        }
        Json::array(items)
    }

    /// An array of the given texts.
    pub fn array_of_texts(texts: Vec<String>) -> (value: Json)
        ensures
            value@ == text_array(texts.deep_view()),
    {
        let mut items: Vec<Json> = Vec::new();
        let mut i: usize = 0;
        while i < texts.len()
            invariant
                i <= texts.len(),
                items.deep_view() =~= texts.deep_view().take(i as int).map_values(
                    |text: Seq<char>| JsonView::Text(text),
                ),
            decreases texts.len() - i,
        {
            let ghost before = items.deep_view();
            items.push(Json::Text(texts[i].clone()));
            proof {
                assert(items.deep_view() =~= before.push(JsonView::Text(texts@[i as int]@)));
            }
            i = i + 1;
        }
        proof {
            assert(texts.deep_view().take(i as int) =~= texts.deep_view());
        }
        Json::array(items)
    }

    /// The value under `key`, where this is an object that has the key.
    pub fn get(&self, key: &str) -> (found: Option<&Json>)
        ensures
            found.deep_view() == self@.member(key@),
    {
        match self {
            Json::Object(entries) => last_entry(entries, key),
            _ => None,
        }
    }

    /// The text, where this is a text.
    pub fn as_str(&self) -> (text: Option<&str>)
        ensures
            text.deep_view() == self@.text(),
    {
        match self {
            Json::Text(text) => Some(text.as_str()),
            _ => None,
        }
    }

    /// The items, where this is an array.
    pub fn as_array(&self) -> (items: Option<&Vec<Json>>)
        ensures
            items.deep_view() == self@.items(),
            items is Some == (self is Array),
    {
        match self {
            Json::Array(items) => {
                proof {
                    lemma_array_view(*items);
                }
                Some(items)
            },
            _ => None,
        }
    }

    /// Tells whether this is an object.
    pub fn is_object(&self) -> (yes: bool)
        ensures
            yes == (self@ is Object),
    {
        match self {
            Json::Object(_) => true,
            _ => false,
        }
    }

    /// Tells whether this is an object without members.
    pub fn is_empty_object(&self) -> (yes: bool)
        ensures
            yes == (self@ == JsonView::empty_object()),
    {
        match self {
            Json::Object(entries) => {
                proof {
                    lemma_entries_empty(entries@);
                }
                entries.is_empty()
            },
            _ => false,
        }
    }

    /// Puts `value` under `key` of this object, in the place of what stood there;
    /// leaves any other value as it is.
    pub fn set(&mut self, key: &str, value: Json)
        ensures
            final(self)@ == old(self)@.with(key@, value@),
    {
        match self {
            Json::Object(entries) => {
                let ghost start = entries_view(entries@);
                let _replaced = take_entry(entries, key);
                let ghost kept = entries@;
                entries.push((key.to_owned(), value));
                proof {
                    assert(entries@.drop_last() =~= kept);
                    assert(entries_view(entries@) =~= start.insert(key@, value@));
                }
            },
            _ => {},
        }
    }

    /// Takes the member under `key` out of this object; leaves any other value as it is.
    pub fn take(&mut self, key: &str) -> (taken: Option<Json>)
        ensures
            taken.deep_view() == old(self)@.member(key@),
            final(self)@ == old(self)@.without(key@),
    {
        match self {
            Json::Object(entries) => take_entry(entries, key),
            _ => None,
        }
    }

    /// A copy of the value under `key`, or null where there is none.
    pub fn copy_or_null(&self, key: &str) -> (value: Json)
        ensures
            value@ == self@.member_or_null(key@),
    {
        match self.get(key) {
            Some(value) => value.clone(),
            None => Json::Null,
        }
    }

    /// This object with the members of `more` put in the place of its own; none where
    /// either is no object.
    pub fn merge(self, more: Json) -> (merged: Option<Json>)
        ensures
            merged.deep_view() == (match (self@, more@) {
                (JsonView::Object(own), JsonView::Object(more)) => Some(
                    JsonView::Object(own.union_prefer_right(more)),
                ),
                _ => None,
            }),
    {
        match (self, more) {
            (Json::Object(own), Json::Object(more)) => {
                let mut entries = own;
                let mut more = more;
                proof {
                    lemma_entries_concat(own@, more@);
                }
                entries.append(&mut more);
                Some(Json::Object(entries))
            },
            _ => None,
        }
    }

    /// `set`, where there is a value.
    pub fn set_optional(&mut self, key: &str, value: Option<Json>)
        ensures
            final(self)@ == old(self)@.with_some(key@, value.deep_view()),
    {
        if let Some(value) = value {
            self.set(key, value);
        }
    }

    /// `set` of a text, where there is one.
    pub fn set_optional_text(&mut self, key: &str, text: Option<String>)
        ensures
            final(self)@ == old(self)@.with_text(key@, text.deep_view()),
    {
        if let Some(text) = text {
            self.set(key, Json::Text(text));
        }
    }
}

/// An object holds under a key what was put there last, and under another what it held
/// before; what is taken out is gone. A value that is no object stays as it is.
pub proof fn law_objects_hold_what_is_put_into_them(
    object: JsonView,
    key: Seq<char>,
    other: Seq<char>,
    value: JsonView,
)
    ensures
        object is Object ==> {
            &&& object.with(key, value).member(key) == Some(value)
            &&& object.without(key).member(key) is None
        },
        other != key ==> object.with(key, value).member(other) == object.member(other)
            && object.without(key).member(other) == object.member(other),
        !(object is Object) ==> object.with(key, value) == object && object.without(key) == object
            && object.member(key) is None,
        JsonView::empty_object().member(key) is None,
        singleton(key, value).member(key) == Some(value),
        other != key ==> singleton(key, value).member(other) is None,
        object.with_some(key, Some(value)) == object.with(key, value),
        object.with_some(key, None) == object,
        object.with_text(key, Some(other)) == object.with(key, JsonView::Text(other)),
        object.with_text(key, None) == object,
        object.member_or_null(key) == (if object.member(key) is Some {
            object.member(key)->0
        } else {
            JsonView::Null
        }),
{
}

} // verus!
