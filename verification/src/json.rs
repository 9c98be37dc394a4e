//! JSON values as the engine sends them, and the reading of JSON text.

use vstd::prelude::*;
use vstd::string::*;

verus! {

/// The mathematical model of a [`Json`] value.
pub enum JsonValue {
    Null,
    Bool(bool),
    /// A number, by its text.
    Number(Seq<char>),
    String(Seq<char>),
    Array(Seq<JsonValue>),
    /// An object, by its members in the order in which they are held.
    Object(Seq<(Seq<char>, JsonValue)>),
}

/// A JSON value.
///
/// A number is held by its text, so that integers of any size and fractions
/// are kept exactly. An object is held as the list of its members.
#[derive(Debug, PartialEq, Eq)]
pub enum Json {
    Null,
    Bool(bool),
    Number(String),
    String(String),
    Array(Vec<Json>),
    Object(Vec<(String, Json)>),
}

impl Json {
    /// The model of a value: the same tree, with sequences for strings and
    /// lists.
    pub open spec fn model(self) -> JsonValue
        decreases self,
    {
        match self {
            Json::Null => JsonValue::Null,
            Json::Bool(b) => JsonValue::Bool(b),
            Json::Number(text) => JsonValue::Number(text@),
            Json::String(text) => JsonValue::String(text@),
            Json::Array(items) => JsonValue::Array(
                Seq::new(
                    items@.len(),
                    |i: int|
                        if 0 <= i < items@.len() {
                            items@[i].model()
                        } else {
                            JsonValue::Null
                        },
                ),
            ),
            Json::Object(members) => JsonValue::Object(
                Seq::new(
                    members@.len(),
                    |i: int|
                        if 0 <= i < members@.len() {
                            (members@[i].0@, members@[i].1.model())
                        } else {
                            (Seq::empty(), JsonValue::Null)
                        },
                ),
            ),
        }
    }
}

impl View for Json {
    type V = JsonValue;

    open spec fn view(&self) -> JsonValue {
        self.model()
    }
}

impl DeepView for Json {
    type V = JsonValue;

    open spec fn deep_view(&self) -> JsonValue {
        self.model()
    }
}

/// The model of an array is the list of the models of its items.
pub proof fn lemma_array_model(items: Vec<Json>)
    ensures
        Json::Array(items)@ == JsonValue::Array(items.deep_view()),
{
    assert(Json::Array(items)@->Array_0 =~= items.deep_view());
}

/// The model of an object is the list of the models of its members.
pub proof fn lemma_object_model(members: Vec<(String, Json)>)
    ensures
        Json::Object(members)@ == JsonValue::Object(members.deep_view()),
{
    assert(Json::Object(members)@->Object_0 =~= members.deep_view());
}

impl Json {
    /// A copy of this value.
    #[verifier::loop_isolation(false)]
    pub fn duplicate(&self) -> (copy: Json)
        ensures
            copy@ == self@,
        decreases self,
    {
        match self {
            Json::Null => Json::Null,
            Json::Bool(b) => Json::Bool(*b),
            Json::Number(text) => Json::Number(text.clone()),
            Json::String(text) => Json::String(text.clone()),
            Json::Array(items) => {
                let mut out: Vec<Json> = Vec::new();
                let mut i: usize = 0;
                while i < items.len()
                    invariant
                        i <= items.len(),
                        out@.len() == i,
                        forall|k: int| 0 <= k < i ==> (#[trigger] out@[k])@ == items@[k]@,
                    decreases items.len() - i,
                {
                    out.push(items[i].duplicate());
                    i += 1;
                }
                proof {
                    lemma_array_model(out);
                    lemma_array_model(*items);
                    assert(out.deep_view() =~= items.deep_view());
                }
                Json::Array(out)
            },
            Json::Object(members) => {
                let mut out: Vec<(String, Json)> = Vec::new();
                let mut i: usize = 0;
                while i < members.len()
                    invariant
                        i <= members.len(),
                        out@.len() == i,
                        forall|k: int|
                            0 <= k < i ==> (#[trigger] out@[k]).0@ == members@[k].0@ && out@[k].1@
                                == members@[k].1@,
                    decreases members.len() - i,
                {
                    out.push((members[i].0.clone(), members[i].1.duplicate()));
                    i += 1;
                }
                proof {
                    lemma_object_model(out);
                    lemma_object_model(*members);
                    assert(out.deep_view() =~= members.deep_view());
                }
                Json::Object(out)
            },
        }
    }
}

/// The position of the first member of `members` whose key is `key`.
pub open spec fn member_position(members: Seq<(Seq<char>, JsonValue)>, key: Seq<char>) -> Option<
    int,
>
    decreases members.len(),
{
    if members.len() == 0 {
        None
    } else if members[0].0 == key {
        Some(0)
    } else {
        match member_position(members.drop_first(), key) {
            Some(p) => Some(p + 1),
            None => None,
        }
    }
}

/// The value of the first member of `members` whose key is `key`.
pub open spec fn member_value(members: Seq<(Seq<char>, JsonValue)>, key: Seq<char>) -> Option<
    JsonValue,
> {
    match member_position(members, key) {
        Some(p) => Some(members[p].1),
        None => None,
    }
}

/// What `member_position` finds: the first position that bears the key.
pub proof fn lemma_member_position(members: Seq<(Seq<char>, JsonValue)>, key: Seq<char>)
    ensures
        match member_position(members, key) {
            Some(p) => 0 <= p < members.len() && members[p].0 == key && forall|k: int|
                0 <= k < p ==> (#[trigger] members[k]).0 != key,
            None => forall|k: int| 0 <= k < members.len() ==> (#[trigger] members[k]).0 != key,
        },
    decreases members.len(),
{
    if members.len() > 0 && members[0].0 != key {
        let rest = members.drop_first();
        lemma_member_position(rest, key);
        match member_position(rest, key) {
            Some(p) => {
                assert forall|k: int| 0 <= k < p + 1 implies (#[trigger] members[k]).0 != key by {
                    if k > 0 {
                        assert(rest[k - 1] == members[k]);
                    }
                }
            },
            None => {
                assert forall|k: int| 0 <= k < members.len() implies (#[trigger] members[k]).0
                    != key by {
                    if k > 0 {
                        assert(rest[k - 1] == members[k]);
                    }
                }
            },
        }
    }
}

/// A position that bears the key, with none before it that does, is the
/// one that `member_position` finds; a list without the key has none.
pub proof fn lemma_member_position_is(
    members: Seq<(Seq<char>, JsonValue)>,
    key: Seq<char>,
    found: Option<int>,
)
    requires
        match found {
            Some(p) => 0 <= p < members.len() && members[p].0 == key && forall|k: int|
                0 <= k < p ==> (#[trigger] members[k]).0 != key,
            None => forall|k: int| 0 <= k < members.len() ==> (#[trigger] members[k]).0 != key,
        },
    ensures
        member_position(members, key) == found,
{
    lemma_member_position(members, key);
}

/// Looks up the first member of `members` whose key is `key`.
pub fn find_member<'a>(members: &'a Vec<(String, Json)>, key: &str) -> (found: Option<&'a Json>)
    ensures
        match found {
            Some(value) => member_value(members.deep_view(), key@) == Some(value@),
            None => member_value(members.deep_view(), key@) is None,
        },
{
    let wanted = String::from_str(key);
    let ghost model = members.deep_view();
    let mut i: usize = 0;
    while i < members.len()
        invariant
            i <= members.len(),
            wanted@ == key@,
            model == members.deep_view(),
            forall|k: int| 0 <= k < i ==> (#[trigger] model[k]).0 != key@,
        decreases members.len() - i,
    {
        if members[i].0 == wanted {
            proof {
                lemma_member_position_is(model, key@, Some(i as int));
            }
            return Some(&members[i].1);
        }
        i += 1;
    }
    proof {
        lemma_member_position_is(model, key@, None);
    }
    None
}

impl Json {
    /// The member `key` of this value, where this value is an object that has
    /// one.
    pub open spec fn member_spec(value: JsonValue, key: Seq<char>) -> Option<JsonValue> {
        match value {
            JsonValue::Object(members) => member_value(members, key),
            _ => None,
        }
    }

    /// Looks up the member `key` of this value. A value that is no object has
    /// no members.
    pub fn member(&self, key: &str) -> (found: Option<&Json>)
        ensures
            match found {
                Some(value) => Self::member_spec(self@, key@) == Some(value@),
                None => Self::member_spec(self@, key@) is None,
            },
    {
        match self {
            Json::Object(members) => {
                proof {
                    lemma_object_model(*members);
                }
                find_member(members, key)
            },
            _ => None,
        }
    }
}

impl Json {
    /// The text of a string value.
    pub open spec fn text_spec(value: JsonValue) -> Option<Seq<char>> {
        match value {
            JsonValue::String(text) => Some(text),
            _ => None,
        }
    }

    /// The text of this value, where it is a string.
    pub fn text(&self) -> (text: Option<&String>)
        ensures
            text.deep_view() == Self::text_spec(self@),
    {
        match self {
            Json::String(text) => Some(text),
            _ => None,
        }
    }

    /// The items of an array value.
    pub open spec fn items_spec(value: JsonValue) -> Option<Seq<JsonValue>> {
        match value {
            JsonValue::Array(items) => Some(items),
            _ => None,
        }
    }

    /// The items of this value, where it is an array.
    pub fn items(&self) -> (items: Option<&Vec<Json>>)
        ensures
            items.deep_view() == Self::items_spec(self@),
    {
        match self {
            Json::Array(items) => {
                proof {
                    lemma_array_model(*items);
                }
                Some(items)
            },
            _ => None,
        }
    }

    /// The members of an object value.
    pub open spec fn members_spec(value: JsonValue) -> Option<Seq<(Seq<char>, JsonValue)>> {
        match value {
            JsonValue::Object(members) => Some(members),
            _ => None,
        }
    }

    /// The members of this value, where it is an object.
    pub fn members(&self) -> (members: Option<&Vec<(String, Json)>>)
        ensures
            members.deep_view() == Self::members_spec(self@),
    {
        match self {
            Json::Object(members) => {
                proof {
                    lemma_object_model(*members);
                }
                Some(members)
            },
            _ => None,
        }
    }
}

/// All of `items`, where none is missing.
pub open spec fn all_present<T>(items: Seq<Option<T>>) -> Option<Seq<T>> {
    if forall|i: int| 0 <= i < items.len() ==> (#[trigger] items[i]) is Some {
        Some(Seq::new(items.len(), |i: int| items[i]->0))
    } else {
        None
    }
}

/// A list read item by item, where every item could be read, is the list of
/// what was read.
pub proof fn lemma_all_present<T>(read: Seq<Option<T>>, got: Seq<T>)
    requires
        read.len() == got.len(),
        forall|k: int| 0 <= k < got.len() ==> (#[trigger] read[k]) == Some(got[k]),
    ensures
        all_present(read) == Some(got),
{
}

/// Declares `serde_json::Value`, which is carried from the reader to
/// `lift_value` and looked into nowhere else.
#[verifier::external_type_specification]
#[verifier::external_body]
pub struct ExValue(serde_json::Value);

/// What a value of `serde_json` holds: the same tree, each number by the text
/// that `serde_json` prints for it, each object by its members in the order
/// in which `serde_json` walks them.
pub uninterp spec fn value_model(value: serde_json::Value) -> JsonValue;

/// The value that `serde_json::from_str` reads from a text; `None` where it
/// reports an error.
pub uninterp spec fn json_text_value(text: Seq<char>) -> Option<JsonValue>;

/// Calls `serde_json::from_str` for a `serde_json::Value`.
///
/// Trusted: the value returned is the one that `serde_json` reads from
/// `text`, and `None` stands for any error that it reports.
#[verifier::external_body]
fn read_value(text: &str) -> (read: Option<serde_json::Value>)
    ensures
        match read {
            Some(value) => json_text_value(text@) == Some(value_model(value)),
            None => json_text_value(text@) is None,
        },
{
    serde_json::from_str::<serde_json::Value>(text).ok()
}

/// Moves a value of `serde_json` into a [`Json`], variant by variant.
///
/// Trusted: the result holds what `value` held. A number is carried over by
/// `Number::to_string`, the members of an object in the order of the map's
/// iterator.
#[verifier::external_body]
fn lift_value(value: serde_json::Value) -> (lifted: Json)
    ensures
        lifted@ == value_model(value),
{
    match value {
        serde_json::Value::Null => Json::Null,
        serde_json::Value::Bool(b) => Json::Bool(b),
        serde_json::Value::Number(n) => Json::Number(n.to_string()),
        serde_json::Value::String(s) => Json::String(s),
        serde_json::Value::Array(items) => Json::Array(items.into_iter().map(lift_value).collect()),
        serde_json::Value::Object(members) => Json::Object(
            members.into_iter().map(|(k, v)| (k, lift_value(v))).collect(),
        ),
    }
}

/// Reads a JSON document. `None` for a text that is not one.
pub fn parse_json(text: &str) -> (document: Option<Json>)
    ensures
        match document {
            Some(value) => json_text_value(text@) == Some(value@),
            None => json_text_value(text@) is None,
        },
{
    match read_value(text) {
        Some(value) => Some(lift_value(value)),
        None => None,
    }
}

} // verus!
