//! JSON values and how they are read.
//!
//! `serde_json` parses; the tree that it builds is turned into a [`Json`],
//! whose parts the rest of the library can look at.
use crate::double::Double;
use crate::text;
use vstd::prelude::*;

verus! {

/// A JSON value. A number is held as the double nearest to it.
#[derive(Debug)]
pub enum Json {
    Null,
    Bool(bool),
    Number(Option<Double>),
    Text(String),
    Array(Vec<Json>),
    Object(Vec<(String, Json)>),
}

/// What a [`Json`] stands for. The members of an object keep their order.
pub enum JsonView {
    Null,
    Bool(bool),
    Number(Option<Double>),
    Text(Seq<char>),
    Array(Seq<JsonView>),
    Object(Seq<(Seq<char>, JsonView)>),
}

/// What `json` stands for.
pub open spec fn json_view(json: Json) -> JsonView
    decreases json,
{
    match json {
        Json::Null => JsonView::Null,
        Json::Bool(b) => JsonView::Bool(b),
        Json::Number(n) => JsonView::Number(n),
        Json::Text(s) => JsonView::Text(s@),
        Json::Array(items) => JsonView::Array(
            Seq::new(
                items@.len(),
                |i: int|
                    if 0 <= i < items@.len() {
                        json_view(items@[i])
                    } else {
                        JsonView::Null
                    },
            ),
        ),
        Json::Object(members) => JsonView::Object(
            Seq::new(
                members@.len(),
                |i: int|
                    if 0 <= i < members@.len() {
                        (members@[i].0@, json_view(members@[i].1))
                    } else {
                        (Seq::empty(), JsonView::Null)
                    },
            ),
        ),
    }
}

impl View for Json {
    type V = JsonView;

    open spec fn view(&self) -> JsonView {
        json_view(*self)
    }
}

/// The value of the first member named `key`, from position `i` on.
pub open spec fn member_from(
    members: Seq<(Seq<char>, JsonView)>,
    key: Seq<char>,
    i: int,
) -> Option<JsonView>
    decreases members.len() - i,
{
    if i < 0 || i >= members.len() {
        None
    } else if members[i].0 == key {
        Some(members[i].1)
    } else {
        member_from(members, key, i + 1)
    }
}

impl JsonView {
    /// The member named `key`, of an object that has one.
    pub open spec fn member(self, key: Seq<char>) -> Option<JsonView> {
        match self {
            JsonView::Object(members) => member_from(members, key, 0),
            _ => None,
        }
    }

    /// The text, of a text.
    pub open spec fn text(self) -> Option<Seq<char>> {
        match self {
            JsonView::Text(s) => Some(s),
            _ => None,
        }
    }

    /// The truth value, of a truth value.
    pub open spec fn truth(self) -> Option<bool> {
        match self {
            JsonView::Bool(b) => Some(b),
            _ => None,
        }
    }

    /// The number, of a number.
    pub open spec fn number(self) -> Option<Double> {
        match self {
            JsonView::Number(n) => n,
            _ => None,
        }
    }

    /// The text of the member named `key`, where there is such a member and it is a text.
    pub open spec fn text_at(self, key: Seq<char>) -> Option<Seq<char>> {
        match self.member(key) {
            Some(v) => v.text(),
            None => None,
        }
    }

    /// The truth value of the member named `key`, where there is one.
    pub open spec fn truth_at(self, key: Seq<char>) -> Option<bool> {
        match self.member(key) {
            Some(v) => v.truth(),
            None => None,
        }
    }

    /// The number of the member named `key`, where there is one.
    pub open spec fn number_at(self, key: Seq<char>) -> Option<Double> {
        match self.member(key) {
            Some(v) => v.number(),
            None => None,
        }
    }
}

impl Json {
    /// The member named `key`, of an object that has one.
    pub fn get(&self, key: &str) -> (value: Option<&Json>)
        ensures
            value is Some <==> self@.member(key@) is Some,
            value matches Some(v) ==> self@.member(key@) == Some(v@),
    {
        match self {
            Json::Object(members) => {
                let ghost pairs = self@->Object_0;
                let mut i: usize = 0;
                while i < members.len()
                    invariant
                        i <= members@.len(),
                        pairs == json_view(*self)->Object_0,
                        *self == Json::Object(*members),
                        self@.member(key@) == member_from(pairs, key@, i as int),
                    decreases members@.len() - i,
                {
                    proof {
                        assert(pairs[i as int] == (
                            members@[i as int].0@,
                            json_view(members@[i as int].1),
                        ));
                    }
                    if text::same(members[i].0.as_str(), key) {
                        return Some(&members[i].1);
                    }
                    i = i + 1;
                }
                None
            },
            _ => None,
        }
    }

    /// The text, of a text.
    pub fn as_str(&self) -> (s: Option<&str>)
        ensures
            s is Some <==> self@.text() is Some,
            s matches Some(t) ==> self@.text() == Some(t@),
    {
        match self {
            Json::Text(s) => Some(s.as_str()),
            _ => None,
        }
    }

    /// The truth value, of a truth value.
    pub fn as_bool(&self) -> (b: Option<bool>)
        ensures
            b == self@.truth(),
    {
        match self {
            Json::Bool(b) => Some(*b),
            _ => None,
        }
    }

    /// The number, of a number.
    pub fn as_double(&self) -> (n: Option<Double>)
        ensures
            n == self@.number(),
    {
        match self {
            Json::Number(n) => *n,
            _ => None,
        }
    }

    /// The items, of an array.
    pub fn as_array(&self) -> (items: Option<&Vec<Json>>)
        ensures
            items is Some <==> self@ is Array,
            items matches Some(v) ==> v@.len() == self@->Array_0.len() && forall|i: int|
                0 <= i < v@.len() ==> #[trigger] self@->Array_0[i] == v@[i]@,
    {
        match self {
            Json::Array(items) => Some(items),
            _ => None,
        }
    }

    /// Whether this is an object.
    pub fn is_object(&self) -> (yes: bool)
        ensures
            yes == self@ is Object,
    {
        match self {
            Json::Object(_) => true,
            _ => false,
        }
    }

    /// The text of the member named `key`, where there is such a member and it is a text.
    pub fn str_at(&self, key: &str) -> (s: Option<&str>)
        ensures
            s is Some <==> self@.text_at(key@) is Some,
            s matches Some(t) ==> self@.text_at(key@) == Some(t@),
    {
        match self.get(key) {
            Some(value) => value.as_str(),
            None => None,
        }
    }

    /// The truth value of the member named `key`, where there is one.
    pub fn bool_at(&self, key: &str) -> (b: Option<bool>)
        ensures
            b == self@.truth_at(key@),
    {
        match self.get(key) {
            Some(value) => value.as_bool(),
            None => None,
        }
    }

    /// The number of the member named `key`, where there is one.
    pub fn double_at(&self, key: &str) -> (n: Option<Double>)
        ensures
            n == self@.number_at(key@),
    {
        match self.get(key) {
            Some(value) => value.as_double(),
            None => None,
        }
    }
}

/// A document that `serde_json` has parsed.
#[verifier::external_type_specification]
#[verifier::external_body]
pub struct ExValue(serde_json::Value);

/// Why `serde_json` could not parse a text.
#[verifier::external_type_specification]
#[verifier::external_body]
pub struct ExError(serde_json::Error);

/// The JSON value that a parsed document holds.
pub uninterp spec fn value_contents(value: serde_json::Value) -> JsonView;

/// The JSON value that a text spells; `None` where it spells none.
pub uninterp spec fn parsed_json(s: Seq<char>) -> Option<JsonView>;

/// `serde_json::from_str`, asked for a `serde_json::Value`. Whether it
/// succeeds, and what the document then holds, depends on the text alone.
#[verifier::external_body]
fn parse_value(s: &str) -> (value: Result<serde_json::Value, serde_json::Error>)
    ensures
        value is Ok <==> parsed_json(s@) is Some,
        value matches Ok(v) ==> parsed_json(s@) == Some(value_contents(v)),
{
    serde_json::from_str(s)
}

/// Takes a `serde_json::Value` apart, variant by variant, into the value that
/// it holds. A number becomes what `serde_json::Number::as_f64` gives of it.
#[verifier::external_body]
fn unpack_value(value: serde_json::Value) -> (json: Json)
    ensures
        json@ == value_contents(value),
{
    match value {
        serde_json::Value::Null => Json::Null,
        serde_json::Value::Bool(b) => Json::Bool(b),
        serde_json::Value::Number(n) => Json::Number(
            n.as_f64().map(|x| Double { bits: x.to_bits() }),
        ),
        serde_json::Value::String(s) => Json::Text(s),
        serde_json::Value::Array(v) => Json::Array(v.into_iter().map(unpack_value).collect()),
        serde_json::Value::Object(m) => Json::Object(
            m.into_iter().map(|(k, v)| (k, unpack_value(v))).collect(),
        ),
    }
}

impl Json {
    /// The JSON value that `s` spells.
    pub fn parse(s: &str) -> (json: Option<Json>)
        ensures
            json is Some <==> parsed_json(s@) is Some,
            json matches Some(j) ==> parsed_json(s@) == Some(j@),
    {
        match parse_value(s) {
            Ok(value) => Some(unpack_value(value)),
            Err(_) => None,
        }
    }

    /// The JSON value that a parsed document holds.
    pub fn from_value(value: serde_json::Value) -> (json: Json)
        ensures
            json@ == value_contents(value),
    {
        unpack_value(value)
    }
}

/// The member of an object that goes by a name is the first that does; an object
/// without one, and what is no object, has none. A member that is a text, a truth
/// value or a number is read as that, and as nothing else.
pub proof fn law_members_are_read(members: Seq<(Seq<char>, JsonView)>, k: int, key: Seq<char>)
    requires
        0 <= k < members.len(),
        forall|i: int| 0 <= i < k ==> (#[trigger] members[i]).0 != members[k].0,
    ensures
        ({
            let object = JsonView::Object(members);
            let name = members[k].0;
            &&& object.member(name) == Some(members[k].1)
            &&& members[k].1 matches JsonView::Text(s) ==> object.text_at(name) == Some(s)
            &&& members[k].1 !is Text ==> object.text_at(name) is None
            &&& members[k].1 matches JsonView::Bool(b) ==> object.truth_at(name) == Some(b)
            &&& members[k].1 !is Bool ==> object.truth_at(name) is None
            &&& members[k].1 matches JsonView::Number(n) ==> object.number_at(name) == n
            &&& members[k].1 !is Number ==> object.number_at(name) is None
            &&& (forall|i: int| 0 <= i < members.len() ==> (#[trigger] members[i]).0 != key)
                ==> object.member(key) is None && object.text_at(key) is None && object.truth_at(
                key,
            ) is None && object.number_at(key) is None
        }),
{
    lemma_member_from(members, members[k].0, 0, k);
    if forall|i: int| 0 <= i < members.len() ==> (#[trigger] members[i]).0 != key {
        lemma_no_member_from(members, key, 0);
    }
}

/// What is no object has no members.
pub proof fn law_only_objects_have_members(value: JsonView, key: Seq<char>)
    requires
        value !is Object,
    ensures
        value.member(key) is None,
        value.text_at(key) is None,
        value.truth_at(key) is None,
        value.number_at(key) is None,
{
}

proof fn lemma_member_from(
    members: Seq<(Seq<char>, JsonView)>,
    key: Seq<char>,
    i: int,
    k: int,
)
    requires
        0 <= i <= k < members.len(),
        members[k].0 == key,
        forall|j: int| 0 <= j < k ==> (#[trigger] members[j]).0 != key,
    ensures
        member_from(members, key, i) == Some(members[k].1),
    decreases k - i,
{
    if i < k {
        lemma_member_from(members, key, i + 1, k);
    }
}

proof fn lemma_no_member_from(members: Seq<(Seq<char>, JsonView)>, key: Seq<char>, i: int)
    requires
        0 <= i,
        forall|j: int| 0 <= j < members.len() ==> (#[trigger] members[j]).0 != key,
    ensures
        member_from(members, key, i) is None,
    decreases members.len() - i,
{
    if i < members.len() {
        lemma_no_member_from(members, key, i + 1);
    }
}

} // verus!
