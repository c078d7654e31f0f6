//! A JSON value held as plain data, its mathematical model, and parsing through
//! `serde_json`.
use vstd::prelude::*;

verus! {

broadcast use vstd::std_specs::vec::group_vec_axioms;

/// A JSON value. Numbers keep the text that `serde_json` prints for them, and
/// objects keep their members in the order in which they were given.
#[derive(Debug, PartialEq)]
pub enum JsonValue {
    Null,
    Bool(bool),
    Number(String),
    Str(String),
    Array(Vec<JsonValue>),
    Object(Vec<(String, JsonValue)>),
}

/// The mathematical model of a JSON value.
pub enum Json {
    Null,
    Bool(bool),
    Number(Seq<char>),
    Str(Seq<char>),
    Array(Seq<Json>),
    Object(Seq<(Seq<char>, Json)>),
}

/// The model of a JSON value.
pub open spec fn json_of(v: JsonValue) -> Json
    decreases v,
{
    match v {
        JsonValue::Null => Json::Null,
        JsonValue::Bool(b) => Json::Bool(b),
        JsonValue::Number(n) => Json::Number(n@),
        JsonValue::Str(s) => Json::Str(s@),
        JsonValue::Array(items) => Json::Array(json_seq(items@)),
        JsonValue::Object(members) => Json::Object(json_members(members@)),
    }
}

/// The models of a sequence of JSON values.
pub open spec fn json_seq(s: Seq<JsonValue>) -> Seq<Json>
    decreases s,
{
    if s.len() == 0 {
        seq![]
    } else {
        json_seq(s.drop_last()).push(json_of(s.last()))
    }
}

/// The models of the members of a JSON object.
pub open spec fn json_members(s: Seq<(String, JsonValue)>) -> Seq<(Seq<char>, Json)>
    decreases s,
{
    if s.len() == 0 {
        seq![]
    } else {
        json_members(s.drop_last()).push((s.last().0@, json_of(s.last().1)))
    }
}

impl View for JsonValue {
    type V = Json;

    open spec fn view(&self) -> Json {
        json_of(*self)
    }
}

/// The value of the first member of `members` named `key`.
pub open spec fn member_lookup(members: Seq<(Seq<char>, Json)>, key: Seq<char>) -> Option<Json>
    decreases members.len(),
{
    if members.len() == 0 {
        None
    } else if members[0].0 == key {
        Some(members[0].1)
    } else {
        member_lookup(members.drop_first(), key)
    }
}

/// The member `key` of an object; `None` for a value that is no object or has no such member.
pub open spec fn json_get(j: Json, key: Seq<char>) -> Option<Json> {
    match j {
        Json::Object(members) => member_lookup(members, key),
        _ => None,
    }
}

/// The text of a string value; `None` for any other value.
pub open spec fn json_str(j: Option<Json>) -> Option<Seq<char>> {
    match j {
        Some(Json::Str(s)) => Some(s),
        _ => None,
    }
}

/// The text of the member `key` when it is a string.
pub open spec fn json_get_str(j: Json, key: Seq<char>) -> Option<Seq<char>> {
    json_str(json_get(j, key))
}

/// The models of optional JSON values.
pub open spec fn opt_json(o: Option<JsonValue>) -> Option<Json> {
    match o {
        Some(v) => Some(v@),
        None => None,
    }
}

pub proof fn lemma_json_seq_step(s: Seq<JsonValue>, i: int)
    requires
        0 <= i < s.len(),
    ensures
        json_seq(s.take(i + 1)) == json_seq(s.take(i)).push(json_of(s[i])),
{
    assert(s.take(i + 1).drop_last() == s.take(i));
}

pub proof fn lemma_json_members_step(s: Seq<(String, JsonValue)>, i: int)
    requires
        0 <= i < s.len(),
    ensures
        json_members(s.take(i + 1)) == json_members(s.take(i)).push((s[i].0@, json_of(s[i].1))),
{
    assert(s.take(i + 1).drop_last() == s.take(i));
}

pub proof fn lemma_json_members_len(s: Seq<(String, JsonValue)>)
    ensures
        json_members(s).len() == s.len(),
    decreases s.len(),
{
    if s.len() > 0 {
        lemma_json_members_len(s.drop_last());
    }
}

pub proof fn lemma_json_members_index(s: Seq<(String, JsonValue)>, i: int)
    requires
        0 <= i < s.len(),
    ensures
        json_members(s)[i] == (s[i].0@, json_of(s[i].1)),
    decreases s.len(),
{
    lemma_json_members_len(s.drop_last());
    if i < s.len() - 1 {
        lemma_json_members_index(s.drop_last(), i);
    }
}

proof fn lemma_member_lookup_skip(ms: Seq<(Seq<char>, Json)>, key: Seq<char>, i: int)
    requires
        0 <= i <= ms.len(),
        forall|k: int| 0 <= k < i ==> ms[k].0 != key,
    ensures
        member_lookup(ms, key) == member_lookup(ms.skip(i), key),
    decreases i,
{
    if i > 0 {
        lemma_member_lookup_skip(ms.drop_first(), key, i - 1);
        assert(ms.drop_first().skip(i - 1) == ms.skip(i));
    } else {
        assert(ms.skip(0) == ms);
    }
}

impl JsonValue {
    /// A copy of this value.
    #[verifier::loop_isolation(false)]
    pub fn deep_clone(&self) -> (r: JsonValue)
        ensures
            r@ == self@,
        decreases self,
    {
        match self {
            JsonValue::Null => JsonValue::Null,
            JsonValue::Bool(b) => JsonValue::Bool(*b),
            JsonValue::Number(n) => JsonValue::Number(n.clone()),
            JsonValue::Str(s) => JsonValue::Str(s.clone()),
            JsonValue::Array(items) => {
                let mut out: Vec<JsonValue> = Vec::new();
                for i in 0..items.len()
                    invariant
                        json_seq(out@) == json_seq(items@.take(i as int)),
                {
                    proof {
                        assert(decreases_to!(items => items[i as int]));
                    }
                    let c = items[i].deep_clone();
                    let ghost prev = out@;
                    out.push(c);
                    proof {
                        lemma_json_seq_step(items@, i as int);
                        assert(out@.drop_last() == prev);
                    }
                }
                assert(items@.take(items@.len() as int) == items@);
                JsonValue::Array(out)
            },
            JsonValue::Object(members) => {
                let mut out: Vec<(String, JsonValue)> = Vec::new();
                for i in 0..members.len()
                    invariant
                        json_members(out@) == json_members(members@.take(i as int)),
                {
                    let k = members[i].0.clone();
                    proof {
                        assert(decreases_to!(members => members[i as int]));
                    }
                    let c = members[i].1.deep_clone();
                    let ghost prev = out@;
                    out.push((k, c));
                    proof {
                        lemma_json_members_step(members@, i as int);
                        assert(out@.drop_last() == prev);
                    }
                }
                assert(members@.take(members@.len() as int) == members@);
                JsonValue::Object(out)
            },
        }
    }

    /// The member `key` of an object (the first one, should several have that name).
    #[verifier::loop_isolation(false)]
    pub fn get(&self, key: &str) -> (r: Option<&JsonValue>)
        ensures
            json_get(self@, key@) == match r {
                Some(m) => Some(m@),
                None => None,
            },
    {
        match self {
            JsonValue::Object(members) => {
                let ghost ms = json_members(members@);
                proof {
                    lemma_json_members_len(members@);
                }
                for i in 0..members.len()
                    invariant
                        ms == json_members(members@),
                        ms.len() == members@.len(),
                        forall|k: int| 0 <= k < i ==> ms[k].0 != key@,
                {
                    proof {
                        lemma_json_members_index(members@, i as int);
                    }
                    if crate::strings::str_eq(members[i].0.as_str(), key) {
                        proof {
                            lemma_member_lookup_skip(ms, key@, i as int);
                            assert(ms.skip(i as int)[0] == ms[i as int]);
                            assert(self@ == Json::Object(ms));
                            assert(member_lookup(ms.skip(i as int), key@) == Some(ms[i as int].1));
                        }
                        return Some(&members[i].1);
                    }
                }
                proof {
                    lemma_member_lookup_skip(ms, key@, ms.len() as int);
                }
                None
            },
            _ => None,
        }
    }

    /// The text of a string value.
    pub fn as_str(&self) -> (r: Option<&str>)
        ensures
            match r {
                Some(s) => self@ == Json::Str(s@),
                None => !(self@ is Str),
            },
    {
        match self {
            JsonValue::Str(s) => Some(s.as_str()),
            _ => None,
        }
    }
}

/// The text of member `key` of `v` when that member is a string.
pub fn get_str<'a>(v: &'a JsonValue, key: &str) -> (r: Option<&'a str>)
    ensures
        match r {
            Some(s) => json_get_str(v@, key@) == Some(s@),
            None => json_get_str(v@, key@) is None,
        },
{
    match v.get(key) {
        Some(m) => m.as_str(),
        None => None,
    }
}

/// `serde_json::Value`, which `serde_json::from_str` produces.
#[verifier::external_type_specification]
#[verifier::external_body]
pub struct ExSerdeJsonValue(serde_json::Value);

/// The value that `serde_json::from_str` reads from `text`, or `None` where it
/// reports an error.
pub uninterp spec fn json_parse(text: Seq<char>) -> Option<Json>;

/// Copies a `serde_json::Value` into a `JsonValue`, variant for variant (numbers
/// as the text `serde_json` prints for them, object members in iteration order).
#[verifier::external_body]
pub(crate) fn from_serde(v: serde_json::Value) -> JsonValue {
    match v {
        serde_json::Value::Null => JsonValue::Null,
        serde_json::Value::Bool(b) => JsonValue::Bool(b),
        serde_json::Value::Number(n) => JsonValue::Number(n.to_string()),
        serde_json::Value::String(s) => JsonValue::Str(s),
        serde_json::Value::Array(a) => JsonValue::Array(a.into_iter().map(from_serde).collect()),
        serde_json::Value::Object(m) => JsonValue::Object(
            m.into_iter().map(|(k, x)| (k, from_serde(x))).collect(),
        ),
    }
}

/// Copies a `JsonValue` into a `serde_json::Value`, variant for variant (a
/// number as the `serde_json` number that its text reads as, or as a string
/// where the text reads as none).
#[verifier::external_body]
pub(crate) fn to_serde(v: &JsonValue) -> serde_json::Value {
    match v {
        JsonValue::Null => serde_json::Value::Null,
        JsonValue::Bool(b) => serde_json::Value::Bool(*b),
        JsonValue::Number(n) => match serde_json::from_str::<serde_json::Number>(n) {
            Ok(num) => serde_json::Value::Number(num),
            Err(_) => serde_json::Value::String(n.clone()),
        },
        JsonValue::Str(s) => serde_json::Value::String(s.clone()),
        JsonValue::Array(items) => serde_json::Value::Array(items.iter().map(to_serde).collect()),
        JsonValue::Object(members) => serde_json::Value::Object(
            members.iter().map(|(k, x)| (k.clone(), to_serde(x))).collect(),
        ),
    }
}

/// The compact JSON text that `serde_json` writes for a value.
pub uninterp spec fn json_serialized(j: Json) -> Seq<char>;

/// The compact JSON text of a value: `Display` of `serde_json::Value` on the
/// value copied into one. The contract claims only that the text is the one
/// that `json_serialized` names for the value's model; its form is not stated.
#[verifier::external_body]
pub(crate) fn json_text(v: &JsonValue) -> (r: String)
    ensures
        r@ == json_serialized(v@),
{
    to_serde(v).to_string()
}

/// Parses `text` as one JSON document with `serde_json::from_str`; the
/// contract names the outcome `json_parse(text)`.
#[verifier::external_body]
pub(crate) fn parse_json(text: &str) -> (r: Option<JsonValue>)
    ensures
        opt_json(r) == json_parse(text@),
{
    serde_json::from_str::<serde_json::Value>(text).ok().map(from_serde)
}

} // verus!
