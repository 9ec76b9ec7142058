//! A plain model of parsed JSON values, filled from serde_json.
use vstd::prelude::*;
use crate::text::same_text;

verus! {

#[verifier::external_type_specification]
#[verifier::external_body]
pub struct ExValue(serde_json::Value);

/// A JSON value, as far as the frame decoders read it.
pub enum Json {
    Str(String),
    Arr(Vec<Json>),
    /// Members in the order serde_json hands them out; keys are distinct.
    Obj(Vec<(String, Json)>),
    /// `null`, a boolean or a number: no decoder reads these.
    Scalar,
}

/// One level of a serde_json value, its children still unconverted.
enum Node {
    Str(String),
    Arr(Vec<serde_json::Value>),
    Obj(Vec<(String, serde_json::Value)>),
    Scalar,
}

/// Relies on the variants of `serde_json::Value` and on `Map::into_iter`.
#[verifier::external_body]
fn node_of(v: serde_json::Value) -> (r: Node) {
    match v {
        serde_json::Value::String(s) => Node::Str(s),
        serde_json::Value::Array(a) => Node::Arr(a),
        serde_json::Value::Object(m) => Node::Obj(m.into_iter().collect()),
        _ => Node::Scalar,
    }
}

/// serde_json refuses documents nested deeper than 128 levels, so a parsed
/// value never reaches this depth.
const MAX_DEPTH: usize = 256;

fn from_value(v: serde_json::Value, depth: usize) -> (r: Json)
    decreases depth,
{
    if depth == 0 {
        return Json::Scalar;
    }
    match node_of(v) {
        Node::Str(s) => Json::Str(s),
        Node::Scalar => Json::Scalar,
        Node::Arr(items) => {
            let mut out: Vec<Json> = Vec::new();
            let mut items = items;
            while items.len() > 0
                invariant
                    depth > 0,
                decreases items.len(),
            {
                let item = items.remove(0);
                out.push(from_value(item, depth - 1));
            }
            Json::Arr(out)
        },
        Node::Obj(members) => {
            let mut out: Vec<(String, Json)> = Vec::new();
            let mut members = members;
            while members.len() > 0
                invariant
                    depth > 0,
                decreases members.len(),
            {
                let (k, item) = members.remove(0);
                out.push((k, from_value(item, depth - 1)));
            }
            Json::Obj(out)
        },
    }
}

/// Whether serde_json accepts `text` as a JSON document.
pub uninterp spec fn json_accepts(text: Seq<char>) -> bool;

/// The tree serde_json parses `text` into, as a `Json`.
pub uninterp spec fn json_tree(text: Seq<char>) -> Json;

/// Relies on `serde_json::from_str::<Value>`: it succeeds exactly on the
/// texts serde_json accepts, and the value it gives depends on the text
/// alone. That value is turned into a `Json` one for one by `from_value`,
/// a verified function of this module.
#[verifier::external_body]
fn parse_tree(text: &str) -> (r: Option<Json>)
    ensures
        match r {
            Some(j) => json_accepts(text@) && j == json_tree(text@),
            None => !json_accepts(text@),
        },
{
    serde_json::from_str::<serde_json::Value>(text).ok().map(|v| from_value(v, MAX_DEPTH))
}

/// Parses `text` as JSON; `None` exactly when serde_json refuses it.
pub fn parse_json(text: &str) -> (r: Option<Json>)
    ensures
        r == (if json_accepts(text@) { Some(json_tree(text@)) } else { None }),
{
    parse_tree(text)
}

/// The value of the first member of `members` named `key`.
pub open spec fn lookup(members: Seq<(String, Json)>, key: Seq<char>) -> Option<Json>
    decreases members.len(),
{
    if members.len() == 0 {
        None
    } else {
        let before = lookup(members.drop_last(), key);
        if before is Some {
            before
        } else if members.last().0@ == key {
            Some(members.last().1)
        } else {
            None
        }
    }
}

/// The member `key` of `j`, when `j` is an object that has one.
pub open spec fn member(j: Json, key: Seq<char>) -> Option<Json> {
    match j {
        Json::Obj(members) => lookup(members@, key),
        _ => None,
    }
}

/// The member `key` of `j` when it is a string.
pub open spec fn text_member(j: Json, key: Seq<char>) -> Option<String> {
    match member(j, key) {
        Some(Json::Str(s)) => Some(s),
        _ => None,
    }
}

/// The member `key` of `j` when it is an array.
pub open spec fn array_member(j: Json, key: Seq<char>) -> Option<Seq<Json>> {
    match member(j, key) {
        Some(Json::Arr(items)) => Some(items@),
        _ => None,
    }
}

impl Json {
    /// Looks up member `key` of an object; `None` for any other value.
    pub fn get(&self, key: &str) -> (r: Option<&Json>)
        ensures
            r matches Some(v) ==> member(*self, key@) == Some(*v),
            r is None ==> member(*self, key@) is None,
    {
        match self {
            Json::Obj(members) => {
                let mut i: usize = 0;
                while i < members.len()
                    invariant
                        *self == Json::Obj(*members),
                        i <= members@.len(),
                        lookup(members@.take(i as int), key@) is None,
                    decreases members.len() - i,
                {
                    assert(members@.take(i + 1).drop_last() =~= members@.take(i as int));
                    if same_text(members[i].0.as_str(), key) {
                        assert(members@.take(i + 1).last() == members@[i as int]);
                        assert(lookup(members@.take(i + 1), key@) == Some(members@[i as int].1));
                        proof { lemma_lookup_prefix(members@, key@, i as int + 1); }
                        return Some(&members[i].1);
                    }
                    i = i + 1;
                }
                assert(members@.take(members@.len() as int) =~= members@);
                None
            },
            _ => None,
        }
    }

    /// The member `key` when it is a string.
    pub fn get_text(&self, key: &str) -> (r: Option<&String>)
        ensures
            r matches Some(s) ==> text_member(*self, key@) == Some(*s),
            r is None ==> text_member(*self, key@) is None,
    {
        match self.get(key) {
            Some(Json::Str(s)) => Some(s),
            _ => None,
        }
    }

    /// The member `key` when it is an array.
    pub fn get_array(&self, key: &str) -> (r: Option<&Vec<Json>>)
        ensures
            r matches Some(v) ==> array_member(*self, key@) == Some(v@),
            r is None ==> array_member(*self, key@) is None,
    {
        match self.get(key) {
            Some(Json::Arr(v)) => Some(v),
            _ => None,
        }
    }
}

/// A match found in a prefix is the match of the whole sequence.
proof fn lemma_lookup_prefix(members: Seq<(String, Json)>, key: Seq<char>, n: int)
    requires
        0 <= n <= members.len(),
        lookup(members.take(n), key) is Some,
    ensures
        lookup(members, key) == lookup(members.take(n), key),
    decreases members.len() - n,
{
    if n < members.len() {
        assert(members.take(n + 1).drop_last() =~= members.take(n));
        lemma_lookup_prefix(members, key, n + 1);
    } else {
        assert(members.take(n) =~= members);
    }
}

} // verus!
