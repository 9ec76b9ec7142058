//! The outbound subscription frame, and reading one back.
use vstd::prelude::*;
use crate::json::{Json, text_member, array_member, parse_json, json_accepts, json_tree};
use crate::text::same_text;

verus! {

/// Lower-case hexadecimal digit of `n` (below 16).
pub open spec fn hex_digit(n: u32) -> char {
    seq!['0', '1', '2', '3', '4', '5', '6', '7', '8', '9', 'a', 'b', 'c', 'd', 'e', 'f'][n as int]
}

/// How serde_json writes character `c` inside a string literal: `"` and `\`
/// escaped, the control characters with a short escape where JSON has one
/// and as `\u00XX` otherwise, every other character as it is.
pub open spec fn escaped_char(c: char) -> Seq<char> {
    let u = c as u32;
    if c == '"' {
        seq!['\\', '"']
    } else if c == '\\' {
        seq!['\\', '\\']
    } else if u == 0x08 {
        seq!['\\', 'b']
    } else if u == 0x09 {
        seq!['\\', 't']
    } else if u == 0x0A {
        seq!['\\', 'n']
    } else if u == 0x0C {
        seq!['\\', 'f']
    } else if u == 0x0D {
        seq!['\\', 'r']
    } else if u < 0x20 {
        seq!['\\', 'u', '0', '0', hex_digit(u / 16), hex_digit(u % 16)]
    } else {
        seq![c]
    }
}

pub open spec fn escaped(s: Seq<char>) -> Seq<char>
    decreases s.len(),
{
    if s.len() == 0 {
        Seq::<char>::empty()
    } else {
        escaped(s.drop_last()) + escaped_char(s.last())
    }
}

/// `s` written as a JSON string literal.
pub open spec fn json_string(s: Seq<char>) -> Seq<char> {
    seq!['"'] + escaped(s) + seq!['"']
}

/// Relies on `serde_json::to_string` on a `str`: the text quoted, with the
/// escapes of serde_json's `ESCAPE` table. Serializing a `str` does not fail.
#[verifier::external_body]
fn quote(s: &str) -> (r: String)
    ensures
        r@ == json_string(s@),
{
    match serde_json::to_string(s) {
        Ok(q) => q,
        Err(_) => String::new(),
    }
}

/// The identifiers as JSON strings, separated by commas.
pub open spec fn joined_ids(ids: Seq<String>) -> Seq<char>
    decreases ids.len(),
{
    if ids.len() == 0 {
        Seq::<char>::empty()
    } else if ids.len() == 1 {
        json_string(ids[0]@)
    } else {
        joined_ids(ids.drop_last()) + ","@ + json_string(ids.last()@)
    }
}

/// The frame that subscribes to `ids` on the market channel.
pub open spec fn subscription_frame(ids: Seq<String>) -> Seq<char> {
    "{\"type\":\"market\",\"assets_ids\":["@ + joined_ids(ids) + "]}"@
}

/// Writes the subscription frame `{"type":"market","assets_ids":[...]}`.
pub fn format_subscription(ids: &Vec<String>) -> (r: String)
    ensures
        r@ == subscription_frame(ids@),
{
    let mut out = String::from_str("{\"type\":\"market\",\"assets_ids\":[");
    let mut i: usize = 0;
    while i < ids.len()
        invariant
            i <= ids@.len(),
            out@ == "{\"type\":\"market\",\"assets_ids\":["@ + joined_ids(ids@.take(i as int)),
        decreases ids.len() - i,
    {
        assert(ids@.take(i + 1).drop_last() =~= ids@.take(i as int));
        assert(ids@.take(i + 1).last() == ids@[i as int]);
        if i > 0 {
            out.append(",");
        } else {
            assert(ids@.take(i as int) =~= Seq::<String>::empty());
            assert(ids@.take(1)[0] == ids@[0]);
        }
        let q = quote(ids[i].as_str());
        out.append(q.as_str());
        i = i + 1;
        assert(out@ =~= "{\"type\":\"market\",\"assets_ids\":["@ + joined_ids(ids@.take(i as int)));
    }
    assert(ids@.take(i as int) =~= ids@);
    out.append("]}");
    out
}

/// `j` is a market subscription whose identifiers are `ids`, in order.
pub open spec fn subscription_of(j: Json, ids: Seq<String>) -> bool {
    &&& text_member(j, "type"@) matches Some(t) && t@ == "market"@
    &&& array_member(j, "assets_ids"@) matches Some(items) && items.len() == ids.len()
        && forall|i: int| 0 <= i < items.len() ==> #[trigger] items[i] == Json::Str(ids[i])
}

/// `r` is what reading `j` as a subscription gives: its identifiers when
/// it is one, else `None`.
pub open spec fn read_back(j: Json, r: Option<Vec<String>>) -> bool {
    &&& r matches Some(ids) ==> subscription_of(j, ids@)
    &&& r is None ==> forall|ids: Seq<String>| !subscription_of(j, ids)
}

/// Reads the identifiers back out of a parsed subscription frame.
pub fn subscription_ids(j: &Json) -> (r: Option<Vec<String>>)
    ensures
        read_back(*j, r),
{
    let t = match j.get_text("type") {
        Some(t) => t,
        None => return None,
    };
    if !same_text(t.as_str(), "market") {
        return None;
    }
    let items = match j.get_array("assets_ids") {
        Some(items) => items,
        None => return None,
    };
    let mut ids: Vec<String> = Vec::new();
    let mut i: usize = 0;
    while i < items.len()
        invariant
            text_member(*j, "type"@) matches Some(t) && t@ == "market"@,
            array_member(*j, "assets_ids"@) == Some(items@),
            i <= items@.len(),
            ids@.len() == i,
            forall|k: int| 0 <= k < i ==> #[trigger] items@[k] == Json::Str(ids@[k]),
        decreases items.len() - i,
    {
        match &items[i] {
            Json::Str(s) => ids.push(s.clone()),
            _ => {
                assert forall|other: Seq<String>| !subscription_of(*j, other) by {
                    if subscription_of(*j, other) {
                        assert(items@[i as int] == Json::Str(other[i as int]));
                    }
                }
                return None;
            },
        }
        i = i + 1;
    }
    Some(ids)
}

/// Parses a subscription frame and reads its identifiers back.
pub fn parse_subscription(text: &str) -> (r: Option<Vec<String>>)
    ensures
        !json_accepts(text@) ==> r is None,
        json_accepts(text@) ==> read_back(json_tree(text@), r),
{
    match parse_json(text) {
        Some(j) => subscription_ids(&j),
        None => None,
    }
}

} // verus!
