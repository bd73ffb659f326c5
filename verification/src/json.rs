//! JSON text: how strings are written into it and how members are read
//! out of it, both left to `serde_json`.
use crate::text::{chars_of, extend_chars, strings};
use vstd::prelude::*;

verus! {

/// A JSON value as `serde_json` holds it.
#[verifier::external_type_specification]
#[verifier::external_body]
pub struct ExValue(serde_json::Value);

/// How the JSON text format writes a string: between double quotes, with
/// quotes, backslashes and control characters escaped.
pub uninterp spec fn json_quoted(text: Seq<char>) -> Seq<char>;

/// Writes a string as JSON text with `serde_json`. The result depends on
/// the string alone; it is named, not spelled out.
#[verifier::external_body]
pub(crate) fn json_string(text: &str) -> (r: String)
    ensures
        r@ == json_quoted(text@),
{
    serde_json::Value::String(text.to_owned()).to_string()
}

/// The members of a JSON object that hold a string, each under its key.
/// A value that is no object has none.
pub uninterp spec fn string_members(value: serde_json::Value) -> Map<Seq<char>, Seq<char>>;

/// What a text holds as JSON: nothing where the text is no JSON, else the
/// string members of the value that it writes.
pub uninterp spec fn parsed_members(text: Seq<char>) -> Option<Map<Seq<char>, Seq<char>>>;

/// The text under a key, where there is one.
pub open spec fn member_of(members: Map<Seq<char>, Seq<char>>, key: Seq<char>) -> Option<
    Seq<char>,
> {
    if members.contains_key(key) {
        Some(members[key])
    } else {
        None
    }
}

/// Reads a text as JSON with `serde_json::from_str`; a text that is no
/// JSON gives nothing. The value read depends on the text alone; its
/// string members are named, not spelled out.
#[verifier::external_body]
pub(crate) fn json_parse(text: &str) -> (r: Option<serde_json::Value>)
    ensures
        match r {
            Some(v) => parsed_members(text@) == Some(string_members(v)),
            None => parsed_members(text@) is None,
        },
{
    match serde_json::from_str::<serde_json::Value>(text) {
        Ok(v) => Some(v),
        Err(_) => None,
    }
}

/// Looks a member up with `serde_json::Value::get` and hands it out where
/// it is a string: the member of an object under the key, nothing else.
#[verifier::external_body]
pub(crate) fn json_member(value: &serde_json::Value, key: &str) -> (r: Option<String>)
    ensures
        match r {
            Some(s) => member_of(string_members(*value), key@) == Some(s@),
            None => member_of(string_members(*value), key@) is None,
        },
{
    match value.get(key) {
        Some(serde_json::Value::String(s)) => Some(s.clone()),
        _ => None,
    }
}

/// The items as JSON strings, with commas between them.
pub open spec fn quoted_items(items: Seq<Seq<char>>) -> Seq<char>
    decreases items.len(),
{
    if items.len() == 0 {
        Seq::empty()
    } else if items.len() == 1 {
        json_quoted(items[0])
    } else {
        quoted_items(items.drop_last()) + ","@ + json_quoted(items.last())
    }
}

/// Appends the items as JSON strings, with commas between them.
pub(crate) fn put_quoted_items(out: &mut Vec<char>, items: &Vec<String>)
    ensures
        final(out)@ == old(out)@ + quoted_items(strings(items@)),
{
    let mut i: usize = 0;
    assert(strings(items@).take(0) =~= Seq::<Seq<char>>::empty());
    while i < items.len()
        invariant
            i <= items.len(),
            out@ == old(out)@ + quoted_items(strings(items@).take(i as int)),
        decreases items.len() - i,
    {
        let ghost done = strings(items@).take(i as int);
        if i > 0 {
            out.push(',');
        }
        let q = json_string(items[i].as_str());
        let qc = chars_of(q.as_str());
        extend_chars(out, &qc);
        i += 1;
        proof {
            reveal_strlit(",");
        }
        assert(strings(items@).take(i as int) == done.push(items@[i - 1]@));
        assert(done.push(items@[i - 1]@).drop_last() == done);
        assert(","@ == seq![',']);
    }
    assert(strings(items@).take(items.len() as int) == strings(items@));
}

} // verus!
