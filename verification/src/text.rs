//! The canonical text of a structured value: compact, with the entries of
//! an object in the order of their keys.

use crate::value::{items_model, JsonModel, JsonNumber, JsonObject, JsonValue, NumberModel};
use vstd::prelude::*;

verus! {

/// The text in which `serde_json` prints a number.
pub uninterp spec fn number_text(n: NumberModel) -> Seq<char>;

/// The text in which `serde_json` prints a string: between double quotes,
/// with the characters escaped that the format does not take as they are.
pub uninterp spec fn string_text(s: Seq<char>) -> Seq<char>;

/// Wraps `to_string` of `serde_json::Number`: the text of the number, which
/// is made by `Number::from` where it is an integer.
#[verifier::external_body]
fn render_number(n: &JsonNumber) -> (r: String)
    ensures
        r@ == number_text(n.model()),
{
    match n {
        JsonNumber::PosInt(u) => serde_json::Number::from(*u).to_string(),
        JsonNumber::NegInt(i) => serde_json::Number::from(*i).to_string(),
        JsonNumber::Float(f) => f.to_string(),
    }
}

/// Wraps `to_string` of `serde_json::Value` on a string value: the text of
/// the string.
#[verifier::external_body]
fn render_string(s: &str) -> (r: String)
    ensures
        r@ == string_text(s@),
{
    serde_json::Value::from(s).to_string()
}

/// The canonical text of a value.
pub open spec fn canonical_text(v: JsonModel) -> Seq<char>
    decreases v, 0nat,
{
    match v {
        JsonModel::Null => "null"@,
        JsonModel::Bool(b) => if b {
            "true"@
        } else {
            "false"@
        },
        JsonModel::Number(n) => number_text(n),
        JsonModel::String(s) => string_text(s),
        JsonModel::Array(items) => "["@ + items_text(items, items.len()) + "]"@,
        JsonModel::Object(entries) => "{"@ + entries_text(entries, entries.len()) + "}"@,
    }
}

/// The texts of the first `n` items, with a comma between two of them.
pub open spec fn items_text(items: Seq<JsonModel>, n: nat) -> Seq<char>
    decreases items, n,
{
    if n == 0 || n > items.len() {
        Seq::empty()
    } else if n == 1 {
        canonical_text(items[0])
    } else {
        items_text(items, (n - 1) as nat) + ","@ + canonical_text(items[n - 1])
    }
}

/// The text of one entry: the key, a colon, the value.
pub open spec fn entry_text(entries: Seq<(Seq<char>, JsonModel)>, i: int) -> Seq<char>
    recommends
        0 <= i < entries.len(),
    decreases entries, 0nat,
{
    if 0 <= i < entries.len() {
        string_text(entries[i].0) + ":"@ + canonical_text(entries[i].1)
    } else {
        Seq::empty()
    }
}

/// The texts of the first `n` entries, with a comma between two of them.
pub open spec fn entries_text(entries: Seq<(Seq<char>, JsonModel)>, n: nat) -> Seq<char>
    decreases entries, n + 1,
{
    if n == 0 || n > entries.len() {
        Seq::empty()
    } else if n == 1 {
        entry_text(entries, 0)
    } else {
        entries_text(entries, (n - 1) as nat) + ","@ + entry_text(entries, n - 1)
    }
}

/// The canonical text of a value.
pub fn to_text(v: &JsonValue) -> (r: String)
    ensures
        r@ == canonical_text(v.model()),
    decreases v, 0nat,
{
    match v {
        JsonValue::Null => String::from_str("null"),
        JsonValue::Bool(b) => if *b {
            String::from_str("true")
        } else {
            String::from_str("false")
        },
        JsonValue::Number(n) => render_number(n),
        JsonValue::String(s) => render_string(s.as_str()),
        JsonValue::Array(items) => {
            let mut r = String::from_str("[");
            let body = items_to_text(items, items.len());
            r.append(body.as_str());
            r.append("]");
            r
        },
        JsonValue::Object(o) => {
            let mut r = String::from_str("{");
            let body = entries_to_text(o, o.len());
            r.append(body.as_str());
            r.append("}");
            r
        },
    }
}

fn items_to_text(items: &Vec<JsonValue>, n: usize) -> (r: String)
    requires
        n <= items@.len(),
    ensures
        r@ == items_text(items_model(items), n as nat),
    decreases items, n,
{
    if n == 0 {
        String::new()
    } else if n == 1 {
        to_text(&items[0])
    } else {
        let mut r = items_to_text(items, n - 1);
        r.append(",");
        let last = to_text(&items[n - 1]);
        r.append(last.as_str());
        r
    }
}

fn entry_to_text(o: &JsonObject, i: usize) -> (r: String)
    requires
        i < o.model().len(),
    ensures
        r@ == entry_text(o.model(), i as int),
    decreases o, 0nat,
{
    let mut r = render_string(o.key_at(i).as_str());
    r.append(":");
    let value = to_text(o.value_at(i));
    r.append(value.as_str());
    r
}

fn entries_to_text(o: &JsonObject, n: usize) -> (r: String)
    requires
        n <= o.model().len(),
    ensures
        r@ == entries_text(o.model(), n as nat),
    decreases o, n + 1,
{
    if n == 0 {
        String::new()
    } else if n == 1 {
        entry_to_text(o, 0)
    } else {
        let mut r = entries_to_text(o, n - 1);
        r.append(",");
        let last = entry_to_text(o, n - 1);
        r.append(last.as_str());
        r
    }
}

} // verus!
