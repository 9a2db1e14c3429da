//! Structured values: the dynamically typed trees in which arguments arrive
//! and results leave.

use crate::order::{
    comes_before, lemma_text_before_irreflexive, lemma_text_before_total,
    lemma_text_before_transitive, same_text, text_before,
};
use vstd::prelude::*;

verus! {

/// A number as `serde_json` holds it. A number with a fraction or an exponent
/// is carried in this form and never opened here.
#[verifier::external_type_specification]
#[verifier::external_body]
pub struct ExNumber(serde_json::Number);

/// `Clone::clone` of `serde_json::Number`, which is derived: the copy is the
/// number it was made from.
pub assume_specification[ <serde_json::Number as Clone>::clone ](
    n: &serde_json::Number,
) -> (r: serde_json::Number)
    ensures
        r == *n,
;

/// What a number is: an integer, or a floating-point number.
pub enum NumberModel {
    Int(int),
    Float(serde_json::Number),
}

/// What a structured value is. The entries of an object are listed by key.
pub enum JsonModel {
    Null,
    Bool(bool),
    Number(NumberModel),
    String(Seq<char>),
    Array(Seq<JsonModel>),
    Object(Seq<(Seq<char>, JsonModel)>),
}

/// The keys of `entries` stand in strictly increasing order, so that no key
/// occurs twice.
pub open spec fn keys_sorted(entries: Seq<(Seq<char>, JsonModel)>) -> bool {
    forall|i: int, j: int|
        0 <= i < j < entries.len() ==> text_before(#[trigger] entries[i].0, #[trigger] entries[j].0)
}

/// Whether some entry has the key.
pub open spec fn has_key(entries: Seq<(Seq<char>, JsonModel)>, key: Seq<char>) -> bool {
    exists|i: int| 0 <= i < entries.len() && (#[trigger] entries[i]).0 == key
}

/// A position at which the key stands, where an entry has it.
pub open spec fn index_of(entries: Seq<(Seq<char>, JsonModel)>, key: Seq<char>) -> int {
    choose|i: int| 0 <= i < entries.len() && (#[trigger] entries[i]).0 == key
}

/// The value under `key`, if an entry has that key.
pub open spec fn lookup(entries: Seq<(Seq<char>, JsonModel)>, key: Seq<char>) -> Option<
    JsonModel,
> {
    if has_key(entries, key) {
        Some(entries[index_of(entries, key)].1)
    } else {
        None
    }
}

/// The first position at or after `from` whose key does not come before
/// `key`; the length of `entries` if there is none.
pub open spec fn rank_from(entries: Seq<(Seq<char>, JsonModel)>, key: Seq<char>, from: int) -> int
    decreases entries.len() - from,
{
    if 0 <= from < entries.len() && text_before(entries[from].0, key) {
        rank_from(entries, key, from + 1)
    } else {
        from
    }
}

/// `entries` with `value` under `key`: in place of the entry that has the key,
/// or else at the position that keeps the keys in order.
pub open spec fn put(entries: Seq<(Seq<char>, JsonModel)>, key: Seq<char>, value: JsonModel) -> Seq<
    (Seq<char>, JsonModel),
> {
    let at = rank_from(entries, key, 0);
    if at < entries.len() && entries[at].0 == key {
        entries.update(at, (key, value))
    } else {
        entries.insert(at, (key, value))
    }
}

/// Where `rank_from` stops: every key from `from` up to there comes before
/// `key`, and the key there does not.
pub proof fn lemma_rank_from(entries: Seq<(Seq<char>, JsonModel)>, key: Seq<char>, from: int)
    requires
        0 <= from <= entries.len(),
    ensures
        from <= rank_from(entries, key, from) <= entries.len(),
        forall|j: int|
            from <= j < rank_from(entries, key, from) ==> text_before(
                (#[trigger] entries[j]).0,
                key,
            ),
        rank_from(entries, key, from) < entries.len() ==> !text_before(
            entries[rank_from(entries, key, from)].0,
            key,
        ),
    decreases entries.len() - from,
{
    if from < entries.len() && text_before(entries[from].0, key) {
        lemma_rank_from(entries, key, from + 1);
    }
}

/// In sorted entries a key stands at one position at most.
pub proof fn lemma_sorted_keys_distinct(entries: Seq<(Seq<char>, JsonModel)>, i: int, j: int)
    requires
        keys_sorted(entries),
        0 <= i < entries.len(),
        0 <= j < entries.len(),
        entries[i].0 == entries[j].0,
    ensures
        i == j,
{
    lemma_text_before_irreflexive(entries[i].0);
}

/// In sorted entries, `lookup` finds the value that stands beside the key.
pub proof fn lemma_lookup_at(entries: Seq<(Seq<char>, JsonModel)>, i: int)
    requires
        keys_sorted(entries),
        0 <= i < entries.len(),
    ensures
        lookup(entries, entries[i].0) == Some(entries[i].1),
{
    let key = entries[i].0;
    assert(has_key(entries, key));
    lemma_sorted_keys_distinct(entries, index_of(entries, key), i);
}

/// `put` keeps the keys in order.
pub proof fn lemma_put_sorted(
    entries: Seq<(Seq<char>, JsonModel)>,
    key: Seq<char>,
    value: JsonModel,
)
    requires
        keys_sorted(entries),
    ensures
        keys_sorted(put(entries, key, value)),
{
    let at = rank_from(entries, key, 0);
    lemma_rank_from(entries, key, 0);
    let result = put(entries, key, value);
    if at < entries.len() && entries[at].0 == key {
        assert forall|i: int, j: int| 0 <= i < j < result.len() implies text_before(
            #[trigger] result[i].0,
            #[trigger] result[j].0,
        ) by {
            assert(result[i].0 == entries[i].0);
            assert(result[j].0 == entries[j].0);
        }
    } else {
        assert forall|j: int| at <= j < entries.len() implies text_before(
            key,
            (#[trigger] entries[j]).0,
        ) by {
            lemma_text_before_total(key, entries[at].0);
            if at < j {
                lemma_text_before_transitive(key, entries[at].0, entries[j].0);
            }
        }
        assert forall|i: int, j: int| 0 <= i < j < result.len() implies text_before(
            #[trigger] result[i].0,
            #[trigger] result[j].0,
        ) by {
            if j < at {
                assert(result[i] == entries[i] && result[j] == entries[j]);
            } else if j == at {
                assert(result[i] == entries[i]);
            } else if i < at {
                assert(result[i] == entries[i] && result[j] == entries[j - 1]);
            } else if i == at {
                assert(result[j] == entries[j - 1]);
            } else {
                assert(result[i] == entries[i - 1] && result[j] == entries[j - 1]);
            }
        }
    }
}

/// After `put`, the key leads to the new value and every other key to what
/// it led to before.
pub proof fn lemma_put_lookup(
    entries: Seq<(Seq<char>, JsonModel)>,
    key: Seq<char>,
    value: JsonModel,
    other: Seq<char>,
)
    requires
        keys_sorted(entries),
    ensures
        lookup(put(entries, key, value), other) == if other == key {
            Some(value)
        } else {
            lookup(entries, other)
        },
{
    let at = rank_from(entries, key, 0);
    lemma_rank_from(entries, key, 0);
    let result = put(entries, key, value);
    lemma_put_sorted(entries, key, value);
    let replaced = at < entries.len() && entries[at].0 == key;
    assert(result[at] == (key, value));
    if other == key {
        lemma_lookup_at(result, at);
    } else if has_key(entries, other) {
        let i = index_of(entries, other);
        lemma_lookup_at(entries, i);
        let k = if replaced || i < at {
            i
        } else {
            i + 1
        };
        assert(result[k] == entries[i]);
        lemma_lookup_at(result, k);
    } else {
        if has_key(result, other) {
            let k = index_of(result, other);
            let i = if replaced || k < at {
                k
            } else {
                k - 1
            };
            assert(result[k] == entries[i]);
            assert(false);
        }
    }
}

/// Sorted entries under whose keys the same values are found agree up to
/// any position that one of them has.
pub proof fn lemma_same_lookup_same_entry(
    a: Seq<(Seq<char>, JsonModel)>,
    b: Seq<(Seq<char>, JsonModel)>,
    i: int,
)
    requires
        keys_sorted(a),
        keys_sorted(b),
        forall|key: Seq<char>| lookup(a, key) == lookup(b, key),
        0 <= i < a.len(),
    ensures
        i < b.len(),
        a[i] == b[i],
    decreases i,
{
    assert forall|m: int| 0 <= m < i implies m < b.len() && a[m] == b[m] by {
        lemma_same_lookup_same_entry(a, b, m);
    }
    let key = a[i].0;
    lemma_lookup_at(a, i);
    assert(has_key(b, key));
    let j = index_of(b, key);
    lemma_lookup_at(b, j);
    if j < i {
        lemma_sorted_keys_distinct(a, j, i);
    } else if j > i {
        let other = b[i].0;
        lemma_lookup_at(b, i);
        assert(has_key(a, other));
        let m = index_of(a, other);
        if m < i {
            lemma_sorted_keys_distinct(b, m, i);
        } else if m == i {
            lemma_text_before_irreflexive(key);
        } else {
            lemma_text_before_transitive(key, other, key);
            lemma_text_before_irreflexive(key);
        }
    }
}

/// An object is what its keys lead to: sorted entries under whose keys the
/// same values are found are the same entries.
pub proof fn lemma_entries_determined_by_lookup(
    a: Seq<(Seq<char>, JsonModel)>,
    b: Seq<(Seq<char>, JsonModel)>,
)
    requires
        keys_sorted(a),
        keys_sorted(b),
        forall|key: Seq<char>| lookup(a, key) == lookup(b, key),
    ensures
        a == b,
{
    if a.len() > 0 {
        lemma_same_lookup_same_entry(a, b, a.len() - 1);
    }
    if b.len() > 0 {
        lemma_same_lookup_same_entry(b, a, b.len() - 1);
    }
    assert forall|i: int| 0 <= i < a.len() implies a[i] == b[i] by {
        lemma_same_lookup_same_entry(a, b, i);
    }
    assert(a =~= b);
}

/// A number of a structured value.
///
/// An integer from zero up is `PosInt`, one below zero is `NegInt`; the
/// constructors keep to that, and nothing goes wrong where a value does not.
#[derive(Debug, PartialEq)]
pub enum JsonNumber {
    /// An integer from zero up.
    PosInt(u64),
    /// An integer below zero.
    NegInt(i64),
    /// A number with a fraction or an exponent, as `serde_json` holds it.
    Float(serde_json::Number),
}

/// A structured value.
#[derive(Debug, PartialEq)]
pub enum JsonValue {
    Null,
    Bool(bool),
    Number(JsonNumber),
    String(String),
    Array(Vec<JsonValue>),
    Object(JsonObject),
}

/// The entries of an object: one value under each key, kept in the order of
/// the keys.
#[derive(Debug, PartialEq)]
pub struct JsonObject {
    entries: Vec<(String, JsonValue)>,
}

impl JsonNumber {
    pub open spec fn model(&self) -> NumberModel {
        match self {
            JsonNumber::PosInt(u) => NumberModel::Int(*u as int),
            JsonNumber::NegInt(i) => NumberModel::Int(*i as int),
            JsonNumber::Float(n) => NumberModel::Float(*n),
        }
    }

    /// The number that `serde_json` holds as `number`, from what its `as_u64`
    /// and its `as_i64` give for it: the integer that either gives, and
    /// else the number itself, which then is no integer.
    pub fn from_parts(unsigned: Option<u64>, signed: Option<i64>, number: serde_json::Number) -> (r:
        Self)
        ensures
            r == (match (unsigned, signed) {
                (Some(u), _) => JsonNumber::PosInt(u),
                (None, Some(i)) => JsonNumber::NegInt(i),
                (None, None) => JsonNumber::Float(number),
            }),
    {
        match unsigned {
            Some(u) => JsonNumber::PosInt(u),
            None => match signed {
                Some(i) => JsonNumber::NegInt(i),
                None => JsonNumber::Float(number),
            },
        }
    }

    /// The number that holds the integer `i`.
    pub fn from_i64(i: i64) -> (r: Self)
        ensures
            r.model() == NumberModel::Int(i as int),
            r == (if i < 0 {
                JsonNumber::NegInt(i)
            } else {
                JsonNumber::PosInt(i as u64)
            }),
    {
        if i < 0 {
            JsonNumber::NegInt(i)
        } else {
            JsonNumber::PosInt(i as u64)
        }
    }
}

impl JsonValue {
    pub open spec fn model(&self) -> JsonModel
        decreases self, 2nat,
    {
        match self {
            JsonValue::Null => JsonModel::Null,
            JsonValue::Bool(b) => JsonModel::Bool(*b),
            JsonValue::Number(n) => JsonModel::Number(n.model()),
            JsonValue::String(s) => JsonModel::String(s@),
            JsonValue::Array(items) => JsonModel::Array(items_model(items)),
            JsonValue::Object(o) => JsonModel::Object(o.model()),
        }
    }

    /// The value under `key` where this value is an object that has the key.
    pub fn get(&self, key: &str) -> (r: Option<&JsonValue>)
        ensures
            match self.model() {
                JsonModel::Object(entries) => match r {
                    Some(v) => lookup(entries, key@) == Some(v.model()),
                    None => lookup(entries, key@) is None,
                },
                _ => r is None,
            },
    {
        match self {
            JsonValue::Object(o) => o.get(key),
            _ => None,
        }
    }

    /// The value that holds the integer `i`.
    pub fn from_i64(i: i64) -> (r: Self)
        ensures
            r.model() == JsonModel::Number(NumberModel::Int(i as int)),
    {
        JsonValue::Number(JsonNumber::from_i64(i))
    }

    /// The value that holds the integer `u`.
    pub fn from_u64(u: u64) -> (r: Self)
        ensures
            r.model() == JsonModel::Number(NumberModel::Int(u as int)),
    {
        JsonValue::Number(JsonNumber::PosInt(u))
    }

    /// The value that holds the text `s`.
    pub fn text(s: &str) -> (r: Self)
        ensures
            r.model() == JsonModel::String(s@),
    {
        JsonValue::String(String::from_str(s))
    }
}

/// What the items of an array are, one by one.
pub open spec fn items_model(items: &Vec<JsonValue>) -> Seq<JsonModel>
    decreases items, 0nat,
{
    Seq::new(
        items@.len(),
        |i: int|
            if 0 <= i < items@.len() {
                items[i].model()
            } else {
                JsonModel::Null
            },
    )
}

/// What the entries of an object are, one by one.
pub open spec fn entries_model(entries: &Vec<(String, JsonValue)>) -> Seq<(Seq<char>, JsonModel)>
    decreases entries, 0nat,
{
    Seq::new(
        entries@.len(),
        |i: int|
            if 0 <= i < entries@.len() {
                (entries[i].0@, entries[i].1.model())
            } else {
                (Seq::empty(), JsonModel::Null)
            },
    )
}

impl JsonObject {
    /// The entries, by key.
    pub closed spec fn model(&self) -> Seq<(Seq<char>, JsonModel)>
        decreases self, 1nat,
    {
        entries_model(&self.entries)
    }

    #[verifier::type_invariant]
    spec fn ordered(&self) -> bool {
        keys_sorted(self.model())
    }

    /// An object without entries.
    pub fn new() -> (r: Self)
        ensures
            r.model() == Seq::<(Seq<char>, JsonModel)>::empty(),
            keys_sorted(r.model()),
    {
        let r = JsonObject { entries: Vec::new() };
        assert(r.model() =~= Seq::<(Seq<char>, JsonModel)>::empty());
        r
    }

    /// The number of entries.
    pub fn len(&self) -> (n: usize)
        ensures
            n == self.model().len(),
            keys_sorted(self.model()),
    {
        proof {
            use_type_invariant(self);
        }
        self.entries.len()
    }

    /// The key of the entry at `index`, counted in the order of the keys.
    pub fn key_at(&self, index: usize) -> (r: &String)
        requires
            index < self.model().len(),
        ensures
            r@ == self.model()[index as int].0,
    {
        &self.entries[index].0
    }

    /// The value of the entry at `index`, counted in the order of the keys.
    pub fn value_at(&self, index: usize) -> (r: &JsonValue)
        requires
            index < self.model().len(),
        ensures
            r.model() == self.model()[index as int].1,
            decreases_to!(self => r),
    {
        &self.entries[index].1
    }

    /// Puts `value` under `key`. An entry that has the key gives way to it:
    /// an object holds one value under a key.
    pub fn insert(&mut self, key: String, value: JsonValue)
        ensures
            final(self).model() == put(old(self).model(), key@, value.model()),
            keys_sorted(final(self).model()),
    {
        proof {
            use_type_invariant(&*self);
        }
        let ghost before = self.model();
        let ghost added = (key@, value.model());
        let mut entries: Vec<(String, JsonValue)> = Vec::new();
        core::mem::swap(&mut self.entries, &mut entries);
        assert(entries_model(&entries) =~= before);
        let n = entries.len();
        let mut at: usize = 0;
        while at < n && comes_before(entries[at].0.as_str(), key.as_str())
            invariant
                n == entries@.len(),
                before == entries_model(&entries),
                0 <= at <= n,
                rank_from(before, key@, at as int) == rank_from(before, key@, 0),
            decreases n - at,
        {
            at = at + 1;
        }
        proof {
            lemma_put_sorted(before, key@, value.model());
        }
        if at < n && same_text(entries[at].0.as_str(), key.as_str()) {
            entries.set(at, (key, value));
            assert(entries_model(&entries) =~= before.update(at as int, added));
        } else {
            entries.insert(at, (key, value));
            assert(entries_model(&entries) =~= before.insert(at as int, added));
        }
        core::mem::swap(&mut self.entries, &mut entries);
    }

    /// The value under `key`, if an entry has that key.
    pub fn get(&self, key: &str) -> (r: Option<&JsonValue>)
        ensures
            match r {
                Some(v) => lookup(self.model(), key@) == Some(v.model()),
                None => lookup(self.model(), key@) is None,
            },
    {
        proof {
            use_type_invariant(self);
        }
        let n = self.entries.len();
        let mut at: usize = 0;
        while at < n
            invariant
                n == self.entries@.len(),
                0 <= at <= n,
                keys_sorted(self.model()),
                forall|j: int| 0 <= j < at ==> (#[trigger] self.model()[j]).0 != key@,
            decreases n - at,
        {
            if same_text(self.entries[at].0.as_str(), key) {
                proof {
                    lemma_lookup_at(self.model(), at as int);
                }
                return Some(&self.entries[at].1);
            }
            at = at + 1;
        }
        None
    }
}

} // verus!
