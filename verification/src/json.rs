//! JSON values as the library reads them, parsed by `serde_json`.
use vstd::prelude::*;

use crate::floatbits::FloatBits;
use crate::text::eq_str;

verus! {

/// A JSON value. Numbers are carried by the bit pattern of their binary64
/// value; an object lists its members.
#[derive(Debug)]
pub enum JsonValue {
    Null,
    Bool(bool),
    Number(FloatBits),
    Str(String),
    Array(Vec<JsonValue>),
    Object(Vec<(String, JsonValue)>),
}

#[verifier::external_type_specification]
#[verifier::external_body]
pub struct ExSerdeJsonValue(serde_json::Value);

/// The value `serde_json` parses `text` into, or `None` where `text` is
/// not JSON.
pub uninterp spec fn json_of(text: Seq<char>) -> Option<JsonValue>;

/// Turns a `serde_json::Value` into the library's value, one for one:
/// each variant into its namesake, a number by its binary64 value
/// (`Number::as_f64`), arrays and objects member by member.
#[verifier::external_body]
fn from_serde(v: serde_json::Value) -> JsonValue {
    match v {
        serde_json::Value::Null => JsonValue::Null,
        serde_json::Value::Bool(b) => JsonValue::Bool(b),
        serde_json::Value::Number(n) => n.as_f64().map_or(JsonValue::Null, |x| JsonValue::Number(FloatBits { bits: x.to_bits() })),
        serde_json::Value::String(s) => JsonValue::Str(s),
        serde_json::Value::Array(a) => JsonValue::Array(a.into_iter().map(from_serde).collect()),
        serde_json::Value::Object(m) => JsonValue::Object(m.into_iter().map(|(k, x)| (k, from_serde(x))).collect()),
    }
}

/// Parses `text` with `serde_json::from_str` into a `serde_json::Value`.
/// The contract claims only that the result is a function of the text,
/// `json_of`, with `None` where `serde_json` reports an error.
#[verifier::external_body]
pub fn parse_json(text: &str) -> (r: Option<JsonValue>)
    ensures
        r == json_of(text@),
{
    match serde_json::from_str::<serde_json::Value>(text) {
        Ok(v) => Some(from_serde(v)),
        Err(_) => None,
    }
}

/// The value of the first member named `key`, or null where there is none.
pub open spec fn entry_lookup(entries: Seq<(String, JsonValue)>, key: Seq<char>) -> JsonValue
    decreases entries.len(),
{
    if entries.len() == 0 {
        JsonValue::Null
    } else if entries[0].0@ == key {
        entries[0].1
    } else {
        entry_lookup(entries.drop_first(), key)
    }
}

/// `value[key]`: the member `key` of an object, null for anything else.
pub open spec fn member(v: JsonValue, key: Seq<char>) -> JsonValue {
    match v {
        JsonValue::Object(entries) => entry_lookup(entries@, key),
        _ => JsonValue::Null,
    }
}

/// The lookup is decided by the first member with the key.
proof fn lemma_lookup_first(s: Seq<(String, JsonValue)>, key: Seq<char>, i: int)
    requires
        0 <= i <= s.len(),
        forall|j: int| 0 <= j < i ==> (#[trigger] s[j]).0@ != key,
        i < s.len() ==> s[i].0@ == key,
    ensures
        entry_lookup(s, key) == (if i < s.len() {
            s[i].1
        } else {
            JsonValue::Null
        }),
    decreases i,
{
    if s.len() > 0 && i > 0 {
        assert(s[0].0@ != key);
        let t = s.drop_first();
        assert forall|j: int| 0 <= j < i - 1 implies (#[trigger] t[j]).0@ != key by {
            assert(t[j] == s[j + 1]);
        }
        lemma_lookup_first(t, key, i - 1);
    }
}

/// Removing a member with another name leaves a lookup unchanged.
proof fn lemma_lookup_remove(s: Seq<(String, JsonValue)>, i: int, key: Seq<char>)
    requires
        0 <= i < s.len(),
        s[i].0@ != key,
    ensures
        entry_lookup(s.remove(i), key) == entry_lookup(s, key),
    decreases i,
{
    if i > 0 {
        let r = s.remove(i);
        assert(r[0] == s[0]);
        if s[0].0@ != key {
            assert(r.drop_first() =~= s.drop_first().remove(i - 1));
            lemma_lookup_remove(s.drop_first(), i - 1, key);
        }
    } else {
        assert(s.remove(0) =~= s.drop_first());
    }
}

/// Takes the first member named `key` out of `entries` (null where there
/// is none); lookups of every other name are unchanged.
pub fn take_entry(entries: &mut Vec<(String, JsonValue)>, key: &str) -> (r: JsonValue)
    ensures
        r == entry_lookup(old(entries)@, key@),
        forall|k: Seq<char>|
            k != key@ ==> #[trigger] entry_lookup(final(entries)@, k) == entry_lookup(
                old(entries)@,
                k,
            ),
{
    let mut i: usize = 0;
    while i < entries.len()
        invariant
            i <= entries@.len(),
            entries@ == old(entries)@,
            forall|j: int| 0 <= j < i ==> (#[trigger] entries@[j]).0@ != key@,
        decreases entries@.len() - i,
    {
        if eq_str(&entries[i].0, key) {
            proof {
                lemma_lookup_first(entries@, key@, i as int);
                assert forall|k: Seq<char>| k != key@ implies #[trigger] entry_lookup(
                    entries@.remove(i as int),
                    k,
                ) == entry_lookup(entries@, k) by {
                    lemma_lookup_remove(entries@, i as int, k);
                }
            }
            let (_, v) = entries.remove(i);
            return v;
        }
        i = i + 1;
    }
    proof {
        lemma_lookup_first(entries@, key@, i as int);
    }
    JsonValue::Null
}

/// Takes the member `key` out of `v` where `v` is an object (null
/// otherwise); `member` of every other name is unchanged.
pub fn take_member(v: &mut JsonValue, key: &str) -> (r: JsonValue)
    ensures
        r == member(*old(v), key@),
        forall|k: Seq<char>|
            k != key@ ==> #[trigger] member(*final(v), k) == member(*old(v), k),
{
    match v {
        JsonValue::Object(entries) => take_entry(entries, key),
        _ => JsonValue::Null,
    }
}

} // verus!
