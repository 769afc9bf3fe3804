//! A JSON document model holding what the prober reads of a server's answer.
use vstd::prelude::*;

verus! {

/// A JSON number, distinguished the way the parser sorts it: a non-negative
/// integer, a negative integer, or any other number (whose value the prober
/// never reads).
#[derive(Debug, Clone, Copy, PartialEq, Eq)]
pub enum JsonNumber {
    PosInt(u64),
    NegInt(i64),
    Float,
}

/// A JSON value. Objects keep their members in order; a key is looked up by
/// its first occurrence.
#[derive(Debug)]
pub enum JsonValue {
    Null,
    Bool(bool),
    Number(JsonNumber),
    String(String),
    Array(Vec<JsonValue>),
    Object(Vec<(String, JsonValue)>),
}

/// A JSON value seen as mathematical data.
pub enum JsonView {
    Null,
    Bool(bool),
    Number(JsonNumber),
    Str(Seq<char>),
    Array(Seq<JsonView>),
    Object(Seq<(Seq<char>, JsonView)>),
}

impl JsonValue {
    /// This value as mathematical data.
    pub open spec fn view_json(self) -> JsonView
        decreases self,
    {
        match self {
            JsonValue::Null => JsonView::Null,
            JsonValue::Bool(b) => JsonView::Bool(b),
            JsonValue::Number(n) => JsonView::Number(n),
            JsonValue::String(s) => JsonView::Str(s@),
            JsonValue::Array(items) => JsonView::Array(
                Seq::new(
                    items@.len(),
                    |i: int|
                        if 0 <= i < items@.len() {
                            items@[i].view_json()
                        } else {
                            JsonView::Null
                        },
                ),
            ),
            JsonValue::Object(entries) => JsonView::Object(
                Seq::new(
                    entries@.len(),
                    |i: int|
                        if 0 <= i < entries@.len() {
                            (entries@[i].0@, entries@[i].1.view_json())
                        } else {
                            (Seq::empty(), JsonView::Null)
                        },
                ),
            ),
        }
    }
}

/// The value behind a possibly absent reference.
pub open spec fn deref_opt(v: Option<&JsonValue>) -> Option<JsonValue> {
    match v {
        Some(x) => Some(*x),
        None => None,
    }
}

/// The value stored under `key` in the members `entries`, first occurrence first.
pub open spec fn lookup(entries: Seq<(String, JsonValue)>, key: Seq<char>) -> Option<JsonValue>
    decreases entries.len(),
{
    if entries.len() == 0 {
        None
    } else if entries[0].0@ == key {
        Some(entries[0].1)
    } else {
        lookup(entries.drop_first(), key)
    }
}

/// `v.get(key)`: the member `key` of an object; nothing for any other value.
pub open spec fn spec_get(v: JsonValue, key: Seq<char>) -> Option<JsonValue> {
    match v {
        JsonValue::Object(entries) => lookup(entries@, key),
        _ => None,
    }
}

/// Navigation through a possibly absent value: the member `key`, absent when
/// the value is absent, not an object, or has no such member.
pub open spec fn spec_member(v: Option<JsonValue>, key: Seq<char>) -> Option<JsonValue> {
    match v {
        Some(x) => spec_get(x, key),
        None => None,
    }
}

/// Navigation through a possibly absent value: the element at `index` of an
/// array, absent otherwise.
pub open spec fn spec_element(v: Option<JsonValue>, index: int) -> Option<JsonValue> {
    match v {
        Some(JsonValue::Array(items)) => if 0 <= index < items@.len() {
            Some(items@[index])
        } else {
            None
        },
        _ => None,
    }
}

/// The text of a string value.
pub open spec fn spec_as_str(v: Option<JsonValue>) -> Option<Seq<char>> {
    match v {
        Some(JsonValue::String(s)) => Some(s@),
        _ => None,
    }
}

/// The length of an array value.
pub open spec fn spec_array_len(v: Option<JsonValue>) -> Option<nat> {
    match v {
        Some(JsonValue::Array(items)) => Some(items@.len()),
        _ => None,
    }
}

/// The value of a number that is a non-negative integer.
pub open spec fn spec_as_u64(v: Option<JsonValue>) -> Option<u64> {
    match v {
        Some(JsonValue::Number(JsonNumber::PosInt(n))) => Some(n),
        _ => None,
    }
}

fn find_member<'a>(entries: &'a Vec<(String, JsonValue)>, key: &str) -> (res: Option<&'a JsonValue>)
    ensures
        match res {
            Some(r) => lookup(entries@, key@) == Some(*r),
            None => lookup(entries@, key@) is None,
        },
{
    let wanted: String = key.to_owned();
    let mut i: usize = 0;
    assert(entries@.skip(0) =~= entries@);
    while i < entries.len()
        invariant
            i <= entries@.len(),
            wanted@ == key@,
            lookup(entries@, key@) == lookup(entries@.skip(i as int), key@),
        decreases entries@.len() - i,
    {
        let ghost rest = entries@.skip(i as int);
        assert(rest.drop_first() =~= entries@.skip(i + 1));
        if entries[i].0 == wanted {
            return Some(&entries[i].1);
        }
        i = i + 1;
    }
    None
}

impl JsonValue {
    /// The member `key` of this value if it is an object holding that key.
    pub fn get(&self, key: &str) -> (res: Option<&JsonValue>)
        ensures
            match res {
                Some(r) => spec_get(*self, key@) == Some(*r),
                None => spec_get(*self, key@) is None,
            },
    {
        match self {
            JsonValue::Object(entries) => find_member(entries, key),
            _ => None,
        }
    }

    /// The text of this value if it is a string.
    pub fn as_str(&self) -> (res: Option<&str>)
        ensures
            match res {
                Some(s) => spec_as_str(Some(*self)) == Some(s@),
                None => spec_as_str(Some(*self)) is None,
            },
    {
        match self {
            JsonValue::String(s) => Some(s.as_str()),
            _ => None,
        }
    }

    /// The value of this number if it is a non-negative integer.
    pub fn as_u64(&self) -> (res: Option<u64>)
        ensures
            res == spec_as_u64(Some(*self)),
    {
        match self {
            JsonValue::Number(JsonNumber::PosInt(n)) => Some(*n),
            _ => None,
        }
    }
}

/// The member `key` of a possibly absent value.
pub fn member<'a>(v: Option<&'a JsonValue>, key: &str) -> (res: Option<&'a JsonValue>)
    ensures
        match res {
            Some(r) => spec_member(deref_opt(v), key@) == Some(*r),
            None => spec_member(deref_opt(v), key@) is None,
        },
{
    match v {
        Some(x) => x.get(key),
        None => None,
    }
}

/// The element at `index` of a possibly absent value.
pub fn element<'a>(v: Option<&'a JsonValue>, index: usize) -> (res: Option<&'a JsonValue>)
    ensures
        match res {
            Some(r) => spec_element(deref_opt(v), index as int) == Some(*r),
            None => spec_element(deref_opt(v), index as int) is None,
        },
{
    match v {
        Some(JsonValue::Array(items)) => if index < items.len() {
            Some(&items[index])
        } else {
            None
        },
        _ => None,
    }
}

/// Looking up a key finds a member with that key, the first one, and finds
/// nothing exactly when no member has the key.
pub proof fn law_lookup_first(entries: Seq<(String, JsonValue)>, key: Seq<char>)
    ensures
        lookup(entries, key) is None <==> (forall|i: int| 0 <= i < entries.len() ==> #[trigger] entries[i].0@ != key),
        lookup(entries, key) is Some ==> exists|i: int|
            0 <= i < entries.len() && #[trigger] entries[i].0@ == key && lookup(entries, key) == Some(entries[i].1)
                && (forall|j: int| 0 <= j < i ==> #[trigger] entries[j].0@ != key),
    decreases entries.len(),
{
    if entries.len() > 0 {
        let rest = entries.drop_first();
        law_lookup_first(rest, key);
        if entries[0].0@ == key {
            assert(0 <= 0 < entries.len() && entries[0].0@ == key);
        } else {
            assert forall|i: int| 0 <= i < rest.len() implies #[trigger] rest[i] == entries[i + 1] by {}
            if lookup(rest, key) is Some {
                let i = choose|i: int|
                    0 <= i < rest.len() && #[trigger] rest[i].0@ == key && lookup(rest, key) == Some(rest[i].1)
                        && (forall|j: int| 0 <= j < i ==> #[trigger] rest[j].0@ != key);
                assert(entries[i + 1].0@ == key);
                assert forall|j: int| 0 <= j < i + 1 implies #[trigger] entries[j].0@ != key by {
                    if j > 0 {
                        assert(rest[j - 1] == entries[j]);
                    }
                }
            } else {
                assert forall|i: int| 0 <= i < entries.len() implies #[trigger] entries[i].0@ != key by {
                    if i > 0 {
                        assert(rest[i - 1] == entries[i]);
                    }
                }
            }
        }
    }
}

} // verus!
