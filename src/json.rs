//! A JSON document as the library reads and writes it: index responses come
//! in as this type, index request bodies go out as it.

use vstd::prelude::*;

verus! {

/// A JSON value. Integers that fit `i64` are held as such; any other number
/// keeps its decimal text.
pub enum JsonValue {
    Null,
    Bool(bool),
    Int(i64),
    OtherNumber(String),
    Str(String),
    Array(Vec<JsonValue>),
    Object(Vec<JsonMember>),
}

/// One `"key": value` member of an object.
pub struct JsonMember {
    pub key: String,
    pub value: JsonValue,
}

/// The value of the first member named `key` in `ms`.
pub open spec fn member_in(ms: Seq<JsonMember>, key: Seq<char>) -> Option<JsonValue>
    decreases ms.len(),
{
    if ms.len() == 0 {
        None
    } else if ms[0].key@ == key {
        Some(ms[0].value)
    } else {
        member_in(ms.drop_first(), key)
    }
}

impl JsonValue {
    /// The member named `key`, when `self` is an object that has one.
    pub open spec fn member(self, key: Seq<char>) -> Option<JsonValue> {
        match self {
            JsonValue::Object(ms) => member_in(ms@, key),
            _ => None,
        }
    }

    /// `self[key]`: the member named `key`, or `Null` where there is none.
    pub open spec fn at(self, key: Seq<char>) -> JsonValue {
        match self.member(key) {
            Some(v) => v,
            None => JsonValue::Null,
        }
    }

    /// The text of a string value.
    pub open spec fn str_value(self) -> Option<Seq<char>> {
        match self {
            JsonValue::Str(s) => Some(s@),
            _ => None,
        }
    }

    /// The elements of an array value.
    pub open spec fn elements(self) -> Option<Seq<JsonValue>> {
        match self {
            JsonValue::Array(v) => Some(v@),
            _ => None,
        }
    }

    /// The member named `key`, when `self` is an object that has one.
    pub fn get(&self, key: &str) -> (r: Option<&JsonValue>)
        ensures
            match r {
                Some(v) => self.member(key@) == Some(*v),
                None => self.member(key@) is None,
            },
    {
        match self {
            JsonValue::Object(ms) => {
                let mut i: usize = 0;
                assert(ms@.subrange(0, ms@.len() as int) =~= ms@);
                while i < ms.len()
                    invariant
                        i <= ms@.len(),
                        self.member(key@) == member_in(
                            ms@.subrange(i as int, ms@.len() as int),
                            key@,
                        ),
                    decreases ms@.len() - i,
                {
                    proof {
                        let rest = ms@.subrange(i as int, ms@.len() as int);
                        assert(rest.drop_first() =~= ms@.subrange(i + 1, ms@.len() as int));
                        assert(rest[0] == ms@[i as int]);
                    }
                    if crate::text::str_eq(ms[i].key.as_str(), key) {
                        assert(member_in(ms@.subrange(i as int, ms@.len() as int), key@) == Some(
                            ms@[i as int].value,
                        ));
                        return Some(&ms[i].value);
                    }
                    i = i + 1;
                }
                None
            }
            _ => None,
        }
    }

    /// The text of a string value.
    pub fn as_str(&self) -> (r: Option<&str>)
        ensures
            match r {
                Some(s) => self.str_value() == Some(s@),
                None => self.str_value() is None,
            },
    {
        match self {
            JsonValue::Str(s) => Some(s.as_str()),
            _ => None,
        }
    }

    /// The value of an integer that fits `i64`.
    pub fn as_i64(&self) -> (r: Option<i64>)
        ensures
            r == (match *self {
                JsonValue::Int(n) => Some(n),
                _ => None::<i64>,
            }),
    {
        match self {
            JsonValue::Int(n) => Some(*n),
            _ => None,
        }
    }

    /// The elements of an array value.
    pub fn as_array(&self) -> (r: Option<&Vec<JsonValue>>)
        ensures
            match r {
                Some(v) => self.elements() == Some(v@),
                None => self.elements() is None,
            },
    {
        match self {
            JsonValue::Array(v) => Some(v),
            _ => None,
        }
    }

    /// A string value holding the characters of `s`.
    pub fn text(s: &str) -> (r: JsonValue)
        ensures
            r.str_value() == Some(s@),
    {
        JsonValue::Str(s.to_owned())
    }
}

/// The first member named `key` is the one at position `i`.
pub proof fn lemma_member_found(ms: Seq<JsonMember>, i: int, key: Seq<char>)
    requires
        0 <= i < ms.len(),
        ms[i].key@ == key,
        forall|j: int| 0 <= j < i ==> (#[trigger] ms[j]).key@ != key,
    ensures
        member_in(ms, key) == Some(ms[i].value),
    decreases i,
{
    if i > 0 {
        assert forall|j: int| 0 <= j < i - 1 implies (#[trigger] ms.drop_first()[j]).key@ != key by {
            assert(ms.drop_first()[j] == ms[j + 1]);
        }
        lemma_member_found(ms.drop_first(), i - 1, key);
    }
}

/// A `"key": value` member.
pub fn member(key: &str, value: JsonValue) -> (m: JsonMember)
    ensures
        m.key@ == key@,
        m.value == value,
{
    JsonMember { key: key.to_owned(), value }
}

/// An object with the single member `"key": value`.
pub fn single(key: &str, value: JsonValue) -> (r: JsonValue)
    ensures
        r.at(key@) == value,
{
    let ms = vec![member(key, value)];
    proof {
        lemma_member_found(ms@, 0, key@);
    }
    JsonValue::Object(ms)
}

} // verus!
