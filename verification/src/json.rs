//! A JSON document model that the verified code builds and reads.
//!
//! `JsonValue` is the executable document; its view `Json` is the mathematical
//! value that contracts speak of. Integers keep their sign and magnitude
//! exactly; numbers with a fraction or exponent are carried as their text.
use vstd::prelude::*;

verus! {

/// An executable JSON document.
#[derive(Debug, PartialEq)]
pub enum JsonValue {
    Null,
    Bool(bool),
    /// A non-negative integer.
    UInt(u64),
    /// A (usually negative) integer.
    Int(i64),
    /// A number with a fraction or an exponent, kept as its decimal text.
    Decimal(String),
    String(String),
    Array(Vec<JsonValue>),
    /// The members of an object, in order.
    Object(Vec<(String, JsonValue)>),
}

/// The mathematical value of a JSON document.
pub enum Json {
    Null,
    Bool(bool),
    Int(int),
    Decimal(Seq<char>),
    Str(Seq<char>),
    Array(Seq<Json>),
    Object(Seq<(Seq<char>, Json)>),
}

pub open spec fn json_view(v: JsonValue) -> Json
    decreases v,
{
    match v {
        JsonValue::Null => Json::Null,
        JsonValue::Bool(b) => Json::Bool(b),
        JsonValue::UInt(n) => Json::Int(n as int),
        JsonValue::Int(n) => Json::Int(n as int),
        JsonValue::Decimal(t) => Json::Decimal(t@),
        JsonValue::String(s) => Json::Str(s@),
        JsonValue::Array(items) => Json::Array(
            Seq::new(
                items@.len(),
                |i: int|
                    if 0 <= i < items@.len() {
                        json_view(items@[i])
                    } else {
                        Json::Null
                    },
            ),
        ),
        JsonValue::Object(entries) => Json::Object(
            Seq::new(
                entries@.len(),
                |i: int|
                    if 0 <= i < entries@.len() {
                        (entries@[i].0@, json_view(entries@[i].1))
                    } else {
                        (Seq::empty(), Json::Null)
                    },
            ),
        ),
    }
}

impl View for JsonValue {
    type V = Json;

    open spec fn view(&self) -> Json {
        json_view(*self)
    }
}

/// The views of a sequence of documents.
pub open spec fn items_view(items: Seq<JsonValue>) -> Seq<Json> {
    Seq::new(items.len(), |i: int| items[i]@)
}

/// The views of a sequence of object members.
pub open spec fn entries_view(entries: Seq<(String, JsonValue)>) -> Seq<(Seq<char>, Json)> {
    Seq::new(entries.len(), |i: int| (entries[i].0@, entries[i].1@))
}

pub proof fn lemma_array_view(items: Vec<JsonValue>)
    ensures
        JsonValue::Array(items)@ == Json::Array(items_view(items@)),
{
    let j = json_view(JsonValue::Array(items));
    assert(j->Array_0 =~= items_view(items@));
}

pub proof fn lemma_object_view(entries: Vec<(String, JsonValue)>)
    ensures
        JsonValue::Object(entries)@ == Json::Object(entries_view(entries@)),
{
    let j = json_view(JsonValue::Object(entries));
    assert(j->Object_0 =~= entries_view(entries@));
}

/// The value of the first member named `key`, if `j` is an object that has one.
pub open spec fn member_in(entries: Seq<(Seq<char>, Json)>, key: Seq<char>) -> Option<Json>
    decreases entries.len(),
{
    if entries.len() == 0 {
        None
    } else if entries[0].0 == key {
        Some(entries[0].1)
    } else {
        member_in(entries.drop_first(), key)
    }
}

/// What `get(key)` finds in a document: the first member so named, for an object.
pub open spec fn json_get(j: Json, key: Seq<char>) -> Option<Json> {
    match j {
        Json::Object(entries) => member_in(entries, key),
        _ => None,
    }
}

/// The text of a string document.
pub open spec fn json_as_str(j: Json) -> Option<Seq<char>> {
    match j {
        Json::Str(s) => Some(s),
        _ => None,
    }
}

/// The string held by member `key` of `j`, if there is one and it is a string.
pub open spec fn json_str_member(j: Json, key: Seq<char>) -> Option<Seq<char>> {
    match json_get(j, key) {
        Some(v) => json_as_str(v),
        None => None,
    }
}

/// An object made of the given members, in order.
pub open spec fn obj(entries: Seq<(Seq<char>, Json)>) -> Json {
    Json::Object(entries)
}

pub fn json_null() -> (r: JsonValue)
    ensures
        r@ == Json::Null,
{
    JsonValue::Null
}

pub fn json_bool(b: bool) -> (r: JsonValue)
    ensures
        r@ == Json::Bool(b),
{
    JsonValue::Bool(b)
}

pub fn json_uint(n: u64) -> (r: JsonValue)
    ensures
        r@ == Json::Int(n as int),
{
    JsonValue::UInt(n)
}

/// An integer document; non-negative values are held as `UInt`.
pub fn json_int(n: i64) -> (r: JsonValue)
    ensures
        r@ == Json::Int(n as int),
{
    if n >= 0 {
        JsonValue::UInt(n as u64)
    } else {
        JsonValue::Int(n)
    }
}

pub fn json_str(s: &str) -> (r: JsonValue)
    ensures
        r@ == Json::Str(s@),
{
    JsonValue::String(String::from_str(s))
}

pub fn json_string(s: String) -> (r: JsonValue)
    ensures
        r@ == Json::Str(s@),
{
    JsonValue::String(s)
}

pub fn json_array(items: Vec<JsonValue>) -> (r: JsonValue)
    ensures
        r@ == Json::Array(items_view(items@)),
{
    proof {
        lemma_array_view(items);
    }
    JsonValue::Array(items)
}

pub fn json_object(entries: Vec<(String, JsonValue)>) -> (r: JsonValue)
    ensures
        r@ == Json::Object(entries_view(entries@)),
{
    proof {
        lemma_object_view(entries);
    }
    JsonValue::Object(entries)
}

/// An object member.
pub fn member(key: &str, value: JsonValue) -> (r: (String, JsonValue))
    ensures
        r.0@ == key@,
        r.1 == value,
{
    (String::from_str(key), value)
}

/// An object with no members.
pub fn json_empty_object() -> (r: JsonValue)
    ensures
        r@ == Json::Object(Seq::empty()),
{
    let v: Vec<(String, JsonValue)> = Vec::new();
    let r = json_object(v);
    assert(entries_view(v@) =~= Seq::<(Seq<char>, Json)>::empty());
    r
}

// Objects and arrays of a few members, with their values spelt out.

/// An object of 1 member.
pub fn obj1(k1: &str, v1: JsonValue) -> (r: JsonValue)
    ensures
        r@ == obj(seq![(k1@, v1@)]),
{
    let ghost j1 = v1@;
    let mut e: Vec<(String, JsonValue)> = Vec::new();
    e.push(member(k1, v1));
    let r = json_object(e);
    assert(entries_view(e@) =~= seq![(k1@, j1)]);
    r
}

/// An object of 2 members.
pub fn obj2(k1: &str, v1: JsonValue, k2: &str, v2: JsonValue) -> (r: JsonValue)
    ensures
        r@ == obj(seq![(k1@, v1@), (k2@, v2@)]),
{
    let ghost j1 = v1@;
    let ghost j2 = v2@;
    let mut e: Vec<(String, JsonValue)> = Vec::new();
    e.push(member(k1, v1));
    e.push(member(k2, v2));
    let r = json_object(e);
    assert(entries_view(e@) =~= seq![(k1@, j1), (k2@, j2)]);
    r
}

/// An object of 3 members.
pub fn obj3(k1: &str, v1: JsonValue, k2: &str, v2: JsonValue, k3: &str, v3: JsonValue) -> (r: JsonValue)
    ensures
        r@ == obj(seq![(k1@, v1@), (k2@, v2@), (k3@, v3@)]),
{
    let ghost j1 = v1@;
    let ghost j2 = v2@;
    let ghost j3 = v3@;
    let mut e: Vec<(String, JsonValue)> = Vec::new();
    e.push(member(k1, v1));
    e.push(member(k2, v2));
    e.push(member(k3, v3));
    let r = json_object(e);
    assert(entries_view(e@) =~= seq![(k1@, j1), (k2@, j2), (k3@, j3)]);
    r
}

/// An object of 4 members.
pub fn obj4(k1: &str, v1: JsonValue, k2: &str, v2: JsonValue, k3: &str, v3: JsonValue, k4: &str, v4: JsonValue) -> (r: JsonValue)
    ensures
        r@ == obj(seq![(k1@, v1@), (k2@, v2@), (k3@, v3@), (k4@, v4@)]),
{
    let ghost j1 = v1@;
    let ghost j2 = v2@;
    let ghost j3 = v3@;
    let ghost j4 = v4@;
    let mut e: Vec<(String, JsonValue)> = Vec::new();
    e.push(member(k1, v1));
    e.push(member(k2, v2));
    e.push(member(k3, v3));
    e.push(member(k4, v4));
    let r = json_object(e);
    assert(entries_view(e@) =~= seq![(k1@, j1), (k2@, j2), (k3@, j3), (k4@, j4)]);
    r
}

/// An object of 5 members.
pub fn obj5(k1: &str, v1: JsonValue, k2: &str, v2: JsonValue, k3: &str, v3: JsonValue, k4: &str, v4: JsonValue, k5: &str, v5: JsonValue) -> (r: JsonValue)
    ensures
        r@ == obj(seq![(k1@, v1@), (k2@, v2@), (k3@, v3@), (k4@, v4@), (k5@, v5@)]),
{
    let ghost j1 = v1@;
    let ghost j2 = v2@;
    let ghost j3 = v3@;
    let ghost j4 = v4@;
    let ghost j5 = v5@;
    let mut e: Vec<(String, JsonValue)> = Vec::new();
    e.push(member(k1, v1));
    e.push(member(k2, v2));
    e.push(member(k3, v3));
    e.push(member(k4, v4));
    e.push(member(k5, v5));
    let r = json_object(e);
    assert(entries_view(e@) =~= seq![(k1@, j1), (k2@, j2), (k3@, j3), (k4@, j4), (k5@, j5)]);
    r
}

/// An object of 7 members.
pub fn obj7(k1: &str, v1: JsonValue, k2: &str, v2: JsonValue, k3: &str, v3: JsonValue, k4: &str, v4: JsonValue, k5: &str, v5: JsonValue, k6: &str, v6: JsonValue, k7: &str, v7: JsonValue) -> (r: JsonValue)
    ensures
        r@ == obj(seq![(k1@, v1@), (k2@, v2@), (k3@, v3@), (k4@, v4@), (k5@, v5@), (k6@, v6@), (k7@, v7@)]),
{
    let ghost j1 = v1@;
    let ghost j2 = v2@;
    let ghost j3 = v3@;
    let ghost j4 = v4@;
    let ghost j5 = v5@;
    let ghost j6 = v6@;
    let ghost j7 = v7@;
    let mut e: Vec<(String, JsonValue)> = Vec::new();
    e.push(member(k1, v1));
    e.push(member(k2, v2));
    e.push(member(k3, v3));
    e.push(member(k4, v4));
    e.push(member(k5, v5));
    e.push(member(k6, v6));
    e.push(member(k7, v7));
    let r = json_object(e);
    assert(entries_view(e@) =~= seq![(k1@, j1), (k2@, j2), (k3@, j3), (k4@, j4), (k5@, j5), (k6@, j6), (k7@, j7)]);
    r
}

/// An array of 1 element.
pub fn arr1(v1: JsonValue) -> (r: JsonValue)
    ensures
        r@ == Json::Array(seq![v1@]),
{
    let ghost j1 = v1@;
    let mut a: Vec<JsonValue> = Vec::new();
    a.push(v1);
    let r = json_array(a);
    assert(items_view(a@) =~= seq![j1]);
    r
}

/// An array of 2 elements.
pub fn arr2(v1: JsonValue, v2: JsonValue) -> (r: JsonValue)
    ensures
        r@ == Json::Array(seq![v1@, v2@]),
{
    let ghost j1 = v1@;
    let ghost j2 = v2@;
    let mut a: Vec<JsonValue> = Vec::new();
    a.push(v1);
    a.push(v2);
    let r = json_array(a);
    assert(items_view(a@) =~= seq![j1, j2]);
    r
}

/// An array of 3 elements.
pub fn arr3(v1: JsonValue, v2: JsonValue, v3: JsonValue) -> (r: JsonValue)
    ensures
        r@ == Json::Array(seq![v1@, v2@, v3@]),
{
    let ghost j1 = v1@;
    let ghost j2 = v2@;
    let ghost j3 = v3@;
    let mut a: Vec<JsonValue> = Vec::new();
    a.push(v1);
    a.push(v2);
    a.push(v3);
    let r = json_array(a);
    assert(items_view(a@) =~= seq![j1, j2, j3]);
    r
}

/// An array of 4 elements.
pub fn arr4(v1: JsonValue, v2: JsonValue, v3: JsonValue, v4: JsonValue) -> (r: JsonValue)
    ensures
        r@ == Json::Array(seq![v1@, v2@, v3@, v4@]),
{
    let ghost j1 = v1@;
    let ghost j2 = v2@;
    let ghost j3 = v3@;
    let ghost j4 = v4@;
    let mut a: Vec<JsonValue> = Vec::new();
    a.push(v1);
    a.push(v2);
    a.push(v3);
    a.push(v4);
    let r = json_array(a);
    assert(items_view(a@) =~= seq![j1, j2, j3, j4]);
    r
}

/// An array of 5 elements.
pub fn arr5(v1: JsonValue, v2: JsonValue, v3: JsonValue, v4: JsonValue, v5: JsonValue) -> (r: JsonValue)
    ensures
        r@ == Json::Array(seq![v1@, v2@, v3@, v4@, v5@]),
{
    let ghost j1 = v1@;
    let ghost j2 = v2@;
    let ghost j3 = v3@;
    let ghost j4 = v4@;
    let ghost j5 = v5@;
    let mut a: Vec<JsonValue> = Vec::new();
    a.push(v1);
    a.push(v2);
    a.push(v3);
    a.push(v4);
    a.push(v5);
    let r = json_array(a);
    assert(items_view(a@) =~= seq![j1, j2, j3, j4, j5]);
    r
}

impl JsonValue {
    /// A copy of this document with the same value.
    pub fn duplicate(&self) -> (r: JsonValue)
        ensures
            r@ == self@,
        decreases self,
    {
        match self {
            JsonValue::Null => JsonValue::Null,
            JsonValue::Bool(b) => JsonValue::Bool(*b),
            JsonValue::UInt(n) => JsonValue::UInt(*n),
            JsonValue::Int(n) => JsonValue::Int(*n),
            JsonValue::Decimal(t) => JsonValue::Decimal(t.clone()),
            JsonValue::String(s) => JsonValue::String(s.clone()),
            JsonValue::Array(items) => {
                let mut v: Vec<JsonValue> = Vec::new();
                let n = items.len();
                for k in 0..n
                    invariant
                        n == items@.len(),
                        *self == JsonValue::Array(*items),
                        v@.len() == k,
                        forall|i: int| 0 <= i < k ==> #[trigger] v@[i]@ == items@[i]@,
                {
                    assert(decreases_to!(*items => items[k as int]));
                    assert(decreases_to!(*self => (*self)->Array_0));
                    v.push(items[k].duplicate());
                }
                proof {
                    lemma_array_view(*items);
                    assert(items_view(v@) =~= items_view(items@));
                }
                json_array(v)
            },
            JsonValue::Object(entries) => {
                let mut v: Vec<(String, JsonValue)> = Vec::new();
                let n = entries.len();
                for k in 0..n
                    invariant
                        n == entries@.len(),
                        *self == JsonValue::Object(*entries),
                        v@.len() == k,
                        forall|i: int| 0 <= i < k ==> #[trigger] v@[i].0@ == entries@[i].0@,
                        forall|i: int| 0 <= i < k ==> #[trigger] v@[i].1@ == entries@[i].1@,
                {
                    assert(decreases_to!(*entries => entries[k as int]));
                    assert(decreases_to!(*self => (*self)->Object_0));
                    let key = entries[k].0.clone();
                    let value = entries[k].1.duplicate();
                    v.push((key, value));
                }
                proof {
                    lemma_object_view(*entries);
                    assert(entries_view(v@) =~= entries_view(entries@));
                }
                json_object(v)
            },
        }
    }

    pub fn is_null(&self) -> (r: bool)
        ensures
            r == (self@ is Null),
    {
        matches!(self, JsonValue::Null)
    }

    pub fn is_object(&self) -> (r: bool)
        ensures
            r == (self@ is Object),
    {
        matches!(self, JsonValue::Object(_))
    }

    pub fn is_array(&self) -> (r: bool)
        ensures
            r == (self@ is Array),
    {
        matches!(self, JsonValue::Array(_))
    }

    pub fn is_string(&self) -> (r: bool)
        ensures
            r == (self@ is Str),
    {
        matches!(self, JsonValue::String(_))
    }

    pub fn is_boolean(&self) -> (r: bool)
        ensures
            r == (self@ is Bool),
    {
        matches!(self, JsonValue::Bool(_))
    }

    pub fn is_number(&self) -> (r: bool)
        ensures
            r == (self@ is Int || self@ is Decimal),
    {
        matches!(self, JsonValue::UInt(_) | JsonValue::Int(_) | JsonValue::Decimal(_))
    }

    /// The text of a string document.
    pub fn as_str(&self) -> (r: Option<&str>)
        ensures
            r.is_some() == (self@ is Str),
            r matches Some(s) ==> json_as_str(self@) == Some(s@),
    {
        match self {
            JsonValue::String(s) => Some(s.as_str()),
            _ => None,
        }
    }

    pub fn as_bool(&self) -> (r: Option<bool>)
        ensures
            r == (match self@ {
                Json::Bool(b) => Some(b),
                _ => None,
            }),
    {
        match self {
            JsonValue::Bool(b) => Some(*b),
            _ => None,
        }
    }

    /// The value of an integer document that fits in `u64`.
    pub fn as_u64(&self) -> (r: Option<u64>)
        ensures
            r == (match self@ {
                Json::Int(n) => if 0 <= n <= u64::MAX {
                    Some(n as u64)
                } else {
                    None
                },
                _ => None,
            }),
    {
        match self {
            JsonValue::UInt(n) => Some(*n),
            JsonValue::Int(n) => if *n >= 0 {
                Some(*n as u64)
            } else {
                None
            },
            _ => None,
        }
    }

    /// The value of an integer document that fits in `i64`.
    pub fn as_i64(&self) -> (r: Option<i64>)
        ensures
            r == (match self@ {
                Json::Int(n) => if i64::MIN <= n <= i64::MAX {
                    Some(n as i64)
                } else {
                    None
                },
                _ => None,
            }),
    {
        match self {
            JsonValue::UInt(n) => if *n <= i64::MAX as u64 {
                Some(*n as i64)
            } else {
                None
            },
            JsonValue::Int(n) => Some(*n),
            _ => None,
        }
    }

    /// The elements of an array document.
    pub fn as_array(&self) -> (r: Option<&Vec<JsonValue>>)
        ensures
            r.is_some() == (self@ is Array),
            r matches Some(items) ==> self@ == Json::Array(items_view(items@)),
    {
        match self {
            JsonValue::Array(items) => {
                proof {
                    lemma_array_view(*items);
                }
                Some(items)
            },
            _ => None,
        }
    }

    /// The members of an object document.
    pub fn as_object(&self) -> (r: Option<&Vec<(String, JsonValue)>>)
        ensures
            r.is_some() == (self@ is Object),
            r matches Some(entries) ==> self@ == Json::Object(entries_view(entries@)),
    {
        match self {
            JsonValue::Object(entries) => {
                proof {
                    lemma_object_view(*entries);
                }
                Some(entries)
            },
            _ => None,
        }
    }

    /// The first member named `key`, if this document is an object that has one.
    pub fn get(&self, key: &str) -> (r: Option<&JsonValue>)
        ensures
            r.is_some() == json_get(self@, key@).is_some(),
            r matches Some(v) ==> json_get(self@, key@) == Some(v@),
    {
        match self {
            JsonValue::Object(entries) => {
                proof {
                    lemma_object_view(*entries);
                }
                let ghost ev = entries_view(entries@);
                let n = entries.len();
                let mut k: usize = 0;
                assert(ev.subrange(0, n as int) =~= ev);
                assert(self@ == Json::Object(ev));
                while k < n
                    invariant
                        n == entries@.len(),
                        ev == entries_view(entries@),
                        self@ == Json::Object(ev),
                        k <= n,
                        member_in(ev, key@) == member_in(ev.subrange(k as int, n as int), key@),
                    decreases n - k,
                {
                    let ghost rest = ev.subrange(k as int, n as int);
                    assert(rest[0] == ev[k as int]);
                    assert(rest.drop_first() =~= ev.subrange(k + 1, n as int));
                    if str_equal(entries[k].0.as_str(), key) {
                        assert(member_in(rest, key@) == Some(entries@[k as int].1@));
                        return Some(&entries[k].1);
                    }
                    k = k + 1;
                }
                assert(ev.subrange(n as int, n as int).len() == 0);
                None
            },
            _ => None,
        }
    }

    /// Whether this document is an object with a member named `key`.
    pub fn contains_key(&self, key: &str) -> (r: bool)
        ensures
            r == json_get(self@, key@).is_some(),
    {
        self.get(key).is_some()
    }

    /// The string held by member `key`, if this is an object with such a string member.
    pub fn get_str(&self, key: &str) -> (r: Option<&str>)
        ensures
            r.is_some() == json_str_member(self@, key@).is_some(),
            r matches Some(s) ==> json_str_member(self@, key@) == Some(s@),
    {
        match self.get(key) {
            Some(v) => v.as_str(),
            None => None,
        }
    }

    /// The number of elements of an array, or of members of an object; 0 otherwise.
    pub fn len(&self) -> (r: usize)
        ensures
            r == (match self@ {
                Json::Array(items) => items.len(),
                Json::Object(entries) => entries.len(),
                _ => 0,
            }),
    {
        match self {
            JsonValue::Array(items) => {
                proof {
                    lemma_array_view(*items);
                }
                items.len()
            },
            JsonValue::Object(entries) => {
                proof {
                    lemma_object_view(*entries);
                }
                entries.len()
            },
            _ => 0,
        }
    }
}

impl Clone for JsonValue {
    fn clone(&self) -> (r: JsonValue)
        ensures
            r@ == self@,
    {
        self.duplicate()
    }
}

/// Character-by-character equality of two strings.
pub fn str_equal(a: &str, b: &str) -> (r: bool)
    ensures
        r == (a@ == b@),
{
    let n = a.unicode_len();
    let m = b.unicode_len();
    if n != m {
        return false;
    }
    let mut i: usize = 0;
    while i < n
        invariant
            n == a@.len(),
            m == b@.len(),
            n == m,
            i <= n,
            forall|j: int| 0 <= j < i ==> a@[j] == b@[j],
        decreases n - i,
    {
        if a.get_char(i) != b.get_char(i) {
            return false;
        }
        i = i + 1;
    }
    assert(a@ =~= b@);
    true
}

} // verus!
