//! A JSON document model: the values that FreshBooks answers with and the
//! request bodies sent to it, with the lookups the tools read them through.

use vstd::prelude::*;
use crate::text::str_eq;

verus! {

/// A JSON number as the library reads it: a non-negative integer, a
/// negative integer, or any other number kept as its decimal text.
pub enum JsonNumber {
    UInt(u64),
    NegInt(i64),
    Float(String),
}

/// A JSON value. An object keeps its members in order; a key is looked up
/// at its first occurrence.
pub enum Json {
    Null,
    Bool(bool),
    Number(JsonNumber),
    Str(String),
    Array(Vec<Json>),
    Object(Vec<(String, Json)>),
}

/// The mathematical view of a JSON number.
pub enum NumberV {
    UInt(u64),
    NegInt(i64),
    Float(Seq<char>),
}

/// The mathematical view of a JSON value: strings as character sequences.
pub enum JsonV {
    Null,
    Bool(bool),
    Number(NumberV),
    Str(Seq<char>),
    Array(Seq<JsonV>),
    Object(Seq<(Seq<char>, JsonV)>),
}

pub open spec fn view_number(n: JsonNumber) -> NumberV {
    match n {
        JsonNumber::UInt(u) => NumberV::UInt(u),
        JsonNumber::NegInt(i) => NumberV::NegInt(i),
        JsonNumber::Float(s) => NumberV::Float(s@),
    }
}

pub open spec fn view_json(j: Json) -> JsonV
    decreases j,
{
    match j {
        Json::Null => JsonV::Null,
        Json::Bool(b) => JsonV::Bool(b),
        Json::Number(n) => JsonV::Number(view_number(n)),
        Json::Str(s) => JsonV::Str(s@),
        Json::Array(items) => JsonV::Array(view_items(items@)),
        Json::Object(fields) => JsonV::Object(view_fields(fields@)),
    }
}

pub open spec fn view_items(s: Seq<Json>) -> Seq<JsonV>
    decreases s,
{
    if s.len() == 0 {
        Seq::empty()
    } else {
        seq![view_json(s[0])] + view_items(s.drop_first())
    }
}

pub open spec fn view_fields(s: Seq<(String, Json)>) -> Seq<(Seq<char>, JsonV)>
    decreases s,
{
    if s.len() == 0 {
        Seq::empty()
    } else {
        seq![(s[0].0@, view_json(s[0].1))] + view_fields(s.drop_first())
    }
}

impl View for Json {
    type V = JsonV;

    open spec fn view(&self) -> JsonV {
        view_json(*self)
    }
}


/// The element views of an array are the views of its elements.
pub proof fn lemma_view_items(s: Seq<Json>)
    ensures
        view_items(s).len() == s.len(),
        forall|i: int| 0 <= i < s.len() ==> #[trigger] view_items(s)[i] == view_json(s[i]),
    decreases s.len(),
{
    if s.len() > 0 {
        lemma_view_items(s.drop_first());
        assert forall|i: int| 0 <= i < s.len() implies #[trigger] view_items(s)[i] == view_json(s[i]) by {
            if i > 0 {
                assert(view_items(s)[i] == view_items(s.drop_first())[i - 1]);
            }
        }
    }
}

/// The member views of an object are the views of its members.
pub proof fn lemma_view_fields(s: Seq<(String, Json)>)
    ensures
        view_fields(s).len() == s.len(),
        forall|i: int| 0 <= i < s.len() ==> #[trigger] view_fields(s)[i] == (s[i].0@, view_json(s[i].1)),
    decreases s.len(),
{
    if s.len() > 0 {
        lemma_view_fields(s.drop_first());
        assert forall|i: int| 0 <= i < s.len() implies #[trigger] view_fields(s)[i] == (s[i].0@, view_json(s[i].1)) by {
            if i > 0 {
                assert(view_fields(s)[i] == view_fields(s.drop_first())[i - 1]);
            }
        }
    }
}

/// The value of the first member named `key`, if any.
pub open spec fn field_of(fields: Seq<(Seq<char>, JsonV)>, key: Seq<char>) -> Option<JsonV>
    decreases fields.len(),
{
    if fields.len() == 0 {
        None
    } else if fields[0].0 == key {
        Some(fields[0].1)
    } else {
        field_of(fields.drop_first(), key)
    }
}

/// `v[key]`: the member named `key` when `v` is an object that has one.
pub open spec fn member(v: JsonV, key: Seq<char>) -> Option<JsonV> {
    match v {
        JsonV::Object(fields) => field_of(fields, key),
        _ => None,
    }
}

/// A member lookup continued from a lookup that may have found nothing.
pub open spec fn member_in(v: Option<JsonV>, key: Seq<char>) -> Option<JsonV> {
    match v {
        Some(j) => member(j, key),
        None => None,
    }
}

/// The characters of a string value.
pub open spec fn str_in(v: Option<JsonV>) -> Option<Seq<char>> {
    match v {
        Some(JsonV::Str(s)) => Some(s),
        _ => None,
    }
}

/// A number value that is a non-negative integer.
pub open spec fn u64_in(v: Option<JsonV>) -> Option<u64> {
    match v {
        Some(JsonV::Number(NumberV::UInt(n))) => Some(n),
        _ => None,
    }
}

/// The elements of an array value.
pub open spec fn array_in(v: Option<JsonV>) -> Option<Seq<JsonV>> {
    match v {
        Some(JsonV::Array(items)) => Some(items),
        _ => None,
    }
}

/// An optional reference found by an exec lookup agrees with a spec lookup.
pub open spec fn found(r: Option<&Json>, s: Option<JsonV>) -> bool {
    match r {
        Some(x) => s == Some(x@),
        None => s is None,
    }
}

impl Json {
    /// The member named `key` when this value is an object that has one.
    pub fn get(&self, key: &str) -> (r: Option<&Json>)
        ensures
            found(r, member(self@, key@)),
    {
        match self {
            Json::Object(fields) => {
                let ghost vf = view_fields(fields@);
                proof {
                    lemma_view_fields(fields@);
                    assert(vf.skip(0) =~= vf);
                }
                let n = fields.len();
                let mut i: usize = 0;
                while i < n
                    invariant
                        n == fields@.len(),
                        vf == view_fields(fields@),
                        vf.len() == n,
                        forall|k: int| 0 <= k < n ==> #[trigger] vf[k] == (fields@[k].0@, view_json(fields@[k].1)),
                        i <= n,
                        field_of(vf, key@) == field_of(vf.skip(i as int), key@),
                        self@ == JsonV::Object(vf),
                    decreases n - i,
                {
                    let entry = &fields[i];
                    assert(vf.skip(i as int)[0] == vf[i as int]);
                    if str_eq(entry.0.as_str(), key) {
                        return Some(&entry.1);
                    }
                    assert(vf.skip(i as int).drop_first() =~= vf.skip(i as int + 1));
                    i = i + 1;
                }
                None
            },
            _ => None,
        }
    }

    /// The characters of this value when it is a string.
    pub fn as_str(&self) -> (r: Option<&str>)
        ensures
            match r {
                Some(s) => str_in(Some(self@)) == Some(s@),
                None => str_in(Some(self@)) is None,
            },
    {
        match self {
            Json::Str(s) => Some(s.as_str()),
            _ => None,
        }
    }

    /// This value when it is a non-negative integer.
    pub fn as_u64(&self) -> (r: Option<u64>)
        ensures
            r == u64_in(Some(self@)),
    {
        match self {
            Json::Number(JsonNumber::UInt(n)) => Some(*n),
            _ => None,
        }
    }

    /// The elements of this value when it is an array.
    pub fn as_array(&self) -> (r: Option<&Vec<Json>>)
        ensures
            match r {
                Some(items) => array_in(Some(self@)) == Some(view_items(items@)),
                None => array_in(Some(self@)) is None,
            },
    {
        match self {
            Json::Array(items) => Some(items),
            _ => None,
        }
    }

    /// Whether this value is an object.
    pub fn is_object(&self) -> (r: bool)
        ensures
            r == (self@ is Object),
    {
        match self {
            Json::Object(_) => true,
            _ => false,
        }
    }
}

/// `v[key]` continued from a lookup that may have found nothing.
pub fn get_in<'a>(v: Option<&'a Json>, key: &str) -> (r: Option<&'a Json>)
    ensures
        forall|s: Option<JsonV>| found(v, s) ==> found(r, member_in(s, key@)),
{
    match v {
        Some(j) => j.get(key),
        None => None,
    }
}

/// The string found by a lookup, if it found a string.
pub fn str_at<'a>(v: Option<&'a Json>) -> (r: Option<&'a str>)
    ensures
        forall|s: Option<JsonV>| found(v, s) ==> match r {
            Some(t) => str_in(s) == Some(t@),
            None => str_in(s) is None,
        },
{
    match v {
        Some(j) => j.as_str(),
        None => None,
    }
}

/// The non-negative integer found by a lookup, if it found one.
pub fn u64_at(v: Option<&Json>) -> (r: Option<u64>)
    ensures
        forall|s: Option<JsonV>| found(v, s) ==> r == u64_in(s),
{
    match v {
        Some(j) => j.as_u64(),
        None => None,
    }
}


/// The characters of an optional string slice.
pub open spec fn str_view(r: Option<&str>) -> Option<Seq<char>> {
    match r {
        Some(t) => Some(t@),
        None => None,
    }
}

/// `v[key].as_str()`: the string member named `key`.
pub open spec fn str_field(v: JsonV, key: Seq<char>) -> Option<Seq<char>> {
    str_in(member(v, key))
}

/// `v[key].as_u64()`: the non-negative integer member named `key`.
pub open spec fn u64_field(v: JsonV, key: Seq<char>) -> Option<u64> {
    u64_in(member(v, key))
}

/// The string member named `key` of `v`.
pub fn str_field_of<'a>(v: &'a Json, key: &str) -> (r: Option<&'a str>)
    ensures
        str_view(r) == str_field(v@, key@),
{
    let m = v.get(key);
    str_at(m)
}

/// The non-negative integer member named `key` of `v`.
pub fn u64_field_of(v: &Json, key: &str) -> (r: Option<u64>)
    ensures
        r == u64_field(v@, key@),
{
    let m = v.get(key);
    u64_at(m)
}


/// Adding a member to an object adds its view at the end.
pub proof fn lemma_view_fields_push(s: Seq<(String, Json)>, x: (String, Json))
    ensures
        view_fields(s.push(x)) == view_fields(s).push((x.0@, view_json(x.1))),
{
    lemma_view_fields(s);
    lemma_view_fields(s.push(x));
    assert(view_fields(s.push(x)) =~= view_fields(s).push((x.0@, view_json(x.1))));
}

/// Adding an element to an array adds its view at the end.
pub proof fn lemma_view_items_push(s: Seq<Json>, x: Json)
    ensures
        view_items(s.push(x)) == view_items(s).push(view_json(x)),
{
    lemma_view_items(s);
    lemma_view_items(s.push(x));
    assert(view_items(s.push(x)) =~= view_items(s).push(view_json(x)));
}

/// Appends the member `key: value` to the members of an object under
/// construction.
pub fn push_member(fields: &mut Vec<(String, Json)>, key: &str, value: Json)
    ensures
        view_fields(final(fields)@) == view_fields(old(fields)@).push((key@, value@)),
{
    let k = key.to_owned();
    proof {
        lemma_view_fields_push(fields@, (k, value));
    }
    fields.push((k, value));
}

/// A string value.
pub fn string_value(s: &str) -> (r: Json)
    ensures
        r@ == JsonV::Str(s@),
{
    Json::Str(s.to_owned())
}

/// An object with no members.
pub open spec fn no_members() -> Seq<(Seq<char>, JsonV)> {
    Seq::empty()
}

/// The members of an object with one member more when `value` is present.
pub open spec fn with_opt(
    fields: Seq<(Seq<char>, JsonV)>,
    key: Seq<char>,
    value: Option<JsonV>,
) -> Seq<(Seq<char>, JsonV)> {
    match value {
        Some(v) => fields.push((key, v)),
        None => fields,
    }
}

/// A present text as a string value.
pub open spec fn opt_text(o: Option<String>) -> Option<JsonV> {
    match o {
        Some(s) => Some(JsonV::Str(s@)),
        None => None,
    }
}

/// Appends `key` with the text of `value` when `value` is present.
pub fn push_opt_text(fields: &mut Vec<(String, Json)>, key: &str, value: &Option<String>)
    ensures
        view_fields(final(fields)@) == with_opt(view_fields(old(fields)@), key@, opt_text(*value)),
{
    match value {
        Some(s) => push_member(fields, key, string_value(s.as_str())),
        None => {},
    }
}


/// Looking up a member after adding one: an earlier member of that name
/// still wins; otherwise the added member is found by its own name.
pub proof fn lemma_field_of_with_opt(
    f: Seq<(Seq<char>, JsonV)>,
    k: Seq<char>,
    o: Option<JsonV>,
    key: Seq<char>,
)
    ensures
        field_of(with_opt(f, k, o), key) == match field_of(f, key) {
            Some(x) => Some(x),
            None => if k == key {
                o
            } else {
                None
            },
        },
    decreases f.len(),
{
    match o {
        None => {},
        Some(v) => {
            if f.len() > 0 {
                assert(f.push((k, v)).drop_first() =~= f.drop_first().push((k, v)));
                assert(f.push((k, v))[0] == f[0]);
                lemma_field_of_with_opt(f.drop_first(), k, o, key);
            } else {
                assert(f.push((k, v)).drop_first() =~= Seq::<(Seq<char>, JsonV)>::empty());
                assert(f.push((k, v))[0] == (k, v));
                assert(field_of(Seq::<(Seq<char>, JsonV)>::empty(), key) is None);
                assert(field_of(f, key) is None);
            }
        },
    }
}

} // verus!
