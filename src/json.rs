//! A JSON document model that verified code can read and build.
//!
//! Backend responses and protocol arguments reach the library as [`Json`]
//! values; the transport around the library decodes bytes into this model and
//! encodes it back.
use vstd::prelude::*;

verus! {

/// A JSON number, kept in the form the document gave it.
///
/// Fractional numbers are carried by their IEEE-754 binary64 bit pattern; the
/// library moves them around but never computes with them.
#[derive(Debug, Clone, Copy, PartialEq, Eq, Structural)]
pub enum Number {
    Unsigned(u64),
    Negative(i64),
    Float(u64),
}

/// A JSON value. Object entries keep the order of the document.
#[derive(Debug, PartialEq)]
pub enum Json {
    Null,
    Bool(bool),
    Number(Number),
    Str(String),
    Array(Vec<Json>),
    Object(Vec<(String, Json)>),
}

/// The value of the first entry named `key`.
pub open spec fn entry_value(entries: Seq<(String, Json)>, key: Seq<char>) -> Option<Json>
    decreases entries.len(),
{
    if entries.len() == 0 {
        None
    } else if entries[0].0@ == key {
        Some(entries[0].1)
    } else {
        entry_value(entries.drop_first(), key)
    }
}

/// The member `key` of an object; `None` for a missing key or a non-object.
pub open spec fn lookup(v: Json, key: Seq<char>) -> Option<Json> {
    match v {
        Json::Object(entries) => entry_value(entries@, key),
        _ => None,
    }
}

/// The member `key` of `v`, reading a missing member as `null`.
pub open spec fn member(v: Json, key: Seq<char>) -> Json {
    match lookup(v, key) {
        Some(x) => x,
        None => Json::Null,
    }
}

pub open spec fn text_of(v: Json) -> Option<Seq<char>> {
    match v {
        Json::Str(s) => Some(s@),
        _ => None,
    }
}

/// The text of `v`, or the empty text when `v` is not a string.
pub open spec fn text_or_empty(v: Json) -> Seq<char> {
    match text_of(v) {
        Some(s) => s,
        None => Seq::empty(),
    }
}

pub open spec fn unsigned_of(v: Json) -> Option<u64> {
    match v {
        Json::Number(Number::Unsigned(n)) => Some(n),
        _ => None,
    }
}

pub open spec fn number_of(v: Json) -> Option<Number> {
    match v {
        Json::Number(n) => Some(n),
        _ => None,
    }
}

pub open spec fn bool_of(v: Json) -> Option<bool> {
    match v {
        Json::Bool(b) => Some(b),
        _ => None,
    }
}

pub open spec fn items_of(v: Json) -> Option<Seq<Json>> {
    match v {
        Json::Array(items) => Some(items@),
        _ => None,
    }
}

/// No two entries share a key.
pub open spec fn keys_unique(entries: Seq<(String, Json)>) -> bool {
    forall|i: int, j: int| 0 <= i < j < entries.len() ==> entries[i].0@ != entries[j].0@
}

/// The view of an optional string.
pub open spec fn opt_view(o: Option<String>) -> Option<Seq<char>> {
    match o {
        Some(s) => Some(s@),
        None => None,
    }
}

/// Whether `a` holds the same characters as `b`.
pub fn same_text(a: &String, b: &str) -> (r: bool)
    ensures
        r == (a@ == b@),
{
    let owned: String = b.to_owned();
    *a == owned
}

/// A copy of an optional string.
pub fn copy_opt_text(o: &Option<String>) -> (r: Option<String>)
    ensures
        r == *o,
{
    match o {
        Some(s) => Some(s.clone()),
        None => None,
    }
}

/// A copy of a list of strings.
pub fn copy_texts(v: &Vec<String>) -> (r: Vec<String>)
    ensures
        r@ == v@,
{
    let mut out: Vec<String> = Vec::new();
    let mut i: usize = 0;
    while i < v.len()
        invariant
            i <= v@.len(),
            out@ == v@.subrange(0, i as int),
        decreases v@.len() - i,
    {
        out.push(v[i].clone());
        assert(out@ =~= v@.subrange(0, i + 1));
        i = i + 1;
    }
    assert(v@.subrange(0, v@.len() as int) =~= v@);
    out
}

/// A copy of an optional list of strings.
pub fn copy_opt_texts(o: &Option<Vec<String>>) -> (r: Option<Vec<String>>)
    ensures
        r is Some <==> o is Some,
        r is Some ==> r->0@ == o->0@,
{
    match o {
        Some(v) => Some(copy_texts(v)),
        None => None,
    }
}

/// A JSON string holding `s`.
pub fn json_str(s: &str) -> (r: Json)
    ensures
        text_of(r) == Some(s@),
{
    Json::Str(s.to_owned())
}

proof fn lemma_entry_value_skip(entries: Seq<(String, Json)>, i: int, key: Seq<char>)
    requires
        0 <= i < entries.len(),
        entries[i].0@ != key,
    ensures
        entry_value(entries.subrange(i, entries.len() as int), key) == entry_value(
            entries.subrange(i + 1, entries.len() as int),
            key,
        ),
{
    assert(entries.subrange(i, entries.len() as int).drop_first() =~= entries.subrange(
        i + 1,
        entries.len() as int,
    ));
}

proof fn lemma_entry_value_push(entries: Seq<(String, Json)>, e: (String, Json), key: Seq<char>)
    ensures
        entry_value(entries.push(e), key) == match entry_value(entries, key) {
            Some(v) => Some(v),
            None => if e.0@ == key {
                Some(e.1)
            } else {
                None
            },
        },
    decreases entries.len(),
{
    if entries.len() > 0 {
        assert(entries.push(e)[0] == entries[0]);
        assert(entries.push(e).drop_first() =~= entries.drop_first().push(e));
        lemma_entry_value_push(entries.drop_first(), e, key);
    } else {
        assert(entries.push(e)[0] == e);
        assert(entries.push(e).drop_first() =~= Seq::<(String, Json)>::empty());
        assert(entry_value(entries.push(e).drop_first(), key) is None);
    }
}

/// Appends the entry `key: value` to an object under construction.
pub fn put_entry(entries: &mut Vec<(String, Json)>, key: &str, value: Json)
    ensures
        final(entries)@.len() == old(entries)@.len() + 1,
        final(entries)@.drop_last() == old(entries)@,
        final(entries)@.last().0@ == key@,
        final(entries)@.last().1 == value,
        forall|k: Seq<char>|
            #[trigger] entry_value(final(entries)@, k) == match entry_value(old(entries)@, k) {
                Some(v) => Some(v),
                None => if key@ == k {
                    Some(value)
                } else {
                    None
                },
            },
{
    let ghost before = entries@;
    let name: String = key.to_owned();
    entries.push((name, value));
    proof {
        assert forall|k: Seq<char>|
            #[trigger] entry_value(entries@, k) == match entry_value(before, k) {
                Some(v) => Some(v),
                None => if key@ == k {
                    Some(value)
                } else {
                    None
                },
            } by {
            lemma_entry_value_push(before, (name, value), k);
        }
        assert(entries@.drop_last() =~= before);
    }
}

/// The position of the first entry named `key`, if any.
fn find_entry(entries: &Vec<(String, Json)>, key: &str) -> (r: Option<usize>)
    ensures
        match r {
            Some(i) => i < entries@.len() && entry_value(entries@, key@) == Some(entries@[i as int].1),
            None => entry_value(entries@, key@) is None,
        },
{
    let mut i: usize = 0;
    assert(entries@.subrange(0, entries@.len() as int) =~= entries@);
    while i < entries.len()
        invariant
            i <= entries@.len(),
            entry_value(entries@, key@) == entry_value(
                entries@.subrange(i as int, entries@.len() as int),
                key@,
            ),
        decreases entries@.len() - i,
    {
        if same_text(&entries[i].0, key) {
            return Some(i);
        }
        proof {
            lemma_entry_value_skip(entries@, i as int, key@);
        }
        i = i + 1;
    }
    None
}

impl Json {
    /// The member `key` of this value when it is an object that has one.
    pub fn get(&self, key: &str) -> (r: Option<&Json>)
        ensures
            match r {
                Some(x) => lookup(*self, key@) == Some(*x),
                None => lookup(*self, key@) is None,
            },
    {
        match self {
            Json::Object(entries) => {
                match find_entry(entries, key) {
                    Some(i) => Some(&entries[i].1),
                    None => None,
                }
            },
            _ => None,
        }
    }

    /// The member `key`, moved out of this value; `null` when there is none.
    pub fn into_member(self, key: &str) -> (r: Json)
        ensures
            r == member(self, key@),
    {
        match self {
            Json::Object(mut entries) => {
                match find_entry(&entries, key) {
                    Some(i) => entries.remove(i).1,
                    None => Json::Null,
                }
            },
            _ => Json::Null,
        }
    }

    pub fn as_str(&self) -> (r: Option<&String>)
        ensures
            match r {
                Some(s) => text_of(*self) == Some(s@),
                None => text_of(*self) is None,
            },
    {
        match self {
            Json::Str(s) => Some(s),
            _ => None,
        }
    }

    pub fn is_null(&self) -> (r: bool)
        ensures
            r == (*self is Null),
    {
        match self {
            Json::Null => true,
            _ => false,
        }
    }
}

} // verus!
