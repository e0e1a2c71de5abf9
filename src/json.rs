use vstd::prelude::*;

verus! {

/// A JSON number, as far as schema decoding reads it: a non-negative integer,
/// a negative integer, or a number with a fraction or exponent.
#[derive(Debug, Clone, Copy, PartialEq, Eq, Structural)]
pub enum JsonNumber {
    PosInt(u64),
    NegInt(i64),
    Fraction,
}

/// An untyped JSON value. An object is the list of its entries; where a key
/// occurs more than once, the last entry with that key counts.
#[derive(Debug, PartialEq)]
pub enum JsonValue {
    Null,
    Bool(bool),
    Number(JsonNumber),
    String(String),
    Array(Vec<JsonValue>),
    Object(Vec<(String, JsonValue)>),
}

/// The keys that schema and field decoding read.
#[derive(Debug, Clone, Copy, PartialEq, Eq, Structural)]
pub enum Key {
    Type,
    Name,
    Namespace,
    Doc,
    Aliases,
    Symbols,
    Default,
    Values,
    Items,
    Fields,
    Size,
    Order,
}

pub open spec fn key_text(k: Key) -> Seq<char> {
    match k {
        Key::Type => "type"@,
        Key::Name => "name"@,
        Key::Namespace => "namespace"@,
        Key::Doc => "doc"@,
        Key::Aliases => "aliases"@,
        Key::Symbols => "symbols"@,
        Key::Default => "default"@,
        Key::Values => "values"@,
        Key::Items => "items"@,
        Key::Fields => "fields"@,
        Key::Size => "size"@,
        Key::Order => "order"@,
    }
}

impl Key {
    /// The key as it is written in a JSON object.
    pub fn as_str(self) -> (r: &'static str)
        ensures
            r@ == key_text(self),
    {
        match self {
            Key::Type => "type",
            Key::Name => "name",
            Key::Namespace => "namespace",
            Key::Doc => "doc",
            Key::Aliases => "aliases",
            Key::Symbols => "symbols",
            Key::Default => "default",
            Key::Values => "values",
            Key::Items => "items",
            Key::Fields => "fields",
            Key::Size => "size",
            Key::Order => "order",
        }
    }
}

/// Index of the last of the first `n` entries whose key is `key`, or -1.
pub open spec fn key_pos(entries: Seq<(String, JsonValue)>, key: Seq<char>, n: int) -> int
    decreases n,
{
    if n <= 0 {
        -1
    } else if entries[n - 1].0@ == key {
        n - 1
    } else {
        key_pos(entries, key, n - 1)
    }
}

/// The value that an object holds under `key`.
pub open spec fn lookup(entries: Seq<(String, JsonValue)>, key: Seq<char>) -> Option<JsonValue> {
    let p = key_pos(entries, key, entries.len() as int);
    if p >= 0 {
        Some(entries[p].1)
    } else {
        None
    }
}

pub proof fn lemma_key_pos_bounds(entries: Seq<(String, JsonValue)>, key: Seq<char>, n: int)
    requires
        0 <= n <= entries.len(),
    ensures
        -1 <= key_pos(entries, key, n) < n,
        key_pos(entries, key, n) >= 0 ==> entries[key_pos(entries, key, n)].0@ == key,
    decreases n,
{
    if n > 0 {
        lemma_key_pos_bounds(entries, key, n - 1);
    }
}

/// Whether two strings hold the same characters.
pub fn same_text(a: &str, b: &str) -> (r: bool)
    ensures
        r == (a@ == b@),
{
    let x = a.to_owned();
    let y = b.to_owned();
    x == y
}

/// The value that an object holds under `key`, if any.
pub fn find<'a>(entries: &'a Vec<(String, JsonValue)>, key: &str) -> (r: Option<&'a JsonValue>)
    ensures
        match r {
            Some(x) => lookup(entries@, key@) == Some(*x),
            None => lookup(entries@, key@) is None,
        },
{
    let mut i: usize = entries.len();
    while i > 0
        invariant
            i <= entries@.len(),
            key_pos(entries@, key@, i as int) == key_pos(entries@, key@, entries@.len() as int),
        decreases i,
    {
        if same_text(entries[i - 1].0.as_str(), key) {
            return Some(&entries[i - 1].1);
        }
        i = i - 1;
    }
    None
}

} // verus!
