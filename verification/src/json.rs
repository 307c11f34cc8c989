//! A plain model of a parsed JSON (or TOML) document, and the reads that the
//! registry responses and manifests need.
//!
//! The reads behave as `serde_json::Value` indexing does: reading a key of
//! anything that is not an object, or a key that is absent, gives `null`.
use vstd::prelude::*;
use crate::text::same_text;

verus! {

/// One `key: value` entry of an object.
pub struct Member {
    pub key: String,
    pub value: Json,
}

/// A parsed document. Numbers are kept as what `as_u64` gives of them: the
/// value where it is a non-negative integer that fits in 64 bits.
pub enum Json {
    Null,
    Bool(bool),
    Number(Option<u64>),
    Str(String),
    Array(Vec<Json>),
    Object(Vec<Member>),
}

// ---------------------------------------------------------------------------
// Specifications
// ---------------------------------------------------------------------------

/// The value of the first entry of `ms` whose key is `key`.
pub open spec fn lookup(ms: Seq<Member>, key: Seq<char>) -> Option<Json>
    decreases ms.len(),
{
    if ms.len() == 0 {
        None
    } else if ms[0].key@ == key {
        Some(ms[0].value)
    } else {
        lookup(ms.drop_first(), key)
    }
}

/// A missing value read as `null`.
pub open spec fn or_null(j: Option<&Json>) -> Json {
    match j {
        Some(v) => *v,
        None => Json::Null,
    }
}

/// `j[key]`: the value under `key`, or `null`.
pub open spec fn member_of(j: Json, key: Seq<char>) -> Json {
    match j {
        Json::Object(ms) => match lookup(ms@, key) {
            Some(v) => v,
            None => Json::Null,
        },
        _ => Json::Null,
    }
}

/// `j.as_str()`.
pub open spec fn str_of(j: Json) -> Option<Seq<char>> {
    match j {
        Json::Str(s) => Some(s@),
        _ => None,
    }
}

/// `j.as_u64()`.
pub open spec fn u64_of(j: Json) -> Option<u64> {
    match j {
        Json::Number(n) => n,
        _ => None,
    }
}

/// `j.as_array()`, as the sequence of items.
pub open spec fn items_of(j: Json) -> Option<Seq<Json>> {
    match j {
        Json::Array(a) => Some(a@),
        _ => None,
    }
}

/// The keys of `j` in order where it is an object, else none.
pub open spec fn keys_of(j: Json) -> Seq<Seq<char>> {
    match j {
        Json::Object(ms) => ms@.map_values(|m: Member| m.key@),
        _ => Seq::empty(),
    }
}

/// The texts held by a sequence of strings.
pub open spec fn texts(v: Seq<String>) -> Seq<Seq<char>> {
    v.map_values(|s: String| s@)
}

/// The text held by an optional string.
pub open spec fn opt_text(o: Option<String>) -> Option<Seq<char>> {
    match o {
        Some(s) => Some(s@),
        None => None,
    }
}

/// `o.unwrap_or(d)` over texts.
pub open spec fn text_or(o: Option<Seq<char>>, d: Seq<char>) -> Seq<char> {
    match o {
        Some(s) => s,
        None => d,
    }
}

/// No two entries of `ms` have the same key.
pub open spec fn keys_distinct(ms: Seq<Member>) -> bool {
    forall|i: int, j: int|
        0 <= i < ms.len() && 0 <= j < ms.len() && i != j ==> #[trigger] ms[i].key@
            != #[trigger] ms[j].key@
}

/// A document as a parser gives it: no object, at any depth, has two entries
/// with the same key.
pub open spec fn well_formed(j: Json) -> bool
    decreases j, 1int,
{
    match j {
        Json::Array(a) => items_well_formed(a@),
        Json::Object(ms) => keys_distinct(ms@) && members_well_formed(ms@),
        _ => true,
    }
}

/// Every item of `s` is well formed.
pub open spec fn items_well_formed(s: Seq<Json>) -> bool
    decreases s, 0int,
{
    if s.len() == 0 {
        true
    } else {
        well_formed(s[0]) && items_well_formed(s.drop_first())
    }
}

/// The value of every entry of `ms` is well formed.
pub open spec fn members_well_formed(ms: Seq<Member>) -> bool
    decreases ms, 0int,
{
    if ms.len() == 0 {
        true
    } else {
        well_formed(ms[0].value) && members_well_formed(ms.drop_first())
    }
}

/// In an object whose keys are distinct, a key is found at the one entry
/// that has it.
pub proof fn lemma_lookup_finds_the_entry(ms: Seq<Member>, key: Seq<char>, i: int)
    requires
        keys_distinct(ms),
        0 <= i < ms.len(),
        ms[i].key@ == key,
    ensures
        lookup(ms, key) == Some(ms[i].value),
    decreases i,
{
    if i > 0 {
        let rest = ms.drop_first();
        assert(ms[0].key@ != key);
        assert forall|a: int, b: int|
            0 <= a < rest.len() && 0 <= b < rest.len() && a != b implies #[trigger] rest[a].key@
            != #[trigger] rest[b].key@ by {
            assert(rest[a] == ms[a + 1] && rest[b] == ms[b + 1]);
        }
        assert(rest[i - 1] == ms[i]);
        lemma_lookup_finds_the_entry(rest, key, i - 1);
    }
}

/// What `lookup` finds is the value of an entry of `ms`.
pub proof fn lemma_lookup_is_an_entry(ms: Seq<Member>, key: Seq<char>)
    ensures
        lookup(ms, key) matches Some(v) ==> exists|i: int|
            0 <= i < ms.len() && #[trigger] ms[i].value == v && ms[i].key@ == key,
    decreases ms.len(),
{
    if ms.len() > 0 && ms[0].key@ != key {
        let rest = ms.drop_first();
        lemma_lookup_is_an_entry(rest, key);
        if let Some(v) = lookup(ms, key) {
            let i = choose|i: int| 0 <= i < rest.len() && #[trigger] rest[i].value == v && rest[i].key@ == key;
            assert(ms[i + 1] == rest[i]);
        }
    } else if ms.len() > 0 {
        assert(ms[0].value == ms[0].value);
    }
}

/// Each value of a sequence of well-formed entries is well formed.
pub proof fn lemma_members_well_formed(ms: Seq<Member>, i: int)
    requires
        members_well_formed(ms),
        0 <= i < ms.len(),
    ensures
        well_formed(ms[i].value),
    decreases i,
{
    if i > 0 {
        assert(ms.drop_first()[i - 1] == ms[i]);
        lemma_members_well_formed(ms.drop_first(), i - 1);
    }
}

/// A value read from a well-formed document is well formed.
pub proof fn lemma_member_well_formed(j: Json, key: Seq<char>)
    requires
        well_formed(j),
    ensures
        well_formed(member_of(j, key)),
{
    match j {
        Json::Object(ms) => {
            lemma_lookup_is_an_entry(ms@, key);
            if let Some(v) = lookup(ms@, key) {
                let i = choose|i: int| 0 <= i < ms@.len() && #[trigger] ms@[i].value == v && ms@[i].key@ == key;
                lemma_members_well_formed(ms@, i);
            }
        },
        _ => {},
    }
}

/// The keys of a well-formed object are distinct.
pub proof fn lemma_keys_distinct(j: Json)
    requires
        well_formed(j),
    ensures
        keys_of(j).no_duplicates(),
{
    match j {
        Json::Object(ms) => {
            assert forall|a: int, b: int|
                0 <= a < keys_of(j).len() && 0 <= b < keys_of(j).len() && a != b implies keys_of(
                j,
            )[a] != keys_of(j)[b] by {
                assert(ms@[a].key@ != ms@[b].key@);
            }
        },
        _ => {},
    }
}

// ---------------------------------------------------------------------------
// Parsing
// ---------------------------------------------------------------------------

#[verifier::external_type_specification]
#[verifier::external_body]
pub struct ExJsonValue(serde_json::Value);

#[verifier::external_type_specification]
#[verifier::external_body]
pub struct ExTomlValue(toml::Value);

/// What `serde_json::from_str::<serde_json::Value>` makes of `text`, in this
/// model; none where `text` is not a JSON document.
pub uninterp spec fn json_document(text: Seq<char>) -> Option<Json>;

/// What `toml::from_str::<toml::Value>` makes of `text`, in this model; none
/// where `text` is not a TOML document.
pub uninterp spec fn toml_document(text: Seq<char>) -> Option<Json>;

/// Parses JSON text with `serde_json::from_str::<serde_json::Value>`. The
/// result is named, not stated: it is `json_document(text)`. What is stated
/// is that its objects have distinct keys, since a `serde_json::Map` (a
/// `BTreeMap`, or an `IndexMap` with `preserve_order`) holds each key once.
#[verifier::external_body]
fn serde_parse_json(text: &str) -> (r: Option<Json>)
    ensures
        r == json_document(text@),
        r matches Some(j) ==> well_formed(j),
{
    match serde_json::from_str::<serde_json::Value>(text) {
        Ok(v) => Some(json_of_value(&v)),
        Err(_) => None,
    }
}

/// Converts a `serde_json::Value`, variant for variant, into a `Json`:
/// a number becomes what `Number::as_u64` gives of it. Used only by
/// `serde_parse_json`, whose contract covers the conversion.
#[verifier::external_body]
fn json_of_value(v: &serde_json::Value) -> Json {
    match v {
        serde_json::Value::Null => Json::Null,
        serde_json::Value::Bool(b) => Json::Bool(*b),
        serde_json::Value::Number(n) => Json::Number(n.as_u64()),
        serde_json::Value::String(s) => Json::Str(s.clone()),
        serde_json::Value::Array(a) => Json::Array(a.iter().map(json_of_value).collect()),
        serde_json::Value::Object(o) => Json::Object(
            o.iter().map(|(k, x)| Member { key: k.clone(), value: json_of_value(x) }).collect(),
        ),
    }
}

/// Parses TOML text with `toml::from_str::<toml::Value>`. The result is
/// named, not stated: it is `toml_document(text)`. What is stated is that its
/// tables have distinct keys, since a `toml::map::Map` (a `BTreeMap`, or an
/// `IndexMap` with `preserve_order`) holds each key once.
#[verifier::external_body]
fn toml_parse(text: &str) -> (r: Option<Json>)
    ensures
        r == toml_document(text@),
        r matches Some(j) ==> well_formed(j),
{
    match toml::from_str::<toml::Value>(text) {
        Ok(v) => Some(json_of_toml(&v)),
        Err(_) => None,
    }
}

/// Converts a `toml::Value`, variant for variant, into a `Json`: an integer
/// becomes a number where it is not negative, a float a number with no
/// integer value, a date-time its text, a table an object. Used only by
/// `toml_parse`, whose contract covers the conversion.
#[verifier::external_body]
fn json_of_toml(v: &toml::Value) -> Json {
    match v {
        toml::Value::String(s) => Json::Str(s.clone()),
        toml::Value::Integer(i) => Json::Number(u64::try_from(*i).ok()),
        toml::Value::Float(_) => Json::Number(None),
        toml::Value::Boolean(b) => Json::Bool(*b),
        toml::Value::Datetime(d) => Json::Str(d.to_string()),
        toml::Value::Array(a) => Json::Array(a.iter().map(json_of_toml).collect()),
        toml::Value::Table(t) => Json::Object(
            t.iter().map(|(k, x)| Member { key: k.clone(), value: json_of_toml(x) }).collect(),
        ),
    }
}

/// Parses a JSON document, such as a registry's answer; none where the text
/// is not JSON.
pub fn parse_json(text: &str) -> (r: Option<Json>)
    ensures
        r == json_document(text@),
        r matches Some(j) ==> well_formed(j),
{
    serde_parse_json(text)
}

/// Parses a TOML document, such as Cargo.toml; none where the text is not
/// TOML.
pub fn parse_toml(text: &str) -> (r: Option<Json>)
    ensures
        r == toml_document(text@),
        r matches Some(j) ==> well_formed(j),
{
    toml_parse(text)
}

// ---------------------------------------------------------------------------
// Reads
// ---------------------------------------------------------------------------

proof fn lemma_lookup_skip(ms: Seq<Member>, key: Seq<char>, i: int)
    requires
        0 <= i < ms.len(),
    ensures
        lookup(ms.skip(i), key) == (if ms[i].key@ == key {
            Some(ms[i].value)
        } else {
            lookup(ms.skip(i + 1), key)
        }),
{
    assert(ms.skip(i).drop_first() =~= ms.skip(i + 1));
}

/// The value of the first entry of `ms` whose key is `key` (`Map::get`).
pub fn lookup_in<'a>(ms: &'a Vec<Member>, key: &str) -> (r: Option<&'a Json>)
    ensures
        match r {
            Some(v) => lookup(ms@, key@) == Some(*v),
            None => lookup(ms@, key@) is None,
        },
{
    let mut i: usize = 0;
    assert(ms@.skip(0) =~= ms@);
    while i < ms.len()
        invariant
            i <= ms.len(),
            lookup(ms@.skip(i as int), key@) == lookup(ms@, key@),
        decreases ms.len() - i,
    {
        proof {
            lemma_lookup_skip(ms@, key@, i as int);
        }
        if same_text(ms[i].key.as_str(), key) {
            return Some(&ms[i].value);
        }
        i = i + 1;
    }
    assert(ms@.skip(i as int) =~= Seq::<Member>::empty());
    None
}

/// `j[key]`, with an absent value read as `None`.
pub fn member<'a>(j: Option<&'a Json>, key: &str) -> (r: Option<&'a Json>)
    ensures
        or_null(r) == member_of(or_null(j), key@),
{
    match j {
        Some(Json::Object(ms)) => lookup_in(ms, key),
        _ => None,
    }
}

/// `j.as_str()`.
pub fn str_in<'a>(j: Option<&'a Json>) -> (r: Option<&'a String>)
    ensures
        match r {
            Some(s) => str_of(or_null(j)) == Some(s@),
            None => str_of(or_null(j)) is None,
        },
{
    match j {
        Some(Json::Str(s)) => Some(s),
        _ => None,
    }
}

/// `j.as_str().map(|s| s.to_string())`.
pub fn text_in(j: Option<&Json>) -> (r: Option<String>)
    ensures
        opt_text(r) == str_of(or_null(j)),
{
    match str_in(j) {
        Some(s) => Some(s.clone()),
        None => None,
    }
}

/// `j.as_u64()`.
pub fn u64_in(j: Option<&Json>) -> (r: Option<u64>)
    ensures
        r == u64_of(or_null(j)),
{
    match j {
        Some(Json::Number(n)) => *n,
        _ => None,
    }
}

/// `j.as_array()`.
pub fn items_in<'a>(j: Option<&'a Json>) -> (r: Option<&'a Vec<Json>>)
    ensures
        match r {
            Some(a) => items_of(or_null(j)) == Some(a@),
            None => items_of(or_null(j)) is None,
        },
{
    match j {
        Some(Json::Array(a)) => Some(a),
        _ => None,
    }
}

/// The keys of `j` in order where it is an object, else none.
pub fn keys_in(j: Option<&Json>) -> (r: Vec<String>)
    ensures
        texts(r@) == keys_of(or_null(j)),
{
    let mut r: Vec<String> = Vec::new();
    match j {
        Some(Json::Object(ms)) => {
            let mut i: usize = 0;
            while i < ms.len()
                invariant
                    i <= ms.len(),
                    texts(r@) == ms@.take(i as int).map_values(|m: Member| m.key@),
                decreases ms.len() - i,
            {
                let ghost before = r@;
                let k = ms[i].key.clone();
                assert(k@ == ms@[i as int].key@);
                r.push(k);
                i = i + 1;
                assert(ms@.take(i as int) =~= ms@.take(i - 1).push(ms@[i - 1]));
                assert(r@ =~= before.push(k));
                assert(texts(r@) =~= texts(before).push(k@));
                assert(texts(r@) =~= ms@.take(i as int).map_values(|m: Member| m.key@));
            }
            assert(ms@.take(ms.len() as int) =~= ms@);
        },
        _ => {
            assert(texts(r@) =~= Seq::<Seq<char>>::empty());
        },
    }
    r
}

} // verus!
