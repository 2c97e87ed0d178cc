//! JSON documents, decoded and encoded by `serde_json`.
//!
//! A decoded document is opaque to the proofs. It is modelled by its compact
//! text, the text that `serde_json` prints for it, and every contract below is
//! stated over that text. What `serde_json` computes is named, not rebuilt: the
//! names stand for its parser, its member lookup and its printer.

use vstd::prelude::*;
use vstd::string::*;

verus! {

/// `serde_json::Value`: a decoded document. Nothing inside it is visible here.
#[verifier::external_type_specification]
#[verifier::external_body]
pub struct ExValue(serde_json::Value);

/// `serde_json::Error`: why bytes are no document. Nothing inside it is visible here.
#[verifier::external_type_specification]
#[verifier::external_body]
pub struct ExError(serde_json::Error);

/// The compact text of a decoded document.
pub uninterp spec fn json_text(value: serde_json::Value) -> Seq<char>;

/// The compact text of the document that `bytes` decode to, if they are one
/// JSON document.
pub uninterp spec fn json_parse(bytes: Seq<u8>) -> Option<Seq<char>>;

/// The compact text of the member `key` of the document `doc`, if `doc` is an
/// object that has such a member.
pub uninterp spec fn json_member(doc: Seq<char>, key: Seq<char>) -> Option<Seq<char>>;

/// The characters of the document `doc`, if it is a string.
pub uninterp spec fn json_string(doc: Seq<char>) -> Option<Seq<char>>;

/// The number that the document `doc` is, if it is an integer that fits `i64`.
pub uninterp spec fn json_integer(doc: Seq<char>) -> Option<i64>;

/// The compact text of the string document that holds `s`: `s` quoted and escaped.
pub uninterp spec fn json_quote(s: Seq<char>) -> Seq<char>;

/// The compact text of the object built from `entries`, each a key and the
/// compact text of its member, in the order given.
pub uninterp spec fn json_object(entries: Seq<(Seq<char>, Seq<char>)>) -> Seq<char>;

/// A decoded JSON document.
pub struct Json {
    pub value: serde_json::Value,
}

impl View for Json {
    type V = Seq<char>;

    /// The compact text of the document.
    open spec fn view(&self) -> Seq<char> {
        json_text(self.value)
    }
}

/// The keys and member texts of a list of entries.
pub open spec fn entry_texts(entries: Seq<(String, Json)>) -> Seq<(Seq<char>, Seq<char>)> {
    Seq::new(entries.len(), |i: int| (entries[i].0@, entries[i].1@))
}

/// `serde_json::from_slice` at `serde_json::Value`: decodes one document, or
/// reports why the bytes are none. The result is a function of the bytes.
#[verifier::external_body]
fn decode(bytes: &[u8]) -> (r: Result<serde_json::Value, serde_json::Error>)
    ensures
        r is Ok <==> json_parse(bytes@) is Some,
        r matches Ok(value) ==> json_parse(bytes@) == Some(json_text(value)),
{
    serde_json::from_slice::<serde_json::Value>(bytes)
}

/// `Value::to_string`: prints the compact text.
#[verifier::external_body]
fn encode(value: &serde_json::Value) -> (r: String)
    ensures
        r@ == json_text(*value),
{
    value.to_string()
}

/// `Value::get` with a key: the member of an object, `None` for a missing
/// member and for a document that is no object.
#[verifier::external_body]
fn member<'a>(value: &'a serde_json::Value, key: &str) -> (r: Option<&'a serde_json::Value>)
    ensures
        r is Some <==> json_member(json_text(*value), key@) is Some,
        r matches Some(found) ==> json_member(json_text(*value), key@) == Some(json_text(*found)),
{
    value.get(key)
}

/// `Value::as_str`: the characters of a string document, `None` for any other.
#[verifier::external_body]
fn string_of<'a>(value: &'a serde_json::Value) -> (r: Option<&'a str>)
    ensures
        r is Some <==> json_string(json_text(*value)) is Some,
        r matches Some(s) ==> json_string(json_text(*value)) == Some(s@),
{
    value.as_str()
}

/// `Value::as_i64`: the number of an integer document that fits `i64`.
#[verifier::external_body]
fn integer_of(value: &serde_json::Value) -> (r: Option<i64>)
    ensures
        r == json_integer(json_text(*value)),
{
    value.as_i64()
}

/// `Value::from` a string: the string document that holds `s`.
#[verifier::external_body]
fn quoted(s: String) -> (r: serde_json::Value)
    ensures
        json_text(r) == json_quote(s@),
{
    serde_json::Value::from(s)
}

/// `Value::Null`, which prints as `null`.
#[verifier::external_body]
fn null_value() -> (r: serde_json::Value)
    ensures
        json_text(r) == "null"@,
{
    serde_json::Value::Null
}

/// `Map::from_iter`, wrapped in `Value::Object`: the object made of the
/// entries given. Its text is a function of the keys and the member texts.
#[verifier::external_body]
fn object_of(entries: Vec<(String, Json)>) -> (r: serde_json::Value)
    ensures
        json_text(r) == json_object(entry_texts(entries@)),
{
    serde_json::Value::Object(entries.into_iter().map(|entry| (entry.0, entry.1.value)).collect())
}

/// `Value::clone`: a copy that prints the same.
#[verifier::external_body]
fn copy_of(value: &serde_json::Value) -> (r: serde_json::Value)
    ensures
        json_text(r) == json_text(*value),
{
    value.clone()
}

impl Json {
    /// Decodes one JSON document, or hands back why the bytes are none.
    pub fn decode(bytes: &[u8]) -> (r: Result<Json, serde_json::Error>)
        ensures
            match r {
                Ok(doc) => json_parse(bytes@) == Some(doc@),
                Err(_) => json_parse(bytes@) is None,
            },
    {
        match decode(bytes) {
            Ok(value) => Ok(Json { value }),
            Err(e) => Err(e),
        }
    }

    /// Decodes one JSON document.
    pub fn parse(bytes: &[u8]) -> (r: Option<Json>)
        ensures
            match r {
                Some(doc) => json_parse(bytes@) == Some(doc@),
                None => json_parse(bytes@) is None,
            },
    {
        match decode(bytes) {
            Ok(value) => Some(Json { value }),
            Err(_) => None,
        }
    }

    /// The compact text of the document.
    pub fn text(&self) -> (r: String)
        ensures
            r@ == self@,
    {
        encode(&self.value)
    }

    /// The member `key`, when the document is an object that has it.
    pub fn get(&self, key: &str) -> (r: Option<Json>)
        ensures
            match r {
                Some(found) => json_member(self@, key@) == Some(found@),
                None => json_member(self@, key@) is None,
            },
    {
        match member(&self.value, key) {
            Some(found) => Some(Json { value: copy_of(found) }),
            None => None,
        }
    }

    /// The characters of the document, when it is a string.
    pub fn as_str(&self) -> (r: Option<String>)
        ensures
            match r {
                Some(s) => json_string(self@) == Some(s@),
                None => json_string(self@) is None,
            },
    {
        match string_of(&self.value) {
            Some(s) => Some(String::from_str(s)),
            None => None,
        }
    }

    /// The number of the document, when it is an integer that fits `i64`.
    pub fn as_i64(&self) -> (r: Option<i64>)
        ensures
            r == json_integer(self@),
    {
        integer_of(&self.value)
    }

    /// The string document that holds `s`.
    pub fn string(s: &str) -> (r: Json)
        ensures
            r@ == json_quote(s@),
    {
        Json { value: quoted(String::from_str(s)) }
    }

    /// The document `null`.
    pub fn null() -> (r: Json)
        ensures
            r@ == "null"@,
    {
        Json { value: null_value() }
    }

    /// The object with the entries given.
    pub fn object(entries: Vec<(String, Json)>) -> (r: Json)
        ensures
            r@ == json_object(entry_texts(entries@)),
    {
        Json { value: object_of(entries) }
    }

    /// A copy of the document.
    pub fn duplicate(&self) -> (r: Json)
        ensures
            r@ == self@,
    {
        Json { value: copy_of(&self.value) }
    }
}

} // verus!
