use vstd::prelude::*;
use crate::text::str_eq;

verus! {

/// A JSON number as the journal wrote it.
///
/// Whole numbers keep their exact value. A number written with a fraction or
/// an exponent is carried as the bit pattern of its IEEE 754 double, which
/// this library passes on and never computes with.
#[derive(Clone, Copy, Debug, PartialEq, Eq, Structural)]
pub enum Number {
    /// A whole number from zero up.
    PosInt(u64),
    /// A whole number below zero.
    NegInt(i64),
    /// The bits of a double.
    Float(u64),
}

/// A JSON document: what one journal line, or one status file, holds.
///
/// The members of an object stand in a list, each key beside its value.
#[derive(Debug)]
pub enum Json {
    Null,
    Bool(bool),
    Number(Number),
    String(String),
    Array(Vec<Json>),
    Object(Vec<(String, Json)>),
}

/// `serde_json::Value`, as `serde_json::from_str` hands it out. It is carried
/// from there to [`Json`] and nothing is known of what is inside it.
#[verifier::external_type_specification]
#[verifier::external_body]
pub struct ExJsonValue(serde_json::Value);

/// `serde_json::Error`, the error of `serde_json::from_str`. It is carried to
/// where it becomes a [`crate::de::DecodeError`] and nothing is known of what
/// is inside it.
#[verifier::external_type_specification]
#[verifier::external_body]
pub struct ExJsonError(serde_json::Error);

/// The document that a text spells, or nothing where the text is not JSON.
///
/// This names what `serde_json::from_str` makes of the text, read as a
/// `serde_json::Value` and carried over into [`Json`] node by node; it names
/// nothing where that call fails. The grammar is that crate's; nothing more
/// is said of it here.
pub uninterp spec fn document(text: Seq<char>) -> Option<Json>;

/// `serde_json::Value::as_u64`, `as_i64` and `as_f64`, asked in that order:
/// the first that answers decides the kind of number, and `f64::to_bits`
/// hands over a double. A value that is no number gives none. Nothing is
/// claimed of the result.
#[verifier::external_body]
fn lift_number(value: &serde_json::Value) -> Option<Number> {
    if let Some(n) = value.as_u64() {
        Some(Number::PosInt(n))
    } else if let Some(n) = value.as_i64() {
        Some(Number::NegInt(n))
    } else if let Some(x) = value.as_f64() {
        Some(Number::Float(x.to_bits()))
    } else {
        None
    }
}

/// Carries a `serde_json::Value` over into [`Json`], variant by variant, the
/// members of an object in the order in which `serde_json::Map` hands them
/// out: that of their keys, and of two members with one key only the last.
/// A value with a number in it of which `serde_json` tells neither kind nor
/// amount is not carried over. Nothing is claimed of the result.
#[verifier::external_body]
fn lift(value: serde_json::Value) -> Option<Json> {
    Some(match value {
        serde_json::Value::Null => Json::Null,
        serde_json::Value::Bool(b) => Json::Bool(b),
        serde_json::Value::Number(_) => Json::Number(lift_number(&value)?),
        serde_json::Value::String(s) => Json::String(s),
        serde_json::Value::Array(items) => Json::Array(
            items.into_iter().map(lift).collect::<Option<Vec<Json>>>()?,
        ),
        serde_json::Value::Object(members) => Json::Object(
            members.into_iter().map(|(k, v)| Some((k, lift(v)?))).collect::<Option<Vec<_>>>()?,
        ),
    })
}

/// `serde_json::from_str`, asked for a `serde_json::Value`: the contract
/// says only that the outcome is the one [`document`] names for this text.
/// It names none exactly where an error comes, or a value that cannot be
/// carried over into [`Json`].
#[verifier::external_body]
fn read_value(text: &str) -> (r: Result<Option<Json>, serde_json::Error>)
    ensures
        match r {
            Ok(json) => document(text@) == json,
            Err(_) => document(text@) is None,
        },
{
    match serde_json::from_str::<serde_json::Value>(text) {
        Ok(value) => Ok(lift(value)),
        Err(e) => Err(e),
    }
}

impl Json {
    /// The value that the first member called `key` holds, in a list of members.
    pub open spec fn member(members: Seq<(String, Json)>, key: Seq<char>) -> Option<Json>
        decreases members.len(),
    {
        if members.len() == 0 {
            None
        } else if members[0].0@ == key {
            Some(members[0].1)
        } else {
            Self::member(members.drop_first(), key)
        }
    }

    /// The value under `key`, where `self` is an object that has such a member.
    pub open spec fn field(self, key: Seq<char>) -> Option<Json> {
        match self {
            Json::Object(members) => Self::member(members@, key),
            _ => None,
        }
    }

    /// The value under `key`, with `null` standing in where there is none.
    pub open spec fn field_or_null(self, key: Seq<char>) -> Json {
        match self.field(key) {
            Some(value) => value,
            None => Json::Null,
        }
    }

    /// Reads a text as one JSON document; a text that is none gives nothing.
    pub fn parse(text: &str) -> (r: Option<Json>)
        ensures
            r == document(text@),
    {
        match read_value(text) {
            Ok(json) => json,
            Err(_) => None,
        }
    }

    /// Looks a member of an object up by its key.
    pub fn get(&self, key: &str) -> (r: Option<&Json>)
        ensures
            match r {
                Some(value) => self.field(key@) == Some(*value),
                None => self.field(key@) is None,
            },
    {
        match self {
            Json::Object(members) => {
                let mut i: usize = 0;
                assert(members@.skip(0) =~= members@);
                while i < members.len()
                    invariant
                        i <= members.len(),
                        self.field(key@) == Self::member(members@, key@),
                        Self::member(members@, key@) == Self::member(members@.skip(i as int), key@),
                    decreases members.len() - i,
                {
                    if str_eq(members[i].0.as_str(), key) {
                        assert(members@.skip(i as int)[0] == members@[i as int]);
                        return Some(&members[i].1);
                    }
                    assert(members@.skip(i as int).drop_first() =~= members@.skip(i + 1));
                    i += 1;
                }
                None
            },
            _ => None,
        }
    }

    /// Tells whether the document is an object.
    pub fn is_object(&self) -> (r: bool)
        ensures
            r == (self is Object),
    {
        match self {
            Json::Object(_) => true,
            _ => false,
        }
    }
}

} // verus!
