use vstd::prelude::*;
use crate::alias::{decode_name, Enumeration};
use crate::json::{Json, Number};
use crate::text::str_is_empty;

verus! {

/// Why a document was not decoded.
///
/// `Syntax` and `Structure` are the structural errors; `UnknownName` is kept
/// apart from them so that a caller can treat a new spelling as something to
/// log and skip.
#[derive(Clone, Copy, Debug, PartialEq, Eq, Structural)]
pub enum DecodeError {
    /// The text is not a JSON document.
    Syntax,
    /// The document has not the shape that the schema asks for: a member is
    /// missing, or holds a value of the wrong kind or out of range.
    Structure,
    /// A string that the spelling table of its enumeration does not list.
    UnknownName,
}

/// What decoding makes of a document: it is accepted, or refused with an error.
pub enum Verdict {
    Accepted,
    Refused(DecodeError),
}

impl Verdict {
    /// The verdict on two parts read one after the other: the first refusal decides.
    pub open spec fn and(self, next: Verdict) -> Verdict {
        match self {
            Verdict::Accepted => next,
            Verdict::Refused(e) => Verdict::Refused(e),
        }
    }

    /// The verdict that goes with an outcome.
    pub open spec fn of<T>(outcome: Result<T, DecodeError>) -> Verdict {
        match outcome {
            Ok(_) => Verdict::Accepted,
            Err(e) => Verdict::Refused(e),
        }
    }

    /// The verdict on a document that has to be an object.
    pub open spec fn object(json: Json) -> Verdict {
        if json is Object {
            Verdict::Accepted
        } else {
            Verdict::Refused(DecodeError::Structure)
        }
    }

    /// The verdict on a member that has to be there.
    pub open spec fn required<T: Decode>(json: Json, key: Seq<char>) -> Verdict {
        match json.field(key) {
            Some(value) => T::verdict(value),
            None => Verdict::Refused(DecodeError::Structure),
        }
    }

    /// The verdict on a member that may be missing or `null`.
    pub open spec fn optional<T: Decode>(json: Json, key: Seq<char>) -> Verdict {
        Option::<T>::verdict(json.field_or_null(key))
    }

    /// The verdict on a list that may be missing.
    pub open spec fn listed<T: Decode>(json: Json, key: Seq<char>) -> Verdict {
        match json.field(key) {
            Some(value) => Vec::<T>::verdict(value),
            None => Verdict::Accepted,
        }
    }

    /// The verdict on a flag that may be missing.
    pub open spec fn flag(json: Json, key: Seq<char>) -> Verdict {
        match json.field(key) {
            Some(value) => bool::verdict(value),
            None => Verdict::Accepted,
        }
    }

    /// The verdict on a record that the line may hold or not.
    pub open spec fn part<T: Part>(json: Json) -> Verdict {
        if T::present(json) {
            T::verdict(json)
        } else {
            Verdict::Accepted
        }
    }

    /// The verdict on the text of a document that is decoded as a `T`.
    pub open spec fn text<T: Decode>(document: Option<Json>) -> Verdict {
        match document {
            Some(json) => T::verdict(json),
            None => Verdict::Refused(DecodeError::Syntax),
        }
    }
}

/// A type that is decoded from a JSON document.
///
/// `verdict` says of every document whether it is accepted and, if not, with
/// which error; `agrees` says what an accepted document makes the value.
pub trait Decode: Sized {
    spec fn verdict(json: Json) -> Verdict;

    spec fn agrees(&self, json: Json) -> bool;

    fn decode(json: &Json) -> (r: Result<Self, DecodeError>)
        ensures
            match r {
                Ok(value) => Self::verdict(*json) is Accepted && value.agrees(*json),
                Err(e) => Self::verdict(*json) == Verdict::Refused(e),
            },
    ;
}

/// A record that a line may hold or not, its members standing among those of
/// the line.
///
/// The line holds the record where every member is there that the record
/// cannot do without. Then the record is decoded like any other, and what is
/// wrong with it is wrong with the line. Where such a member is missing the
/// line does not hold the record, which is no error.
pub trait Part: Decode {
    spec fn present(json: Json) -> bool;

    fn is_present(json: &Json) -> (r: bool)
        ensures
            r == Self::present(*json),
    ;
}

/// An enumeration with a variant set apart to say "no value".
///
/// `absent` is true of that variant and of no other: every other variant is a
/// value in its own right, whatever it is called.
pub trait Nullable {
    spec fn absent(&self) -> bool;

    fn is_null(&self) -> (r: bool)
        ensures
            r == self.absent(),
    ;
}

/// The whole number that a document holds, if it is one.
pub open spec fn integer(json: Json) -> Option<int> {
    match json {
        Json::Number(Number::PosInt(n)) => Some(n as int),
        Json::Number(Number::NegInt(n)) => Some(n as int),
        _ => None,
    }
}

/// The verdict on a whole number that has to lie between `low` and `high`.
pub open spec fn integer_verdict(json: Json, low: int, high: int) -> Verdict {
    match integer(json) {
        Some(n) => if low <= n <= high {
            Verdict::Accepted
        } else {
            Verdict::Refused(DecodeError::Structure)
        },
        None => Verdict::Refused(DecodeError::Structure),
    }
}

/// Reads the whole number that a document holds.
fn read_integer(json: &Json) -> (r: Option<i128>)
    ensures
        match r {
            Some(n) => integer(*json) == Some(n as int),
            None => integer(*json) is None,
        },
{
    match json {
        Json::Number(Number::PosInt(n)) => Some(*n as i128),
        Json::Number(Number::NegInt(n)) => Some(*n as i128),
        _ => None,
    }
}

impl Decode for bool {
    open spec fn verdict(json: Json) -> Verdict {
        if json is Bool {
            Verdict::Accepted
        } else {
            Verdict::Refused(DecodeError::Structure)
        }
    }

    open spec fn agrees(&self, json: Json) -> bool {
        json == Json::Bool(*self)
    }

    fn decode(json: &Json) -> (r: Result<bool, DecodeError>) {
        match json {
            Json::Bool(b) => Ok(*b),
            _ => Err(DecodeError::Structure),
        }
    }
}

impl Decode for u64 {
    open spec fn verdict(json: Json) -> Verdict {
        integer_verdict(json, 0, u64::MAX as int)
    }

    open spec fn agrees(&self, json: Json) -> bool {
        integer(json) == Some(*self as int)
    }

    fn decode(json: &Json) -> (r: Result<u64, DecodeError>) {
        match read_integer(json) {
            Some(n) => if 0 <= n && n <= u64::MAX as i128 {
                Ok(n as u64)
            } else {
                Err(DecodeError::Structure)
            },
            None => Err(DecodeError::Structure),
        }
    }
}

impl Decode for String {
    open spec fn verdict(json: Json) -> Verdict {
        if json is String {
            Verdict::Accepted
        } else {
            Verdict::Refused(DecodeError::Structure)
        }
    }

    open spec fn agrees(&self, json: Json) -> bool {
        json matches Json::String(s) && self@ == s@
    }

    fn decode(json: &Json) -> (r: Result<String, DecodeError>) {
        match json {
            Json::String(s) => Ok(s.clone()),
            _ => Err(DecodeError::Structure),
        }
    }
}

impl Decode for u8 {
    open spec fn verdict(json: Json) -> Verdict {
        integer_verdict(json, 0, u8::MAX as int)
    }

    open spec fn agrees(&self, json: Json) -> bool {
        integer(json) == Some(*self as int)
    }

    fn decode(json: &Json) -> (r: Result<u8, DecodeError>) {
        match read_integer(json) {
            Some(n) => if 0 <= n && n <= u8::MAX as i128 {
                Ok(n as u8)
            } else {
                Err(DecodeError::Structure)
            },
            None => Err(DecodeError::Structure),
        }
    }
}

impl Decode for u16 {
    open spec fn verdict(json: Json) -> Verdict {
        integer_verdict(json, 0, u16::MAX as int)
    }

    open spec fn agrees(&self, json: Json) -> bool {
        integer(json) == Some(*self as int)
    }

    fn decode(json: &Json) -> (r: Result<u16, DecodeError>) {
        match read_integer(json) {
            Some(n) => if 0 <= n && n <= u16::MAX as i128 {
                Ok(n as u16)
            } else {
                Err(DecodeError::Structure)
            },
            None => Err(DecodeError::Structure),
        }
    }
}

impl Decode for u32 {
    open spec fn verdict(json: Json) -> Verdict {
        integer_verdict(json, 0, u32::MAX as int)
    }

    open spec fn agrees(&self, json: Json) -> bool {
        integer(json) == Some(*self as int)
    }

    fn decode(json: &Json) -> (r: Result<u32, DecodeError>) {
        match read_integer(json) {
            Some(n) => if 0 <= n && n <= u32::MAX as i128 {
                Ok(n as u32)
            } else {
                Err(DecodeError::Structure)
            },
            None => Err(DecodeError::Structure),
        }
    }
}

impl Decode for usize {
    open spec fn verdict(json: Json) -> Verdict {
        integer_verdict(json, 0, usize::MAX as int)
    }

    open spec fn agrees(&self, json: Json) -> bool {
        integer(json) == Some(*self as int)
    }

    fn decode(json: &Json) -> (r: Result<usize, DecodeError>) {
        match read_integer(json) {
            Some(n) => if 0 <= n && n <= usize::MAX as i128 {
                Ok(n as usize)
            } else {
                Err(DecodeError::Structure)
            },
            None => Err(DecodeError::Structure),
        }
    }
}

impl Decode for i16 {
    open spec fn verdict(json: Json) -> Verdict {
        integer_verdict(json, i16::MIN as int, i16::MAX as int)
    }

    open spec fn agrees(&self, json: Json) -> bool {
        integer(json) == Some(*self as int)
    }

    fn decode(json: &Json) -> (r: Result<i16, DecodeError>) {
        match read_integer(json) {
            Some(n) => if i16::MIN as i128 <= n && n <= i16::MAX as i128 {
                Ok(n as i16)
            } else {
                Err(DecodeError::Structure)
            },
            None => Err(DecodeError::Structure),
        }
    }
}

impl Decode for i32 {
    open spec fn verdict(json: Json) -> Verdict {
        integer_verdict(json, i32::MIN as int, i32::MAX as int)
    }

    open spec fn agrees(&self, json: Json) -> bool {
        integer(json) == Some(*self as int)
    }

    fn decode(json: &Json) -> (r: Result<i32, DecodeError>) {
        match read_integer(json) {
            Some(n) => if i32::MIN as i128 <= n && n <= i32::MAX as i128 {
                Ok(n as i32)
            } else {
                Err(DecodeError::Structure)
            },
            None => Err(DecodeError::Structure),
        }
    }
}

impl Decode for i64 {
    open spec fn verdict(json: Json) -> Verdict {
        integer_verdict(json, i64::MIN as int, i64::MAX as int)
    }

    open spec fn agrees(&self, json: Json) -> bool {
        integer(json) == Some(*self as int)
    }

    fn decode(json: &Json) -> (r: Result<i64, DecodeError>) {
        match read_integer(json) {
            Some(n) => if i64::MIN as i128 <= n && n <= i64::MAX as i128 {
                Ok(n as i64)
            } else {
                Err(DecodeError::Structure)
            },
            None => Err(DecodeError::Structure),
        }
    }
}

impl Decode for Number {
    open spec fn verdict(json: Json) -> Verdict {
        if json is Number {
            Verdict::Accepted
        } else {
            Verdict::Refused(DecodeError::Structure)
        }
    }

    open spec fn agrees(&self, json: Json) -> bool {
        json == Json::Number(*self)
    }

    fn decode(json: &Json) -> (r: Result<Number, DecodeError>) {
        match json {
            Json::Number(n) => Ok(*n),
            _ => Err(DecodeError::Structure),
        }
    }
}

/// A value that may be `null`: `null` is no value, anything else is decoded
/// as the type itself.
impl<T: Decode> Decode for Option<T> {
    open spec fn verdict(json: Json) -> Verdict {
        if json is Null {
            Verdict::Accepted
        } else {
            T::verdict(json)
        }
    }

    open spec fn agrees(&self, json: Json) -> bool {
        match *self {
            Some(value) => json !is Null && value.agrees(json),
            None => json is Null,
        }
    }

    fn decode(json: &Json) -> (r: Result<Option<T>, DecodeError>) {
        match json {
            Json::Null => Ok(None),
            _ => {
                let value = T::decode(json)?;
                Ok(Some(value))
            },
        }
    }
}

/// The verdict on the items of an array from index `from` on: that of the
/// first item that is refused.
pub open spec fn items_verdict<T: Decode>(items: Seq<Json>, from: int) -> Verdict
    decreases items.len() - from,
{
    if 0 <= from < items.len() {
        T::verdict(items[from]).and(items_verdict::<T>(items, from + 1))
    } else {
        Verdict::Accepted
    }
}

/// An array, each item decoded in turn.
impl<T: Decode> Decode for Vec<T> {
    open spec fn verdict(json: Json) -> Verdict {
        match json {
            Json::Array(items) => items_verdict::<T>(items@, 0),
            _ => Verdict::Refused(DecodeError::Structure),
        }
    }

    open spec fn agrees(&self, json: Json) -> bool {
        &&& json matches Json::Array(items)
        &&& self@.len() == items@.len()
        &&& forall|i: int| 0 <= i < self@.len() ==> (#[trigger] self@[i]).agrees(items@[i])
    }

    fn decode(json: &Json) -> (r: Result<Vec<T>, DecodeError>) {
        match json {
            Json::Array(items) => {
                let mut out: Vec<T> = Vec::new();
                let mut i: usize = 0;
                while i < items.len()
                    invariant
                        i <= items.len(),
                        out@.len() == i,
                        *json == Json::Array(*items),
                        items_verdict::<T>(items@, 0) == items_verdict::<T>(items@, i as int),
                        forall|k: int| 0 <= k < i ==> (#[trigger] out@[k]).agrees(items@[k]),
                    decreases items.len() - i,
                {
                    let item = T::decode(&items[i])?;
                    out.push(item);
                    i += 1;
                }
                Ok(out)
            },
            _ => Err(DecodeError::Structure),
        }
    }
}

impl Json {
    /// Whether `value` holds what the member `key` says. A missing member
    /// counts as `null`, which only an optional value agrees with.
    pub open spec fn gives<T: Decode>(self, key: Seq<char>, value: &T) -> bool {
        value.agrees(self.field_or_null(key))
    }

    /// The first of two keys under which a member may stand: `key` where the
    /// object has such a member, `other` where it has not.
    pub open spec fn either(self, key: Seq<char>, other: Seq<char>) -> Seq<char> {
        if self.field(key) is Some {
            key
        } else {
            other
        }
    }

    /// Whether `value` holds the items of the member `key`, or nothing where
    /// there is no such member.
    pub open spec fn gives_list<T: Decode>(self, key: Seq<char>, value: &Vec<T>) -> bool {
        match self.field(key) {
            Some(v) => value.agrees(v),
            None => value@.len() == 0,
        }
    }

    /// Whether `value` is the flag that the member `key` sets: `false` where
    /// there is no such member.
    pub open spec fn gives_flag(self, key: Seq<char>, value: bool) -> bool {
        match self.field(key) {
            Some(v) => value.agrees(v),
            None => !value,
        }
    }

    /// Whether `value` is the record that the line holds, or none where the
    /// line holds no such record.
    pub open spec fn gives_part<T: Part>(self, value: &Option<T>) -> bool {
        match *value {
            Some(v) => T::present(self) && v.agrees(self),
            None => !T::present(self),
        }
    }

    /// Whether the object has a member called `key`.
    pub open spec fn has(self, key: Seq<char>) -> bool {
        self.field(key) is Some
    }

    /// What [`null_is_none`] makes of a document.
    pub open spec fn null_is_none<T: Enumeration + Nullable>(self) -> Result<Option<T>, DecodeError> {
        if self is Null {
            Ok(None)
        } else {
            match crate::alias::named::<T>(self) {
                Ok(v) => if v.absent() {
                    Ok(None)
                } else {
                    Ok(Some(v))
                },
                Err(e) => Err(e),
            }
        }
    }

    /// What [`zero_is_none`] makes of a document.
    pub open spec fn zero_is_none(self) -> Result<Option<u64>, DecodeError> {
        if self is Null {
            Ok(None)
        } else {
            match integer(self) {
                Some(n) => if n == 0 {
                    Ok(None)
                } else if 0 < n <= u64::MAX {
                    Ok(Some(n as u64))
                } else {
                    Err(DecodeError::Structure)
                },
                None => Err(DecodeError::Structure),
            }
        }
    }

    /// What [`empty_str_is_none`] makes of a document.
    pub open spec fn empty_str_is_none(self) -> Result<Option<String>, DecodeError> {
        match self {
            Json::String(s) => if s@.len() == 0 {
                Ok(None)
            } else {
                Ok(Some(s))
            },
            _ => Err(DecodeError::Structure),
        }
    }

    /// What [`null_is_none_at`] makes of the member `key`.
    pub open spec fn null_is_none_at<T: Enumeration + Nullable>(self, key: Seq<char>) -> Result<
        Option<T>,
        DecodeError,
    > {
        match self.field(key) {
            Some(value) => value.null_is_none::<T>(),
            None => Ok(None),
        }
    }

    /// What [`zero_is_none_at`] makes of the member `key`.
    pub open spec fn zero_is_none_at(self, key: Seq<char>) -> Result<Option<u64>, DecodeError> {
        match self.field(key) {
            Some(value) => value.zero_is_none(),
            None => Ok(None),
        }
    }

    /// What [`empty_str_is_none_at`] makes of the member `key`.
    pub open spec fn empty_str_is_none_at(self, key: Seq<char>) -> Result<
        Option<String>,
        DecodeError,
    > {
        match self.field(key) {
            Some(value) => value.empty_str_is_none(),
            None => Ok(None),
        }
    }
}

/// Refuses what is not an object.
pub fn object(json: &Json) -> (r: Result<(), DecodeError>)
    ensures
        match r {
            Ok(_) => Verdict::object(*json) is Accepted,
            Err(e) => Verdict::object(*json) == Verdict::Refused(e),
        },
{
    if json.is_object() {
        Ok(())
    } else {
        Err(DecodeError::Structure)
    }
}

/// Picks the key under which a member stands that the journal has called by
/// two names: `key` if the object has such a member, else `other`.
pub fn either<'a>(json: &Json, key: &'a str, other: &'a str) -> (r: &'a str)
    ensures
        r@ == json.either(key@, other@),
{
    match json.get(key) {
        Some(_) => key,
        None => other,
    }
}

/// Decodes a member that has to be there.
pub fn required<T: Decode>(json: &Json, key: &str) -> (r: Result<T, DecodeError>)
    ensures
        match r {
            Ok(value) => Verdict::required::<T>(*json, key@) is Accepted && json.gives(key@, &value),
            Err(e) => Verdict::required::<T>(*json, key@) == Verdict::Refused(e),
        },
{
    match json.get(key) {
        Some(value) => T::decode(value),
        None => Err(DecodeError::Structure),
    }
}

/// Decodes a member that may be missing or `null`: both give no value.
pub fn optional<T: Decode>(json: &Json, key: &str) -> (r: Result<Option<T>, DecodeError>)
    ensures
        match r {
            Ok(value) => Verdict::optional::<T>(*json, key@) is Accepted && json.gives(key@, &value),
            Err(e) => Verdict::optional::<T>(*json, key@) == Verdict::Refused(e),
        },
{
    match json.get(key) {
        Some(value) => Option::<T>::decode(value),
        None => Ok(None),
    }
}

/// Decodes a list that may be missing: a missing one is empty.
pub fn listed<T: Decode>(json: &Json, key: &str) -> (r: Result<Vec<T>, DecodeError>)
    ensures
        match r {
            Ok(value) => Verdict::listed::<T>(*json, key@) is Accepted && json.gives_list(
                key@,
                &value,
            ),
            Err(e) => Verdict::listed::<T>(*json, key@) == Verdict::Refused(e),
        },
{
    match json.get(key) {
        Some(value) => Vec::<T>::decode(value),
        None => Ok(Vec::new()),
    }
}

/// Decodes a flag that may be missing: a missing one is `false`.
pub fn flag(json: &Json, key: &str) -> (r: Result<bool, DecodeError>)
    ensures
        match r {
            Ok(value) => Verdict::flag(*json, key@) is Accepted && json.gives_flag(key@, value),
            Err(e) => Verdict::flag(*json, key@) == Verdict::Refused(e),
        },
{
    match json.get(key) {
        Some(value) => bool::decode(value),
        None => Ok(false),
    }
}

/// Decodes a record that the line may hold or not. A line that lacks a
/// member which the record cannot do without holds no such record, and that
/// is no error. A line that has them all holds the record, and a member of it
/// that is refused is refused for the line.
pub fn part<T: Part>(json: &Json) -> (r: Result<Option<T>, DecodeError>)
    ensures
        match r {
            Ok(value) => Verdict::part::<T>(*json) is Accepted && json.gives_part(&value),
            Err(e) => Verdict::part::<T>(*json) == Verdict::Refused(e),
        },
{
    if T::is_present(json) {
        let value = T::decode(json)?;
        Ok(Some(value))
    } else {
        Ok(None)
    }
}

/// Tells whether an object has a member called `key`.
pub fn has(json: &Json, key: &str) -> (r: bool)
    ensures
        r == json.has(key@),
{
    json.get(key).is_some()
}

/// Decodes an enumeration in which one variant stands for "no value":
/// `null` and that variant give none, any other variant gives itself.
pub fn null_is_none<T: Enumeration + Nullable>(json: &Json) -> (r: Result<Option<T>, DecodeError>)
    ensures
        r == json.null_is_none::<T>(),
{
    match json {
        Json::Null => Ok(None),
        _ => {
            let v = decode_name::<T>(json)?;
            if v.is_null() {
                Ok(None)
            } else {
                Ok(Some(v))
            }
        },
    }
}

/// Decodes a number in which zero stands for "no value": `null` and `0`
/// give none, any other number from zero up gives itself.
pub fn zero_is_none(json: &Json) -> (r: Result<Option<u64>, DecodeError>)
    ensures
        r == json.zero_is_none(),
{
    match Option::<u64>::decode(json) {
        Ok(Some(n)) => if n != 0 {
            Ok(Some(n))
        } else {
            Ok(None)
        },
        Ok(None) => Ok(None),
        Err(e) => Err(e),
    }
}

/// Decodes a string in which the empty string stands for "no value".
pub fn empty_str_is_none(json: &Json) -> (r: Result<Option<String>, DecodeError>)
    ensures
        r == json.empty_str_is_none(),
{
    match json {
        Json::String(s) => if str_is_empty(s.as_str()) {
            Ok(None)
        } else {
            Ok(Some(s.clone()))
        },
        _ => Err(DecodeError::Structure),
    }
}

/// [`null_is_none`] on the member `key`; a line without that member has no value there.
pub fn null_is_none_at<T: Enumeration + Nullable>(json: &Json, key: &str) -> (r: Result<
    Option<T>,
    DecodeError,
>)
    ensures
        r == json.null_is_none_at::<T>(key@),
{
    match json.get(key) {
        Some(value) => null_is_none::<T>(value),
        None => Ok(None),
    }
}

/// [`zero_is_none`] on the member `key`; a line without that member has no value there.
pub fn zero_is_none_at(json: &Json, key: &str) -> (r: Result<Option<u64>, DecodeError>)
    ensures
        r == json.zero_is_none_at(key@),
{
    match json.get(key) {
        Some(value) => zero_is_none(value),
        None => Ok(None),
    }
}

/// [`empty_str_is_none`] on the member `key`; a line without that member has no value there.
pub fn empty_str_is_none_at(json: &Json, key: &str) -> (r: Result<Option<String>, DecodeError>)
    ensures
        r == json.empty_str_is_none_at(key@),
{
    match json.get(key) {
        Some(value) => empty_str_is_none(value),
        None => Ok(None),
    }
}

/// Decodes a `T` from a text that holds one JSON document.
pub fn from_str<T: Decode>(text: &str) -> (r: Result<T, DecodeError>)
    ensures
        match r {
            Ok(value) => crate::json::document(text@) matches Some(json) && T::verdict(json)
                is Accepted && value.agrees(json),
            Err(e) => Verdict::text::<T>(crate::json::document(text@)) == Verdict::Refused(e),
        },
{
    match Json::parse(text) {
        Some(json) => T::decode(&json),
        None => Err(DecodeError::Syntax),
    }
}

/// In a field where zero stands for "no value", a zero decodes to none and
/// every number above zero to itself. This holds of the value by itself and
/// of the value as a member of an object.
pub proof fn lemma_zero_is_none(n: u64, json: Json, key: Seq<char>)
    requires
        json.field(key) == Some(Json::Number(Number::PosInt(n))),
    ensures
        Json::Number(Number::PosInt(n)).zero_is_none() == Ok::<Option<u64>, DecodeError>(
            if n == 0 {
                None
            } else {
                Some(n)
            },
        ),
        json.zero_is_none_at(key) == Json::Number(Number::PosInt(n)).zero_is_none(),
{
}

/// In a field where the empty string stands for "no value", the empty string
/// decodes to none and every other string to itself. This holds of the value
/// by itself and of the value as a member of an object.
pub proof fn lemma_empty_str_is_none(s: String, json: Json, key: Seq<char>)
    requires
        json.field(key) == Some(Json::String(s)),
    ensures
        Json::String(s).empty_str_is_none() == Ok::<Option<String>, DecodeError>(
            if s@.len() == 0 {
                None
            } else {
                Some(s)
            },
        ),
        json.empty_str_is_none_at(key) == Json::String(s).empty_str_is_none(),
{
}

/// In a field of an enumeration with a variant that stands for "no value", a
/// spelling of that variant decodes to none and a spelling of any other
/// variant to that variant.
pub proof fn lemma_null_is_none<T: Enumeration + Nullable>(s: String, v: T)
    requires
        crate::alias::spelled::<T>(s@) == Some(v),
    ensures
        Json::String(s).null_is_none::<T>() == Ok::<Option<T>, DecodeError>(
            if v.absent() {
                None
            } else {
                Some(v)
            },
        ),
{
}

} // verus!
