use elite_journal::de::{
    either, empty_str_is_none, empty_str_is_none_at, flag, from_str, has, listed, null_is_none,
    null_is_none_at, object, optional, part, required, zero_is_none, zero_is_none_at, Decode,
    DecodeError, Part,
};
use elite_journal::entry::incremental::startup::Commander;
use elite_journal::faction::State;
use elite_journal::json::{Json, Number};
use elite_journal::system::Security;
use elite_journal::text::{push_decimal, str_eq, str_is_empty, to_decimal};
use elite_journal::Government;

fn text(s: &str) -> Json {
    Json::String(s.to_string())
}

fn number(n: u64) -> Json {
    Json::Number(Number::PosInt(n))
}

fn object_of(members: Vec<(&str, Json)>) -> Json {
    Json::Object(members.into_iter().map(|(k, v)| (k.to_string(), v)).collect())
}

#[test]
fn zero_is_no_value() {
    assert_eq!(zero_is_none(&number(0)), Ok(None));
    assert_eq!(zero_is_none(&number(1)), Ok(Some(1)));
    assert_eq!(zero_is_none(&number(u64::MAX)), Ok(Some(u64::MAX)));
    assert_eq!(zero_is_none(&Json::Null), Ok(None));
    assert_eq!(zero_is_none(&Json::Number(Number::NegInt(-1))), Err(DecodeError::Structure));
    assert_eq!(zero_is_none(&Json::Number(Number::Float(0))), Err(DecodeError::Structure));
    assert_eq!(zero_is_none(&text("0")), Err(DecodeError::Structure));
}

#[test]
fn the_empty_string_is_no_value() {
    assert_eq!(empty_str_is_none(&text("")), Ok(None));
    assert_eq!(empty_str_is_none(&text("Thin")), Ok(Some("Thin".to_string())));
    assert_eq!(empty_str_is_none(&text(" ")), Ok(Some(" ".to_string())));
    assert_eq!(empty_str_is_none(&Json::Null), Err(DecodeError::Structure));
    assert_eq!(empty_str_is_none(&number(0)), Err(DecodeError::Structure));
}

#[test]
fn a_null_variant_is_no_value() {
    assert_eq!(null_is_none::<Government>(&text("")), Ok(None));
    assert_eq!(null_is_none::<Government>(&text("None")), Ok(None));
    assert_eq!(null_is_none::<Government>(&text("$government_None;")), Ok(None));
    assert_eq!(null_is_none::<Government>(&Json::Null), Ok(None));
    assert_eq!(null_is_none::<Government>(&text("Feudal")), Ok(Some(Government::Feudal)));
    assert_eq!(null_is_none::<Security>(&text("Anarchy")), Ok(Some(Security::Anarchy)));
    assert_eq!(null_is_none::<Security>(&text("None")), Ok(None));
    assert_eq!(null_is_none::<Security>(&text("Low")), Ok(Some(Security::Low)));
    assert_eq!(null_is_none::<State>(&text("Bloom")), Err(DecodeError::UnknownName));
    assert_eq!(null_is_none::<State>(&number(1)), Err(DecodeError::Structure));
}

#[test]
fn sentinels_as_members() {
    let json = object_of(vec![("A", number(0)), ("B", number(7)), ("C", text("")), ("D", text("x")), ("E", text("None"))]);
    assert_eq!(zero_is_none_at(&json, "A"), Ok(None));
    assert_eq!(zero_is_none_at(&json, "B"), Ok(Some(7)));
    assert_eq!(zero_is_none_at(&json, "Z"), Ok(None));
    assert_eq!(zero_is_none_at(&json, "C"), Err(DecodeError::Structure));
    assert_eq!(empty_str_is_none_at(&json, "C"), Ok(None));
    assert_eq!(empty_str_is_none_at(&json, "D"), Ok(Some("x".to_string())));
    assert_eq!(empty_str_is_none_at(&json, "Z"), Ok(None));
    assert_eq!(empty_str_is_none_at(&json, "A"), Err(DecodeError::Structure));
    assert_eq!(null_is_none_at::<Government>(&json, "E"), Ok(None));
    assert_eq!(null_is_none_at::<Government>(&json, "Z"), Ok(None));
    assert_eq!(null_is_none_at::<Government>(&json, "D"), Err(DecodeError::UnknownName));
}

#[test]
fn members_by_policy() {
    let json = object_of(vec![
        ("N", number(300)),
        ("S", text("s")),
        ("Null", Json::Null),
        ("L", Json::Array(vec![number(1), number(2)])),
        ("F", Json::Bool(true)),
    ]);
    assert_eq!(object(&json), Ok(()));
    assert_eq!(object(&number(1)), Err(DecodeError::Structure));
    assert_eq!(required::<u64>(&json, "N"), Ok(300));
    assert_eq!(required::<u16>(&json, "N"), Ok(300));
    assert_eq!(required::<u8>(&json, "N"), Err(DecodeError::Structure));
    assert_eq!(required::<u64>(&json, "Missing"), Err(DecodeError::Structure));
    assert_eq!(required::<u64>(&json, "Null"), Err(DecodeError::Structure));
    assert_eq!(required::<String>(&json, "S"), Ok("s".to_string()));
    assert_eq!(optional::<u64>(&json, "N"), Ok(Some(300)));
    assert_eq!(optional::<u64>(&json, "Missing"), Ok(None));
    assert_eq!(optional::<u64>(&json, "Null"), Ok(None));
    assert_eq!(optional::<u64>(&json, "S"), Err(DecodeError::Structure));
    assert_eq!(listed::<u64>(&json, "L"), Ok(vec![1, 2]));
    assert_eq!(listed::<u64>(&json, "Missing"), Ok(vec![]));
    assert_eq!(listed::<u64>(&json, "Null"), Err(DecodeError::Structure));
    assert_eq!(listed::<u8>(&json, "N"), Err(DecodeError::Structure));
    assert_eq!(flag(&json, "F"), Ok(true));
    assert_eq!(flag(&json, "Missing"), Ok(false));
    assert_eq!(flag(&json, "N"), Err(DecodeError::Structure));
    assert_eq!(either(&json, "N", "S"), "N");
    assert_eq!(either(&json, "Missing", "S"), "S");
    assert_eq!(either(&json, "Missing", "Gone"), "Gone");
}

#[test]
fn the_first_item_that_is_refused_decides_the_error_of_a_list() {
    let json = Json::Array(vec![text("Boom"), text("Bloom"), number(1)]);
    assert_eq!(Vec::<State>::decode(&json), Err(DecodeError::UnknownName));
    let json = Json::Array(vec![text("Boom"), number(1), text("Bloom")]);
    assert_eq!(Vec::<State>::decode(&json), Err(DecodeError::Structure));
    let json = Json::Array(vec![text("Boom"), text("Bust")]);
    assert!(Vec::<State>::decode(&json).unwrap() == vec![State::Boom, State::Bust]);
}

#[test]
fn a_record_that_the_line_may_hold_or_not() {
    let whole = object_of(vec![("Name", text("Jameson")), ("FID", text("F1"))]);
    assert_eq!(part::<Commander>(&whole).unwrap().map(|c| c.name), Some("Jameson".to_string()));
    assert!(Commander::is_present(&whole));
    let none = object_of(vec![("Credits", number(1))]);
    assert!(part::<Commander>(&none).unwrap().is_none());
    let half = object_of(vec![("Name", text("Jameson"))]);
    assert!(!Commander::is_present(&half));
    assert!(part::<Commander>(&half).unwrap().is_none());
    let wrong = object_of(vec![("Name", text("Jameson")), ("FID", number(1))]);
    assert_eq!(part::<Commander>(&wrong).unwrap_err(), DecodeError::Structure);
    assert!(part::<Commander>(&number(1)).unwrap().is_none());
    assert!(has(&whole, "FID") && !has(&whole, "fid") && !has(&number(1), "FID"));
}

#[test]
fn whole_numbers_by_width() {
    assert_eq!(i16::decode(&Json::Number(Number::NegInt(-32768))), Ok(-32768));
    assert_eq!(i16::decode(&Json::Number(Number::NegInt(-32769))), Err(DecodeError::Structure));
    assert_eq!(i16::decode(&number(32767)), Ok(32767));
    assert_eq!(i16::decode(&number(32768)), Err(DecodeError::Structure));
    assert_eq!(i32::decode(&number(2147483648)), Err(DecodeError::Structure));
    assert_eq!(i64::decode(&number(9223372036854775807)), Ok(i64::MAX));
    assert_eq!(i64::decode(&number(9223372036854775808)), Err(DecodeError::Structure));
    assert_eq!(i64::decode(&Json::Number(Number::NegInt(i64::MIN))), Ok(i64::MIN));
    assert_eq!(u64::decode(&number(u64::MAX)), Ok(u64::MAX));
    assert_eq!(u64::decode(&Json::Number(Number::NegInt(3))), Ok(3));
    assert_eq!(u32::decode(&number(4294967296)), Err(DecodeError::Structure));
    assert_eq!(usize::decode(&number(12)), Ok(12));
    assert_eq!(bool::decode(&number(1)), Err(DecodeError::Structure));
    assert_eq!(Number::decode(&number(1)), Ok(Number::PosInt(1)));
    assert_eq!(Number::decode(&text("1")), Err(DecodeError::Structure));
    assert_eq!(from_str::<u64>("18446744073709551616"), Err(DecodeError::Structure));
}

#[test]
fn strings_compare_letter_by_letter() {
    assert!(str_eq("", ""));
    assert!(str_eq("Sol", "Sol"));
    assert!(!str_eq("Sol", "sol"));
    assert!(!str_eq("Sol", "Sol "));
    assert!(!str_eq("Sol", "So"));
    assert!(str_eq("Hélène", "Hélène"));
    assert!(!str_eq("Hélène", "Helene"));
    assert!(str_is_empty(""));
    assert!(!str_is_empty(" "));
}

#[test]
fn whole_numbers_in_decimal() {
    assert_eq!(to_decimal(0), "0");
    assert_eq!(to_decimal(7), "7");
    assert_eq!(to_decimal(10), "10");
    assert_eq!(to_decimal(-1), "-1");
    assert_eq!(to_decimal(1234567890), "1234567890");
    assert_eq!(to_decimal(i64::MAX), "9223372036854775807");
    assert_eq!(to_decimal(i64::MIN), "-9223372036854775808");
    let mut out = "n = ".to_string();
    push_decimal(&mut out, u64::MAX);
    assert_eq!(out, "n = 18446744073709551615");
}
