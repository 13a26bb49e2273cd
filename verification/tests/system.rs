use elite_journal::de::{from_str, DecodeError};
use elite_journal::json::Number;
use elite_journal::system::{Coordinate, Economy, PowerplayState, Security, System};
use elite_journal::{Allegiance, Government};

fn as_f64(n: Number) -> f64 {
    match n {
        Number::PosInt(u) => u as f64,
        Number::NegInt(i) => i as f64,
        Number::Float(bits) => f64::from_bits(bits),
    }
}

#[test]
fn system() {
    let system = from_str::<System>(
        r#"
        {
            "StarPos": [123.321, 1337.42, 0.0],
            "StarSystem": "Somewhere",
            "SystemAddress": 1928374650,
            "Population": 0,
            "SystemSecurity": "",
            "SystemGovernment": "",
            "SystemAllegiance": "",
            "SystemEconomy": "",
            "SystemSecondEconomy": ""
        }
    "#,
    )
    .unwrap();
    assert_eq!(Some(0.), system.pos.map(|p| as_f64(p.z)));
    assert_eq!(None, system.population);
    assert_eq!(None, system.security);
    assert_eq!(None, system.government);
    assert_eq!(None, system.allegiance);
    assert_eq!(None, system.economy);
    assert_eq!(None, system.second_economy);
}

#[test]
fn system_keeps_what_the_line_says() {
    let system = from_str::<System>(
        r#"
        {
            "StarPos": [123.321, -1337.42, 7],
            "StarSystem": "Somewhere",
            "SystemAddress": -1928374650,
            "Population": 22780919531,
            "SystemSecurity": "$SYSTEM_SECURITY_high;",
            "SystemGovernment": "$government_Democracy;",
            "SystemAllegiance": "Federation",
            "SystemEconomy": "$economy_Refinery;",
            "SystemSecondEconomy": "$economy_None;",
            "SystemFaction": { "Name": "Mother Gaia", "FactionState": "Boom" },
            "Powers": [ "Felicia Winters", "Zachary Hudson" ],
            "PowerplayState": "Contested"
        }
    "#,
    )
    .unwrap();
    assert_eq!(system.address, -1928374650);
    assert_eq!(system.name, "Somewhere");
    let pos = system.pos.unwrap();
    assert_eq!(as_f64(pos.x), 123.321);
    assert_eq!(as_f64(pos.y), -1337.42);
    assert_eq!(pos.z, Number::PosInt(7));
    assert_eq!(system.population, Some(22780919531));
    assert_eq!(system.security, Some(Security::High));
    assert_eq!(system.government, Some(Government::Democracy));
    assert_eq!(system.allegiance, Some(Allegiance::Federation));
    assert_eq!(system.economy, Some(Economy::Refinery));
    assert_eq!(system.second_economy, None);
    let faction = system.controlling_faction.unwrap();
    assert_eq!(faction.name, "Mother Gaia");
    assert_eq!(faction.state, Some(elite_journal::faction::State::Boom));
    assert!(system.factions.is_empty());
    assert!(system.conflicts.is_empty());
    assert_eq!(system.powers, Some(vec!["Felicia Winters".to_string(), "Zachary Hudson".to_string()]));
    assert_eq!(system.powerplay_state, Some(PowerplayState::Contested));
}

#[test]
fn anarchy_is_a_security_like_any_other() {
    for spelling in ["Anarchy", "$SYSTEM_SECURITY_anarchy;", "$GAlAXY_MAP_INFO_state_anarchy;"] {
        let text = format!(
            r#"{{ "StarSystem": "Somewhere", "SystemAddress": 1, "SystemSecurity": "{}" }}"#,
            spelling
        );
        let system = from_str::<System>(&text).unwrap();
        assert_eq!(system.security, Some(Security::Anarchy));
    }
    let none = from_str::<System>(
        r#"{ "StarSystem": "Somewhere", "SystemAddress": 1, "SystemSecurity": "" }"#,
    )
    .unwrap();
    assert_eq!(none.security, None);
}

#[test]
fn members_left_out_are_no_value() {
    let system = from_str::<System>(r#"{ "StarSystem": "Somewhere", "SystemAddress": 1 }"#).unwrap();
    assert!(system.pos.is_none());
    assert_eq!(system.population, None);
    assert_eq!(system.security, None);
    assert_eq!(system.government, None);
    assert_eq!(system.economy, None);
    assert!(system.controlling_faction.is_none());
    assert!(system.powers.is_none());
    assert!(system.powerplay_state.is_none());
}

#[test]
fn an_unknown_spelling_in_a_system_is_told_apart_from_a_wrong_shape() {
    let r = from_str::<System>(
        r#"{ "StarSystem": "Somewhere", "SystemAddress": 1, "SystemGovernment": "Monarchy" }"#,
    );
    assert_eq!(r.unwrap_err(), DecodeError::UnknownName);
    let r = from_str::<System>(r#"{ "StarSystem": "Somewhere", "SystemAddress": "1" }"#);
    assert_eq!(r.unwrap_err(), DecodeError::Structure);
    let r = from_str::<System>(r#"{ "SystemAddress": 1 }"#);
    assert_eq!(r.unwrap_err(), DecodeError::Structure);
}

#[test]
fn new_system_knows_its_address_and_name_only() {
    let system = System::new(10477373803, "Sol");
    assert_eq!(system.address, 10477373803);
    assert_eq!(system.name, "Sol");
    assert!(system.pos.is_none());
    assert_eq!(system.population, None);
    assert_eq!(system.security, None);
    assert_eq!(system.government, None);
    assert_eq!(system.allegiance, None);
    assert_eq!(system.economy, None);
    assert_eq!(system.second_economy, None);
    assert!(system.controlling_faction.is_none());
    assert!(system.factions.is_empty());
    assert!(system.conflicts.is_empty());
    assert!(system.powers.is_none());
    assert!(system.powerplay_state.is_none());
}

#[test]
fn coordinate_in_both_forms() {
    let c = from_str::<Coordinate>("[1.5, -2, 3]").unwrap();
    assert_eq!(c.x, Number::Float(1.5f64.to_bits()));
    assert_eq!(c.y, Number::NegInt(-2));
    assert_eq!(c.z, Number::PosInt(3));
    let p = from_str::<Coordinate>(r#"{ "type": "Point", "coordinates": [1.5, -2, 3] }"#).unwrap();
    assert_eq!(p, c);
}

#[test]
fn coordinate_needs_three_numbers() {
    assert_eq!(from_str::<Coordinate>("[1.5, -2]").unwrap_err(), DecodeError::Structure);
    assert_eq!(from_str::<Coordinate>("[1.5, -2, 3, 4]").unwrap_err(), DecodeError::Structure);
    assert_eq!(from_str::<Coordinate>(r#"[1.5, -2, "3"]"#).unwrap_err(), DecodeError::Structure);
    assert_eq!(from_str::<Coordinate>(r#"{ "coordinates": [1, 2, 3] }"#).unwrap_err(), DecodeError::Structure);
    assert_eq!(from_str::<Coordinate>(r#"{ "type": "Point" }"#).unwrap_err(), DecodeError::Structure);
    assert_eq!(from_str::<Coordinate>("7").unwrap_err(), DecodeError::Structure);
}
