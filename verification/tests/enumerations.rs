use elite_journal::alias::{from_name, Enumeration};
use elite_journal::de::{from_str, DecodeError, Nullable};
use elite_journal::faction::{FactionConflictType, Happiness, State, Status};
use elite_journal::station::{Service, StationType};
use elite_journal::system::{Economy, Security};
use elite_journal::{Allegiance, Government};

#[test]
fn government() {
    let high_tech = from_str::<Government>(
        r#"
        "Prison Colony"
    "#,
    )
    .unwrap();
    assert_eq!(Government::PrisonColony, high_tech);
    let extraction = from_str::<Government>(
        r#"
        "$government_Dictatorship;"
    "#,
    )
    .unwrap();
    assert_eq!(Government::Dictatorship, extraction);
    assert!(Government::Unspecified != Government::Unspecified);
    assert!(from_str::<Government>(r#""$government_None;""#).unwrap().is_null());
    assert!(from_str::<Government>(r#""None""#).unwrap().is_null());
    assert!(from_str::<Government>(r#""""#).unwrap().is_null());
}

#[test]
fn allegiance() {
    let pilots_federation = from_str::<Allegiance>(
        r#"
        "Pilots Federation"
    "#,
    )
    .unwrap();
    assert_eq!(Allegiance::PilotsFederation, pilots_federation);
    let player_pilots = from_str::<Allegiance>(
        r#"
        "PlayerPilots"
    "#,
    )
    .unwrap();
    assert_eq!(Allegiance::PlayerPilots, player_pilots);
    assert!(Allegiance::Unspecified != Allegiance::Unspecified);
    assert!(from_str::<Allegiance>(r#""None""#).unwrap().is_null());
    assert!(from_str::<Allegiance>(r#""""#).unwrap().is_null());
}

#[test]
fn state() {
    let revolution = from_str::<State>(
        r#"
        "Revolution"
    "#,
    )
    .unwrap();
    let none = from_str::<State>(
        r#"
        ""
    "#,
    )
    .unwrap();
    assert_eq!(State::Revolution, revolution);
    assert!(State::Unspecified != none);
    assert!(none.is_null());
}

#[test]
fn status() {
    let active = from_str::<Status>(r#""active""#).unwrap();
    assert_eq!(Status::Active, active);
    let pending = from_str::<Status>(r#""pending""#).unwrap();
    assert_eq!(Status::Pending, pending);
    let recovering = from_str::<Status>(r#""""#).unwrap();
    assert_eq!(Status::Recovering, recovering);
    assert!(active > pending && pending > recovering);
}

#[test]
fn conflict_type() {
    let war = from_str::<FactionConflictType>(r#""war""#).unwrap();
    let civil_war = from_str::<FactionConflictType>(r#""civilwar""#).unwrap();
    let election = from_str::<FactionConflictType>(r#""election""#).unwrap();
    assert_eq!(FactionConflictType::War, war);
    assert_eq!(FactionConflictType::CivilWar, civil_war);
    assert_eq!(FactionConflictType::Election, election);
}

#[test]
fn happiness() {
    let elated = from_str::<Happiness>(
        r#"
        "$Faction_HappinessBand1;"
    "#,
    )
    .unwrap();
    assert_eq!(Happiness::Elated, elated);
    let unhappy = from_str::<Happiness>(
        r#"
        "$Faction_HappinessBand4;"
    "#,
    )
    .unwrap();
    let none = from_str::<Happiness>(r#""""#).unwrap();
    assert_eq!(Happiness::Unhappy, unhappy);
    assert!(elated > unhappy);
    assert!(Happiness::Unspecified != none);
    assert!(!(elated > Happiness::Unspecified));
    assert!(!(elated < Happiness::Unspecified));
    assert!(none.is_null());
}

#[test]
fn security() {
    let high = from_str::<Security>(
        r#"
        "$SYSTEM_SECURITY_high;"
    "#,
    )
    .unwrap();
    assert_eq!(Security::High, high);
    let low = from_str::<Security>(
        r#"
        "$GAlAXY_MAP_INFO_state_low;"
    "#,
    )
    .unwrap();
    assert_eq!(Security::Low, low);
    let anarchy = from_str::<Security>(
        r#"
        "Anarchy"
    "#,
    )
    .unwrap();
    assert_eq!(Security::Anarchy, anarchy);
    assert!(!anarchy.is_null());
    let none = from_str::<Security>(r#""""#).unwrap();
    assert!(anarchy != none);
    assert!(Security::Unspecified != none);
    assert!(none.is_null());
    assert!(high > low);
    assert!(low > anarchy);
    assert!(!(anarchy > none));
    assert!(!(anarchy < none));
}

#[test]
fn economy() {
    let high_tech = from_str::<Economy>(
        r#"
        "High Tech"
    "#,
    )
    .unwrap();
    assert_eq!(Economy::HighTech, high_tech);
    let extraction = from_str::<Economy>(
        r#"
        "$economy_Extraction;"
    "#,
    )
    .unwrap();
    assert_eq!(Economy::Extraction, extraction);
    assert!(Economy::Unspecified != Economy::Unspecified);
    assert!(from_str::<Economy>(r#""$economy_None;""#).unwrap().is_null());
    assert!(from_str::<Economy>(r#""None""#).unwrap().is_null());
    assert!(from_str::<Economy>(r#""""#).unwrap().is_null());
}

#[test]
fn unknown_spelling_is_refused() {
    assert_eq!(from_str::<Government>(r#""anarchy""#).unwrap_err(), DecodeError::UnknownName);
    assert_eq!(from_str::<Government>(r#""Anarch""#).unwrap_err(), DecodeError::UnknownName);
    assert_eq!(from_str::<Government>(r#""Anarchy ""#).unwrap_err(), DecodeError::UnknownName);
    assert_eq!(from_str::<Government>(r#""Prison  Colony""#).unwrap_err(), DecodeError::UnknownName);
    assert_eq!(from_str::<Status>(r#""Active""#).unwrap_err(), DecodeError::UnknownName);
}

#[test]
fn enumeration_of_the_wrong_kind_is_a_structural_error() {
    assert_eq!(from_str::<Government>("12").unwrap_err(), DecodeError::Structure);
    assert_eq!(from_str::<Government>("null").unwrap_err(), DecodeError::Structure);
    assert_eq!(from_str::<Government>(r#"["Anarchy"]"#).unwrap_err(), DecodeError::Structure);
}

#[test]
fn text_that_is_no_json_is_a_syntax_error() {
    assert_eq!(from_str::<Government>(r#""Anarchy"#).unwrap_err(), DecodeError::Syntax);
    assert_eq!(from_str::<Government>("").unwrap_err(), DecodeError::Syntax);
    assert_eq!(from_str::<Government>(r#""Anarchy" "Anarchy""#).unwrap_err(), DecodeError::Syntax);
}

fn every_spelling_decodes_to_its_variant<T: Enumeration + PartialEq + core::fmt::Debug>() -> usize {
    let table = T::spellings();
    for (spelling, variant) in table {
        let found = from_name::<T>(spelling).unwrap();
        // `==` is not reflexive on every enumeration, so compare what is printed.
        assert_eq!(format!("{:?}", found), format!("{:?}", variant));
    }
    table.len()
}

#[test]
fn every_listed_spelling_decodes_to_the_variant_it_is_listed_for() {
    assert_eq!(every_spelling_decodes_to_its_variant::<Government>(), 33);
    assert_eq!(every_spelling_decodes_to_its_variant::<Allegiance>(), 11);
    assert_eq!(every_spelling_decodes_to_its_variant::<State>(), 52);
    assert_eq!(every_spelling_decodes_to_its_variant::<Status>(), 3);
    assert_eq!(every_spelling_decodes_to_its_variant::<Happiness>(), 6);
    assert_eq!(every_spelling_decodes_to_its_variant::<Security>(), 14);
    assert_eq!(every_spelling_decodes_to_its_variant::<Economy>(), 30);
    assert_eq!(every_spelling_decodes_to_its_variant::<Service>(), 37);
    assert_eq!(every_spelling_decodes_to_its_variant::<StationType>(), 9);
}

fn tables_are_in_order<T: Enumeration>() {
    let table = T::spellings();
    for pair in table.windows(2) {
        assert!(pair[0].0 < pair[1].0);
    }
}

#[test]
fn spelling_tables_are_in_alphabetical_order() {
    tables_are_in_order::<Government>();
    tables_are_in_order::<Allegiance>();
    tables_are_in_order::<State>();
    tables_are_in_order::<Security>();
    tables_are_in_order::<Economy>();
    tables_are_in_order::<Service>();
}

#[test]
fn an_alias_and_the_canonical_name_decode_alike() {
    assert_eq!(from_name::<Government>("Anarchy"), from_name::<Government>("$government_Anarchy;"));
    assert_eq!(from_name::<Government>("Anarchy"), Some(Government::Anarchy));
    assert_eq!(from_name::<Government>("Prison colony"), from_name::<Government>("PrisonColony"));
    assert_eq!(from_name::<State>("Civil war"), Some(State::CivilWar));
    assert_eq!(from_name::<State>("Civil War"), Some(State::CivilWar));
    assert_eq!(from_name::<State>("CivilWar"), Some(State::CivilWar));
    assert_eq!(from_name::<State>("Terrorist Attack"), Some(State::Terrorism));
    assert_eq!(from_name::<Economy>("$economy_Agri;"), Some(Economy::Agriculture));
    assert_eq!(from_name::<Security>("$GAlAXY_MAP_INFO_state_medium;"), Some(Security::Medium));
    assert_eq!(from_name::<Allegiance>("Pilots Federation"), from_name::<Allegiance>("PilotsFederation"));
}

#[test]
fn the_unspecified_variant_is_null_and_equal_to_nothing() {
    for spelling in ["None", "", "$government_None;"] {
        let first = from_name::<Government>(spelling).unwrap();
        let second = from_name::<Government>(spelling).unwrap();
        assert!(first.is_null());
        assert!(first != second);
        assert!(!(first == second));
    }
    for spelling in ["None", ""] {
        let first = from_name::<State>(spelling).unwrap();
        let second = from_name::<State>(spelling).unwrap();
        assert!(first.is_null() && first != second);
        let first = from_name::<Security>(spelling).unwrap();
        let second = from_name::<Security>(spelling).unwrap();
        assert!(first.is_null() && first != second);
        let first = from_name::<Allegiance>(spelling).unwrap();
        let second = from_name::<Allegiance>(spelling).unwrap();
        assert!(first.is_null() && first != second);
    }
    for spelling in ["None", "", "$economy_None;"] {
        let first = from_name::<Economy>(spelling).unwrap();
        let second = from_name::<Economy>(spelling).unwrap();
        assert!(first.is_null() && first != second);
    }
    let first = from_name::<Happiness>("").unwrap();
    let second = from_name::<Happiness>("").unwrap();
    assert!(first.is_null() && first != second);
}

#[test]
fn variants_other_than_unspecified_compare_by_identity() {
    assert!(Government::Anarchy == Government::Anarchy);
    assert!(Government::Anarchy != Government::Feudal);
    assert!(Government::Anarchy != Government::Unspecified);
    assert!(Security::Anarchy == Security::Anarchy);
    assert!(!Government::Anarchy.is_null());
    assert!(!Security::High.is_null());
}

#[test]
fn names_decode_back_to_their_variant() {
    assert_eq!(Security::High.name(), "High");
    assert_eq!(Security::Unspecified.name(), "None");
    assert_eq!(Economy::HighTech.name(), "HighTech");
    assert_eq!(StationType::FleetCarrier.name(), "FleetCarrier");
    assert_eq!(from_name::<Economy>(Economy::Tourism.name()), Some(Economy::Tourism));
}

#[test]
fn order_of_ranked_enumerations() {
    assert!(Status::Active > Status::Recovering);
    assert!(Status::Pending <= Status::Pending);
    assert!(Happiness::Happy > Happiness::Despondent);
    assert_eq!(Happiness::Unspecified.partial_cmp(&Happiness::Unspecified), None);
    assert!(Security::Medium > Security::Low);
    assert_eq!(Security::Unspecified.partial_cmp(&Security::High), None);
    assert_eq!(Security::Anarchy.partial_cmp(&Security::Anarchy), Some(core::cmp::Ordering::Equal));
}

#[test]
fn only_the_unspecified_variant_is_null() {
    for (_, variant) in Security::spellings() {
        assert_eq!(variant.is_null(), matches!(variant, Security::Unspecified));
    }
    for (_, variant) in Government::spellings() {
        assert_eq!(variant.is_null(), matches!(variant, Government::Unspecified));
    }
    for (_, variant) in Economy::spellings() {
        assert_eq!(variant.is_null(), matches!(variant, Economy::Unspecified));
    }
    for (_, variant) in State::spellings() {
        assert_eq!(variant.is_null(), matches!(variant, State::Unspecified));
    }
    for (_, variant) in Happiness::spellings() {
        assert_eq!(variant.is_null(), matches!(variant, Happiness::Unspecified));
    }
    for (_, variant) in Allegiance::spellings() {
        assert_eq!(variant.is_null(), matches!(variant, Allegiance::Unspecified));
    }
}
