use elite_journal::de::{from_str, DecodeError};
use elite_journal::faction::{
    Faction, FactionConflict, FactionConflictProgress, FactionConflictType, FactionInfo, State,
    StateTrend, Status,
};
use elite_journal::json::Number;
use elite_journal::{Allegiance, Government};

#[test]
fn faction() {
    assert!(from_str::<Faction>(
        r#"
        { "Name": "Faction A" }
    "#
    )
    .is_ok());
    let faction = from_str::<Faction>(
        r#"
        {
            "Name": "Faction A",
            "FactionState": ""
        }
    "#,
    )
    .unwrap();
    assert_eq!(None, faction.state);
}

#[test]
fn faction_info() {
    let info = from_str::<FactionInfo>(
        r#"
        {
            "Name": "Faction A",
            "FactionState": "None",
            "Government": "Democracy",
            "Influence": 77.66,
            "Allegiance": "Pilots Federation",
            "Happiness": "",
            "PendingStates": [],
            "ActiveStates": [],
            "RecoveringStates": []
        }
    "#,
    )
    .unwrap();
    assert_eq!(None, info.state);
    assert_eq!(None, info.happiness);
    assert!(!info.squadron_faction);
    assert!(!info.home_system);
    assert!(!info.happiest_system);
}

#[test]
fn faction_info_keeps_what_the_line_says() {
    let info = from_str::<FactionInfo>(
        r#"
        {
            "Name": "Faction A",
            "FactionState": "Civil war",
            "Government": "$government_Democracy;",
            "Influence": 77.66,
            "Allegiance": "Pilots Federation",
            "Happiness": "$Faction_HappinessBand2;",
            "ActiveStates": [ { "State": "Boom" }, { "State": "Civil War", "Trend": 2 } ],
            "MyReputation": -3,
            "HomeSystem": true
        }
    "#,
    )
    .unwrap();
    assert_eq!(info.name, "Faction A");
    assert_eq!(info.state, Some(State::CivilWar));
    assert_eq!(info.government, Government::Democracy);
    assert_eq!(info.influence, Number::Float(77.66f64.to_bits()));
    assert_eq!(info.allegiance, Allegiance::PilotsFederation);
    assert_eq!(info.happiness, Some(elite_journal::faction::Happiness::Happy));
    assert!(info.pending_states.is_empty());
    assert_eq!(info.active_states.len(), 2);
    assert_eq!(info.active_states[0].state, State::Boom);
    assert_eq!(info.active_states[0].trend, None);
    assert_eq!(info.active_states[1].state, State::CivilWar);
    assert_eq!(info.active_states[1].trend, Some(2));
    assert!(info.recovering_states.is_empty());
    assert_eq!(info.reputation, Some(Number::NegInt(-3)));
    assert!(info.home_system);
    assert!(!info.squadron_faction);
}

#[test]
fn state_trend() {
    assert!(from_str::<StateTrend>(
        r#"
        { "State": "Expansion" }
    "#
    )
    .is_ok());
    assert!(from_str::<StateTrend>(
        r#"
        { "State": "Expansion", "Trend": null }
    "#
    )
    .is_ok());
    assert_eq!(
        from_str::<StateTrend>(
            r#"
        { "State": "Expansion", "Trend": 0 }
    "#
        )
        .unwrap()
        .trend,
        None
    );
    assert_eq!(
        from_str::<StateTrend>(
            r#"
        { "State": "Expansion", "Trend": 1 }
    "#
        )
        .unwrap()
        .trend,
        Some(1)
    );
}

#[test]
fn conflict() {
    assert!(from_str::<FactionConflict>(
        r#"
        {
            "WarType": "civilwar",
            "Status": "active",
            "Faction1": { "Name": "Faction A", "Stake": "Installation X", "WonDays": 2 },
            "Faction2": { "Name": "Faction A", "Stake": "Installation X", "WonDays": 2 }
        }
    "#
    )
    .is_ok());
}

#[test]
fn conflict_keeps_what_the_line_says() {
    let conflict = from_str::<FactionConflict>(
        r#"
        {
            "WarType": "election",
            "Status": "",
            "Faction1": { "Name": "Faction A", "Stake": "Installation X", "WonDays": 2 },
            "Faction2": { "Name": "Faction B", "Stake": "", "WonDays": 0 }
        }
    "#,
    )
    .unwrap();
    assert_eq!(conflict.ty, FactionConflictType::Election);
    assert_eq!(conflict.status, Some(Status::Recovering));
    assert_eq!(conflict.faction_1.name, "Faction A");
    assert_eq!(conflict.faction_1.stake, "Installation X");
    assert_eq!(conflict.faction_1.won_days, 2);
    assert_eq!(conflict.faction_2.name, "Faction B");
    assert_eq!(conflict.faction_2.stake, "");
    assert_eq!(conflict.faction_2.won_days, 0);
}

#[test]
fn conflict_progress() {
    assert!(from_str::<FactionConflictProgress>(
        r#"
        { "Name": "Faction A", "Stake": "Installation X", "WonDays": 2 }
    "#
    )
    .is_ok());
}

#[test]
fn a_missing_member_is_a_structural_error() {
    let r = from_str::<FactionConflictProgress>(r#"{ "Name": "Faction A", "WonDays": 2 }"#);
    assert_eq!(r.unwrap_err(), DecodeError::Structure);
}

#[test]
fn a_number_out_of_range_is_a_structural_error() {
    let r = from_str::<FactionConflictProgress>(
        r#"{ "Name": "Faction A", "Stake": "X", "WonDays": 256 }"#,
    );
    assert_eq!(r.unwrap_err(), DecodeError::Structure);
    let r = from_str::<FactionConflictProgress>(
        r#"{ "Name": "Faction A", "Stake": "X", "WonDays": -1 }"#,
    );
    assert_eq!(r.unwrap_err(), DecodeError::Structure);
    let r = from_str::<FactionConflictProgress>(
        r#"{ "Name": "Faction A", "Stake": "X", "WonDays": 2.0 }"#,
    );
    assert_eq!(r.unwrap_err(), DecodeError::Structure);
    let r = from_str::<FactionConflictProgress>(
        r#"{ "Name": "Faction A", "Stake": "X", "WonDays": 255 }"#,
    );
    assert_eq!(r.unwrap().won_days, 255);
}

#[test]
fn the_first_member_that_is_refused_decides_the_error() {
    let r = from_str::<StateTrend>(r#"{ "State": "Exapnsion", "Trend": "up" }"#);
    assert_eq!(r.unwrap_err(), DecodeError::UnknownName);
    let r = from_str::<StateTrend>(r#"{ "State": 3, "Trend": "up" }"#);
    assert_eq!(r.unwrap_err(), DecodeError::Structure);
    let r = from_str::<StateTrend>(r#"{ "State": "Expansion", "Trend": "up" }"#);
    assert_eq!(r.unwrap_err(), DecodeError::Structure);
}

#[test]
fn what_is_no_object_is_no_record() {
    assert_eq!(from_str::<Faction>(r#""Faction A""#).unwrap_err(), DecodeError::Structure);
    assert_eq!(from_str::<Faction>(r#"["Faction A"]"#).unwrap_err(), DecodeError::Structure);
    assert_eq!(from_str::<Faction>("null").unwrap_err(), DecodeError::Structure);
}
