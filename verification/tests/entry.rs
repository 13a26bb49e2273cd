use elite_journal::de::{from_str, required, Decode, DecodeError, Verdict};
use elite_journal::entry::incremental::travel::FsdJump;
use elite_journal::entry::{decode_line, parse_status_file, Entry, Event, NavRoute, Timestamp};
use elite_journal::json::{Json, Number};
use elite_journal::system::Security;
use elite_journal::Government;

// The types of this test decode by hand. `verdict` and `agrees` describe a
// decoder to the verifier and are never run.
struct Dumb;

impl Decode for Dumb {
    fn verdict(_: Json) -> Verdict {
        unreachable!()
    }

    fn agrees(&self, _: Json) -> bool {
        unreachable!()
    }

    fn decode(json: &Json) -> Result<Dumb, DecodeError> {
        match json.get("Foo") {
            Some(Json::Null) => Ok(Dumb),
            _ => Err(DecodeError::Structure),
        }
    }
}

#[allow(unused)]
struct Dumber {
    key: (),
}

impl Decode for Dumber {
    fn verdict(_: Json) -> Verdict {
        unreachable!()
    }

    fn agrees(&self, _: Json) -> bool {
        unreachable!()
    }

    fn decode(json: &Json) -> Result<Dumber, DecodeError> {
        match json.get("Key") {
            Some(Json::Null) => Ok(Dumber { key: () }),
            _ => Err(DecodeError::Structure),
        }
    }
}

#[allow(unused)]
struct Dumbest {
    key: Government,
}

impl Decode for Dumbest {
    fn verdict(_: Json) -> Verdict {
        unreachable!()
    }

    fn agrees(&self, _: Json) -> bool {
        unreachable!()
    }

    fn decode(json: &Json) -> Result<Dumbest, DecodeError> {
        Ok(Dumbest { key: required::<Government>(json, "Key")? })
    }
}

#[test]
fn entry() {
    assert!(from_str::<Entry<Dumb>>(
        r#"
        {
            "timestamp": "1970-01-01T00:00:00Z",
            "Foo": null
        }
    "#
    )
    .is_ok());
    assert!(from_str::<Entry<Dumber>>(
        r#"
        {
            "timestamp": "1970-01-01T00:00:00Z",
            "Key": null
        }
    "#
    )
    .is_ok());
    assert!(from_str::<Entry<Dumbest>>(
        r#"
        {
            "timestamp": "1970-01-01T00:00:00Z",
            "Key": "Anarchy"
        }
    "#
    )
    .is_ok());
}

#[test]
fn a_jump_to_sol_at_the_start_of_time() {
    let entry = decode_line(
        r#"{"timestamp":"1970-01-01T00:00:00Z","event":"FSDJump","StarSystem":"Sol","SystemAddress":10477373803,"StarPos":[0.0,0.0,0.0],"SystemAllegiance":"Federation","SystemEconomy":"$economy_Refinery;","SystemSecondEconomy":"$economy_Service;","SystemGovernment":"$government_Democracy;","SystemSecurity":"$SYSTEM_SECURITY_high;","Population":22780919531,"JumpDist":8.591,"FuelUsed":0.024493,"FuelLevel":31.975506}"#,
    )
    .unwrap();
    assert_eq!(entry.timestamp, Timestamp { seconds: 0, nanos: 0 });
    assert!(!entry.horizons);
    assert!(!entry.odyssey);
    match entry.event {
        Event::FsdJump(FsdJump { system, cost }) => {
            assert_eq!(system.name, "Sol");
            assert_eq!(system.address, 10477373803);
            assert_eq!(system.population, Some(22780919531));
            assert_eq!(system.security, Some(Security::High));
            assert_eq!(system.government, Some(Government::Democracy));
            let cost = cost.unwrap();
            assert_eq!(cost.distance, Number::Float(8.591f64.to_bits()));
            assert_eq!(cost.used, Number::Float(0.024493f64.to_bits()));
            assert_eq!(cost.level, Number::Float(31.975506f64.to_bits()));
        },
        other => panic!("not a jump: {:?}", other),
    }
}

#[test]
fn a_jump_without_its_cost_is_a_jump_all_the_same() {
    let entry = decode_line(
        r#"{"timestamp":"2021-05-20T18:01:02Z","event":"FSDJump","StarSystem":"Sol","SystemAddress":10477373803,"JumpDist":8.591}"#,
    )
    .unwrap();
    match entry.event {
        Event::FsdJump(jump) => {
            assert_eq!(jump.system.name, "Sol");
            assert!(jump.cost.is_none());
        },
        other => panic!("not a jump: {:?}", other),
    }
}

#[test]
fn a_line_of_an_unknown_kind_decodes_to_other() {
    let entry = decode_line(
        r#"{"timestamp":"2021-05-20T18:01:02Z","event":"SquadronStartup","SquadronName":"X","CurrentRank":2}"#,
    )
    .unwrap();
    assert!(matches!(entry.event, Event::Other));
    assert_eq!(entry.timestamp, Timestamp { seconds: 1621533662, nanos: 0 });
    let music = decode_line(r#"{"timestamp":"2021-05-20T18:01:02Z","event":"Music"}"#).unwrap();
    assert!(matches!(music.event, Event::Other));
    let lower = decode_line(r#"{"timestamp":"2021-05-20T18:01:02Z","event":"fsdjump"}"#).unwrap();
    assert!(matches!(lower.event, Event::Other));
    let empty = decode_line(r#"{"timestamp":"2021-05-20T18:01:02Z","event":""}"#).unwrap();
    assert!(matches!(empty.event, Event::Other));
}

#[test]
fn a_line_without_its_tag_is_a_structural_error() {
    let r = decode_line(r#"{"timestamp":"2021-05-20T18:01:02Z","StarSystem":"Sol"}"#);
    assert_eq!(r.unwrap_err(), DecodeError::Structure);
    let r = decode_line(r#"{"timestamp":"2021-05-20T18:01:02Z","event":7}"#);
    assert_eq!(r.unwrap_err(), DecodeError::Structure);
    let r = decode_line(r#"{"timestamp":"2021-05-20T18:01:02Z","event":null}"#);
    assert_eq!(r.unwrap_err(), DecodeError::Structure);
    let r = decode_line(r#"{"timestamp":"2021-05-20T18:01:02Z","Event":"FSDJump"}"#);
    assert_eq!(r.unwrap_err(), DecodeError::Structure);
}

#[test]
fn a_line_without_its_timestamp_is_a_structural_error() {
    let r = decode_line(r#"{"event":"Music"}"#);
    assert_eq!(r.unwrap_err(), DecodeError::Structure);
    let r = decode_line(r#"{"timestamp":1621533662,"event":"Music"}"#);
    assert_eq!(r.unwrap_err(), DecodeError::Structure);
    let r = decode_line(r#"{"timestamp":"yesterday","event":"Music"}"#);
    assert_eq!(r.unwrap_err(), DecodeError::Structure);
    let r = decode_line(r#"{"timestamp":"2021-02-30T18:01:02Z","event":"Music"}"#);
    assert_eq!(r.unwrap_err(), DecodeError::Structure);
}

#[test]
fn a_line_that_is_no_json_is_a_syntax_error() {
    assert_eq!(decode_line(r#"{"timestamp":"#).unwrap_err(), DecodeError::Syntax);
    assert_eq!(decode_line("   ").unwrap_err(), DecodeError::Syntax);
    assert_eq!(decode_line(r#"["timestamp"]"#).unwrap_err(), DecodeError::Structure);
}

#[test]
fn a_known_kind_with_a_bad_record_is_an_error() {
    let r = decode_line(r#"{"timestamp":"2021-05-20T18:01:02Z","event":"FSDJump","StarSystem":"Sol"}"#);
    assert_eq!(r.unwrap_err(), DecodeError::Structure);
    let r = decode_line(
        r#"{"timestamp":"2021-05-20T18:01:02Z","event":"FSDJump","StarSystem":"Sol","SystemAddress":1,"SystemSecurity":"Tight"}"#,
    );
    assert_eq!(r.unwrap_err(), DecodeError::UnknownName);
}

#[test]
fn timestamps_are_read_as_instants_in_utc() {
    let json = Json::String("2021-05-20T20:01:02.5+02:00".to_string());
    assert_eq!(Timestamp::decode(&json), Ok(Timestamp { seconds: 1621533662, nanos: 500_000_000 }));
    let json = Json::String("1969-12-31T23:59:59Z".to_string());
    assert_eq!(Timestamp::decode(&json), Ok(Timestamp { seconds: -1, nanos: 0 }));
    assert_eq!(Timestamp::decode(&Json::Null), Err(DecodeError::Structure));
    assert_eq!(Timestamp::from_instant(None), Err(DecodeError::Structure));
    assert_eq!(Timestamp::from_instant(Some((5, 6))), Ok(Timestamp { seconds: 5, nanos: 6 }));
}

#[test]
fn flags_of_an_entry() {
    let entry = decode_line(
        r#"{"timestamp":"2021-05-20T18:01:02Z","event":"Music","horizons":true,"odyssey":false}"#,
    )
    .unwrap();
    assert!(entry.horizons);
    assert!(!entry.odyssey);
    let r = decode_line(r#"{"timestamp":"2021-05-20T18:01:02Z","event":"Music","odyssey":"yes"}"#);
    assert_eq!(r.unwrap_err(), DecodeError::Structure);
}

#[test]
fn a_route_from_its_status_file() {
    let entry = parse_status_file::<NavRoute>(
        r#"{ "timestamp":"2021-05-20T18:01:02Z", "event":"NavRoute", "Route":[
            { "StarSystem":"Sol", "SystemAddress":10477373803, "StarPos":[0.0,0.0,0.0], "StarClass":"G" },
            { "StarSystem":"Alpha Centauri", "SystemAddress":1109989017963, "StarPos":[3.03125,-0.09375,3.15625], "StarClass":"G" }
        ] }"#,
    )
    .unwrap();
    let NavRoute::Route(route) = entry.event;
    assert_eq!(route.len(), 2);
    assert_eq!(route[0].star_system, "Sol");
    assert_eq!(route[0].system_address, 10477373803);
    assert_eq!(route[1].star_system, "Alpha Centauri");
    assert_eq!(route[1].star_pos.x, Number::Float(3.03125f64.to_bits()));
    assert_eq!(route[1].star_class, "G");
    let r = parse_status_file::<NavRoute>(r#"{ "timestamp":"2021-05-20T18:01:02Z", "event":"NavRoute" }"#);
    assert_eq!(r.unwrap_err(), DecodeError::Structure);
}

#[test]
fn events_of_every_family() {
    let e = decode_line(
        r#"{"timestamp":"2021-05-20T18:01:02Z","event":"Fileheader","part":1,"language":"English\\UK","gameversion":"3.8.0.404","build":"r123"}"#,
    )
    .unwrap();
    match e.event {
        Event::Fileheader(h) => {
            assert_eq!(h.part, 1);
            assert_eq!(h.language, "English\\UK");
            assert_eq!(h.gameversion, "3.8.0.404");
            assert_eq!(h.build, "r123");
        },
        other => panic!("{:?}", other),
    }
    let e = decode_line(
        r#"{"timestamp":"2021-05-20T18:01:02Z","event":"DockingGranted","StationName":"Jameson Memorial","StationType":"Orbis","MarketId":128666762,"LandingPad":12}"#,
    )
    .unwrap();
    match e.event {
        Event::DockingGranted(d) => {
            assert_eq!(d.station_name, "Jameson Memorial");
            assert_eq!(d.station_type, "Orbis");
            assert_eq!(d.market_id, 128666762);
            assert_eq!(d.landing_pad, 12);
        },
        other => panic!("{:?}", other),
    }
    let e = decode_line(
        r#"{"timestamp":"2021-05-20T18:01:02Z","event":"FSDTarget","Name":"Sol","SystemAddress":10477373803,"StarClass":"G","RemainingJumpsInRoute":3}"#,
    )
    .unwrap();
    match e.event {
        Event::FsdTarget(t) => {
            assert_eq!(t.name, "Sol");
            assert_eq!(t.remaining, Some(3));
        },
        other => panic!("{:?}", other),
    }
    let e = decode_line(
        r#"{"timestamp":"2021-05-20T18:01:02Z","event":"SellExplorationData","Systems":["Sol","Wolf 359"],"Discovered":[],"BaseValue":100,"Bonus":5,"TotalEarnings":105}"#,
    )
    .unwrap();
    match e.event {
        Event::SellExplorationData(s) => {
            assert_eq!(s.systems, vec!["Sol".to_string(), "Wolf 359".to_string()]);
            assert!(s.discovered.is_empty());
            assert_eq!((s.base_value, s.bonus, s.total_earnings), (100, 5, 105));
        },
        other => panic!("{:?}", other),
    }
    let e = decode_line(r#"{"timestamp":"2021-05-20T18:01:02Z","event":"Commander","Name":"Jameson","FID":"F1"}"#).unwrap();
    match e.event {
        Event::Commander(c) => assert_eq!((c.name.as_str(), c.fid.as_str()), ("Jameson", "F1")),
        other => panic!("{:?}", other),
    }
    let e = decode_line(r#"{"timestamp":"2021-05-20T18:01:02Z","event":"ClearSavedGame","Commander":"Jameson","FID":"F1"}"#).unwrap();
    match e.event {
        Event::ClearSavedGame(c) => assert_eq!(c.name, "Jameson"),
        other => panic!("{:?}", other),
    }
}

#[test]
fn a_location_with_a_station_but_no_body() {
    let e = decode_line(
        r#"{"timestamp":"2021-05-20T18:01:02Z","event":"Location","Docked":true,"StationName":"Abraham Lincoln","StationType":"Orbis","MarketID":128016384,"StationGovernment":"$government_Democracy;","StationServices":["dock","autodock","shipyard"],"StationEconomies":[{"Name":"$economy_Refinery;","Proportion":0.67},{"Name":"$economy_Service;","Proportion":0.33}],"StarSystem":"Sol","SystemAddress":10477373803,"Body":"Earth","BodyID":3,"BodyType":"Planet"}"#,
    )
    .unwrap();
    match e.event {
        Event::Location(l) => {
            assert!(l.docked);
            assert_eq!(l.system.name, "Sol");
            assert!(l.body.is_none());
            assert!(l.latitude.is_none());
            let station = l.station.unwrap();
            assert_eq!(station.name, "Abraham Lincoln");
            assert_eq!(station.ty, Some(elite_journal::station::StationType::Orbis));
            assert_eq!(station.market_id, Some(128016384));
            assert_eq!(station.government, Some(Government::Democracy));
            let services = station.services.unwrap();
            assert_eq!(services.len(), 3);
            assert_eq!(services[2], elite_journal::station::Service::Shipyard);
            let economies = station.economies.unwrap();
            assert_eq!(economies.len(), 2);
            assert!(economies[0].name == elite_journal::system::Economy::Refinery);
            assert_eq!(economies[1].proportion, Number::Float(0.33f64.to_bits()));
            assert!(station.wanted.is_none());
        },
        other => panic!("{:?}", other),
    }
    let e = decode_line(
        r#"{"timestamp":"2021-05-20T18:01:02Z","event":"Location","Docked":false,"StarSystem":"Sol","SystemAddress":10477373803}"#,
    )
    .unwrap();
    match e.event {
        Event::Location(l) => {
            assert!(!l.docked);
            assert!(l.station.is_none());
        },
        other => panic!("{:?}", other),
    }
}

#[test]
fn a_station_that_is_there_and_wrong_is_an_error_of_the_line() {
    let r = decode_line(
        r#"{"timestamp":"2021-05-20T18:01:02Z","event":"Location","Docked":true,"StationName":"Abraham Lincoln","StationGovernment":"$government_Democrazy;","StarSystem":"Sol","SystemAddress":10477373803}"#,
    );
    assert_eq!(r.unwrap_err(), DecodeError::UnknownName);
    let r = decode_line(
        r#"{"timestamp":"2021-05-20T18:01:02Z","event":"Location","Docked":true,"StationName":"Abraham Lincoln","MarketID":"x","StarSystem":"Sol","SystemAddress":10477373803}"#,
    );
    assert_eq!(r.unwrap_err(), DecodeError::Structure);
    let r = decode_line(
        r#"{"timestamp":"2021-05-20T18:01:02Z","event":"FSDJump","StarSystem":"Sol","SystemAddress":1,"JumpDist":8.5,"FuelUsed":"much","FuelLevel":31.5}"#,
    );
    assert_eq!(r.unwrap_err(), DecodeError::Structure);
}
