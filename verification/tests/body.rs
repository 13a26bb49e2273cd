use elite_journal::body::{Body, BodyType, ParentMap, Signal};
use elite_journal::de::{from_str, DecodeError};
use elite_journal::entry::incremental::exploration::{SAASignalsFound, Scan, ScanTarget};
use elite_journal::entry::incremental::startup::{Cargos, LoadGame, Vessel};
use elite_journal::entry::market::Market;
use elite_journal::json::Number;
use elite_journal::ship::{Fuel, JumpCost};
use elite_journal::station::{DockingDeniedReason, LandingPads, PadSize, Station};

const BODY: &str = r#"{
    "BodyID": 7, "BodyName": "Earth", "BodyType": "Planet", "DistanceFromArrivalLS": 499.5,
    "Parents": [ {"Star": 0}, {"Null": 1, "Ring": 2} ],
    "PlanetClass": "Earthlike body", "TidalLock": false, "Landable": false,
    "TerraformState": "", "Atmosphere": "thin", "AtmosphereType": "EarthLike", "Volcanism": "",
    "MassEM": 1, "Radius": 6378000.0, "SurfaceGravity": 9.8, "SurfaceTemperature": 288.0,
    "SurfacePressure": 101231.65, "Composition": { "Ice": 0.0, "Rock": 0.67, "Metal": 0.33 },
    "SemiMajorAxis": 1.0, "Eccentricity": 0.0167, "OrbitalInclination": 0.0, "Periapsis": 114.2,
    "OrbitalPeriod": 31558150.0, "RotationPeriod": 86164.1, "AxialTilt": 0.4, "AscendingNode": -11.2,
    "MeanAnomaly": 358.6, "WasMapped": true, "WasDiscovered": true
}"#;

const STAR: &str = r#"{
    "BodyName": "Sol", "BodyID": 0, "Parents": [], "AbsoluteMagnitude": 4.83, "Age_MY": 4792,
    "DistanceFromArrivalLS": 0.0, "Luminosity": "V", "StarType": "G", "StellarMass": 1.0, "Subclass": 2,
    "AscendingNode": 0.0, "AxialTilt": 0.0, "Eccentricity": 0.0, "MeanAnomaly": 0.0,
    "OrbitalInclination": 0.0, "OrbitalPeriod": 0.0, "Periapsis": 0.0, "Radius": 695700000.0,
    "RotationPeriod": 2192832.0, "SemiMajorAxis": 0.0, "SurfaceTemperature": 5778.0,
    "WasDiscovered": true, "WasMapped": false
}"#;

#[test]
fn a_body_in_full() {
    let body = from_str::<Body>(BODY).unwrap();
    assert_eq!(body.id, 7);
    assert_eq!(body.name, "Earth");
    assert_eq!(body.ty, Some(BodyType::Planet));
    assert_eq!(body.distance_from_arrival, Some(Number::Float(499.5f64.to_bits())));
    assert_eq!(body.parents.len(), 2);
    assert_eq!(body.parents[0].entries, vec![("Star".to_string(), 0)]);
    assert_eq!(body.parents[1].entries, vec![("Null".to_string(), 1), ("Ring".to_string(), 2)]);
    assert_eq!(body.planet_class, "Earthlike body");
    assert_eq!(body.terraform_state, None);
    assert_eq!(body.atmosphere, Some("thin".to_string()));
    assert_eq!(body.volcanism, None);
    assert!(body.materials.is_none());
    assert_eq!(body.mass, Number::PosInt(1));
    assert_eq!(body.composition.rock, Number::Float(0.67f64.to_bits()));
    assert_eq!(body.ascending_node, Number::Float((-11.2f64).to_bits()));
    assert!(body.was_mapped && body.was_discovered);
}

#[test]
fn a_body_under_its_older_keys() {
    let older = BODY.replace("\"BodyName\"", "\"Body\"").replace("DistanceFromArrivalLS", "DistFromStarLS");
    let body = from_str::<Body>(&older).unwrap();
    assert_eq!(body.name, "Earth");
    assert_eq!(body.distance_from_arrival, Some(Number::Float(499.5f64.to_bits())));
    let both = BODY.replace("\"BodyID\": 7,", "\"BodyID\": 7, \"Body\": \"Terra\",");
    assert_eq!(from_str::<Body>(&both).unwrap().name, "Earth");
    let neither = BODY.replace("\"BodyName\"", "\"Name\"");
    assert_eq!(from_str::<Body>(&neither).unwrap_err(), DecodeError::Structure);
}

#[test]
fn a_parent_has_to_be_numbered() {
    assert_eq!(from_str::<ParentMap>(r#"{"Star": "0"}"#).unwrap_err(), DecodeError::Structure);
    assert_eq!(from_str::<ParentMap>(r#"{"Star": 40000}"#).unwrap_err(), DecodeError::Structure);
    assert_eq!(from_str::<ParentMap>(r#"["Star"]"#).unwrap_err(), DecodeError::Structure);
    assert!(from_str::<ParentMap>("{}").unwrap().entries.is_empty());
}

#[test]
fn a_scan_tells_a_star_from_a_body() {
    let head = r#""ScanType": "Detailed", "StarSystem": "Sol", "StarPos": [0, 0, 0], "SystemAddress": 10477373803,"#;
    let star = format!("{{ {} {}", head, &STAR[1..]);
    match from_str::<Scan>(&star).unwrap().target {
        ScanTarget::Star(star) => {
            assert_eq!(star.name, "Sol");
            assert_eq!(star.age_my, 4792);
            assert_eq!(star.star_type, "G");
            assert_eq!(star.subclass, 2);
            assert!(star.was_discovered && !star.was_mapped);
        },
        ScanTarget::Body(body) => panic!("{:?}", body),
    }
    let body = format!("{{ {} {}", head, &BODY[1..]);
    let scan = from_str::<Scan>(&body).unwrap();
    assert_eq!(scan.scan_type, "Detailed");
    assert_eq!(scan.system_address, 10477373803);
    assert!(matches!(scan.target, ScanTarget::Body(_)));
    let neither = format!("{{ {} \"BodyName\": \"Sol\" }}", head);
    assert_eq!(from_str::<Scan>(&neither).unwrap_err(), DecodeError::Structure);
    let misspelt = body.replace("\"BodyType\": \"Planet\"", "\"BodyType\": \"Planetoid\"");
    assert_eq!(from_str::<Scan>(&misspelt).unwrap_err(), DecodeError::UnknownName);
    let bad_star = star.replace("\"Age_MY\": 4792", "\"Age_MY\": \"old\"");
    assert_eq!(from_str::<Scan>(&bad_star).unwrap_err(), DecodeError::Structure);
}

#[test]
fn signals_on_a_body() {
    let text = format!(r#"{{ "Body": {}, "Signals": [ {{ "Type": "Alexandrite", "Count": 3 }} ] }}"#, BODY);
    let found = from_str::<SAASignalsFound>(&text).unwrap();
    assert_eq!(found.body.name, "Earth");
    assert_eq!(found.signals.len(), 1);
    assert_eq!(found.signals[0].ty, "Alexandrite");
    assert_eq!(found.signals[0].count, 3);
    assert_eq!(from_str::<Signal>(r#"{ "Type": "x", "Count": -1 }"#).unwrap_err(), DecodeError::Structure);
}

#[test]
fn a_station_with_little_said_of_it() {
    let station = from_str::<Station>(r#"{ "StationName": "Daedalus", "wanted": true }"#).unwrap();
    assert_eq!(station.name, "Daedalus");
    assert_eq!(station.wanted, Some(true));
    assert!(station.ty.is_none() && station.market_id.is_none() && station.landing_pads.is_none());
    assert!(station.faction.is_none() && station.services.is_none() && station.economies.is_none());
    let pads = from_str::<Station>(
        r#"{ "StationName": "Daedalus", "LandingPads": { "Large": 9, "Medium": 18, "Small": 17 } }"#,
    )
    .unwrap();
    assert_eq!(pads.landing_pads, Some(LandingPads { large: 9, medium: 18, small: 17 }));
    let r = from_str::<Station>(r#"{ "StationName": "Daedalus", "StationServices": ["dock", "casino"] }"#);
    assert_eq!(r.unwrap_err(), DecodeError::UnknownName);
    assert_eq!(from_str::<PadSize>(r#""Medium""#), Ok(PadSize::Medium));
    assert_eq!(from_str::<DockingDeniedReason>(r#""TooLarge""#), Ok(DockingDeniedReason::TooLarge));
}

#[test]
fn the_cost_of_a_jump_is_in_hydrogen() {
    let cost = from_str::<JumpCost>(r#"{ "JumpDist": 8.5, "FuelUsed": 1, "FuelLevel": 31.5 }"#).unwrap();
    assert_eq!(cost.ty, Fuel::Hydrogen);
    assert_eq!(cost.distance, Number::Float(8.5f64.to_bits()));
    assert_eq!(cost.used, Number::PosInt(1));
    assert_eq!(Fuel::default(), Fuel::Hydrogen);
    assert_eq!(from_str::<Fuel>(r#""Tritium""#), Ok(Fuel::Tritium));
}

#[test]
fn the_start_of_a_session() {
    let game = from_str::<LoadGame>(
        r#"{ "Commander": "Jameson", "FID": "F1", "Horizons": true, "Ship": "CobraMkIII", "ShipID": 1,
             "ShipName": "Flat Head", "ShipIdent": "UNSC-1", "GameMode": "Solo", "Credits": 600120, "Loan": 0 }"#,
    )
    .unwrap();
    assert_eq!(game.commander.unwrap().name, "Jameson");
    let ship = game.ship.unwrap();
    assert_eq!((ship.model.as_str(), ship.id, ship.ident.as_str()), ("CobraMkIII", 1, "UNSC-1"));
    assert!(game.horizons);
    assert_eq!(game.game_mode, Some(elite_journal::entry::incremental::startup::GameMode::Solo));
    assert_eq!((game.credits, game.loan), (600120, 0));
    let bare = from_str::<LoadGame>(r#"{ "Horizons": false, "Credits": 1, "Loan": 2 }"#).unwrap();
    assert!(bare.commander.is_none() && bare.ship.is_none() && bare.game_mode.is_none());
    let cargo = from_str::<Cargos>(
        r#"{ "Vessel": "SRV", "Inventory": [ { "Name": "gold", "Count": 2, "Stolen": 0, "MissionId": 7 } ] }"#,
    )
    .unwrap();
    assert_eq!(cargo.vessel, Vessel::Srv);
    assert_eq!(cargo.inventory.len(), 1);
    assert_eq!(cargo.inventory[0].mission_id, Some(7));
    assert!(from_str::<Cargos>(r#"{ "Vessel": "Ship" }"#).unwrap().inventory.is_empty());
}

#[test]
fn a_market_in_camel_case() {
    let market = from_str::<Market>(
        r#"{ "systemName": "Sol", "stationName": "Daedalus", "marketId": 128016640, "commodities": [
            { "name": "Gold", "meanPrice": 9401, "buyPrice": 0, "sellPrice": 9600, "demand": 1200,
              "demandBracket": 2, "stock": 0, "stockBracket": 0 } ] }"#,
    )
    .unwrap();
    assert_eq!(market.system_name, "Sol");
    assert_eq!(market.market_id, 128016640);
    assert_eq!(market.commodities[0].name, "Gold");
    assert_eq!(market.commodities[0].sell_price, 9600);
    assert_eq!(market.commodities[0].demand_bracket, 2);
    let r = from_str::<Market>(r#"{ "SystemName": "Sol", "stationName": "D", "marketId": 1, "commodities": [] }"#);
    assert_eq!(r.unwrap_err(), DecodeError::Structure);
}

#[test]
fn landing_pads_in_words() {
    let pads = LandingPads { large: 9, medium: 18, small: 17 };
    assert_eq!(pads.to_text(), "Large: 9, Medium: 18, Small: 17");
    let odd = LandingPads { large: 0, medium: -1, small: i16::MIN };
    assert_eq!(odd.to_text(), "Large: 0, Medium: -1, Small: -32768");
}
