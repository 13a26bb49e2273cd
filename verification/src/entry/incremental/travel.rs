use vstd::prelude::*;
use crate::alias::{decode_name, Enumeration};
use crate::body::Body;
use crate::de::{Decode, DecodeError, object, optional, part, required, Verdict};
use crate::json::{Json, Number};
use crate::ship::JumpCost;
use crate::station::{DockingDeniedReason, PadSize, Station};
use crate::system::System;

verus! {

/// The ship comes close to a body
#[derive(Debug)]
pub struct ApproachBody {
    pub system_name: String,
    pub name: String,
}

impl Decode for ApproachBody {
    open spec fn verdict(json: Json) -> Verdict {
        Verdict::object(json)
            .and(Verdict::required::<String>(json, "StarSystem"@))
            .and(Verdict::required::<String>(json, "Body"@))
    }

    open spec fn agrees(&self, json: Json) -> bool {
        &&& json.gives("StarSystem"@, &self.system_name)
        &&& json.gives("Body"@, &self.name)
    }

    fn decode(json: &Json) -> (r: Result<ApproachBody, DecodeError>) {
        object(json)?;
        let system_name = required::<String>(json, "StarSystem")?;
        let name = required::<String>(json, "Body")?;
        Ok(ApproachBody { system_name, name })
    }
}

/// The pilot asks a station for a landing pad
#[derive(Debug)]
pub struct DockingRequested {
    pub station_name: String,
    pub station_type: String,
    pub market_id: u64,
    pub landing_pads: PadSize,
}

impl Decode for DockingRequested {
    open spec fn verdict(json: Json) -> Verdict {
        Verdict::object(json)
            .and(Verdict::required::<String>(json, "StationName"@))
            .and(Verdict::required::<String>(json, "StationType"@))
            .and(Verdict::required::<u64>(json, "MarketId"@))
            .and(Verdict::required::<PadSize>(json, "LandingPads"@))
    }

    open spec fn agrees(&self, json: Json) -> bool {
        &&& json.gives("StationName"@, &self.station_name)
        &&& json.gives("StationType"@, &self.station_type)
        &&& json.gives("MarketId"@, &self.market_id)
        &&& json.gives("LandingPads"@, &self.landing_pads)
    }

    fn decode(json: &Json) -> (r: Result<DockingRequested, DecodeError>) {
        object(json)?;
        let station_name = required::<String>(json, "StationName")?;
        let station_type = required::<String>(json, "StationType")?;
        let market_id = required::<u64>(json, "MarketId")?;
        let landing_pads = required::<PadSize>(json, "LandingPads")?;
        Ok(DockingRequested { station_name, station_type, market_id, landing_pads })
    }
}

/// The station grants a landing pad
#[derive(Debug)]
pub struct DockingGranted {
    pub station_name: String,
    pub station_type: String,
    pub market_id: u64,
    pub landing_pad: u8,
}

impl Decode for DockingGranted {
    open spec fn verdict(json: Json) -> Verdict {
        Verdict::object(json)
            .and(Verdict::required::<String>(json, "StationName"@))
            .and(Verdict::required::<String>(json, "StationType"@))
            .and(Verdict::required::<u64>(json, "MarketId"@))
            .and(Verdict::required::<u8>(json, "LandingPad"@))
    }

    open spec fn agrees(&self, json: Json) -> bool {
        &&& json.gives("StationName"@, &self.station_name)
        &&& json.gives("StationType"@, &self.station_type)
        &&& json.gives("MarketId"@, &self.market_id)
        &&& json.gives("LandingPad"@, &self.landing_pad)
    }

    fn decode(json: &Json) -> (r: Result<DockingGranted, DecodeError>) {
        object(json)?;
        let station_name = required::<String>(json, "StationName")?;
        let station_type = required::<String>(json, "StationType")?;
        let market_id = required::<u64>(json, "MarketId")?;
        let landing_pad = required::<u8>(json, "LandingPad")?;
        Ok(DockingGranted { station_name, station_type, market_id, landing_pad })
    }
}

/// The station turns the ship away
#[derive(Debug)]
pub struct DockingDenied {
    pub station_name: String,
    pub station_type: String,
    pub market_id: u64,
    pub reason: DockingDeniedReason,
}

impl Decode for DockingDenied {
    open spec fn verdict(json: Json) -> Verdict {
        Verdict::object(json)
            .and(Verdict::required::<String>(json, "StationName"@))
            .and(Verdict::required::<String>(json, "StationType"@))
            .and(Verdict::required::<u64>(json, "MarketId"@))
            .and(Verdict::required::<DockingDeniedReason>(json, "Reason"@))
    }

    open spec fn agrees(&self, json: Json) -> bool {
        &&& json.gives("StationName"@, &self.station_name)
        &&& json.gives("StationType"@, &self.station_type)
        &&& json.gives("MarketId"@, &self.market_id)
        &&& json.gives("Reason"@, &self.reason)
    }

    fn decode(json: &Json) -> (r: Result<DockingDenied, DecodeError>) {
        object(json)?;
        let station_name = required::<String>(json, "StationName")?;
        let station_type = required::<String>(json, "StationType")?;
        let market_id = required::<u64>(json, "MarketId")?;
        let reason = required::<DockingDeniedReason>(json, "Reason")?;
        Ok(DockingDenied { station_name, station_type, market_id, reason })
    }
}

/// The pilot withdraws the request for a landing pad
#[derive(Debug)]
pub struct DockingCancelled {
    pub station_name: String,
    pub station_type: String,
    pub market_id: u64,
}

impl Decode for DockingCancelled {
    open spec fn verdict(json: Json) -> Verdict {
        Verdict::object(json)
            .and(Verdict::required::<String>(json, "StationName"@))
            .and(Verdict::required::<String>(json, "StationType"@))
            .and(Verdict::required::<u64>(json, "MarketId"@))
    }

    open spec fn agrees(&self, json: Json) -> bool {
        &&& json.gives("StationName"@, &self.station_name)
        &&& json.gives("StationType"@, &self.station_type)
        &&& json.gives("MarketId"@, &self.market_id)
    }

    fn decode(json: &Json) -> (r: Result<DockingCancelled, DecodeError>) {
        object(json)?;
        let station_name = required::<String>(json, "StationName")?;
        let station_type = required::<String>(json, "StationType")?;
        let market_id = required::<u64>(json, "MarketId")?;
        Ok(DockingCancelled { station_name, station_type, market_id })
    }
}

/// The grant of a landing pad has run out
#[derive(Debug)]
pub struct DockingTimeout {
    pub station_name: String,
    pub station_type: String,
    pub market_id: u64,
}

impl Decode for DockingTimeout {
    open spec fn verdict(json: Json) -> Verdict {
        Verdict::object(json)
            .and(Verdict::required::<String>(json, "StationName"@))
            .and(Verdict::required::<String>(json, "StationType"@))
            .and(Verdict::required::<u64>(json, "MarketId"@))
    }

    open spec fn agrees(&self, json: Json) -> bool {
        &&& json.gives("StationName"@, &self.station_name)
        &&& json.gives("StationType"@, &self.station_type)
        &&& json.gives("MarketId"@, &self.market_id)
    }

    fn decode(json: &Json) -> (r: Result<DockingTimeout, DecodeError>) {
        object(json)?;
        let station_name = required::<String>(json, "StationName")?;
        let station_type = required::<String>(json, "StationType")?;
        let market_id = required::<u64>(json, "MarketId")?;
        Ok(DockingTimeout { station_name, station_type, market_id })
    }
}

/// The ship has landed at a station
#[derive(Debug)]
pub struct Docked {
    pub active_fine: Option<bool>,
    pub station: Station,
}

impl Decode for Docked {
    open spec fn verdict(json: Json) -> Verdict {
        Verdict::object(json)
            .and(Verdict::optional::<bool>(json, "ActiveFine"@))
            .and(Station::verdict(json))
    }

    open spec fn agrees(&self, json: Json) -> bool {
        &&& json.gives("ActiveFine"@, &self.active_fine)
        &&& self.station.agrees(json)
    }

    fn decode(json: &Json) -> (r: Result<Docked, DecodeError>) {
        object(json)?;
        let active_fine = optional::<bool>(json, "ActiveFine")?;
        let station = Station::decode(json)?;
        Ok(Docked { active_fine, station })
    }
}

/// The ship has left a station
#[derive(Debug)]
pub struct Undocked {
    pub station_name: String,
    pub market_id: u64,
}

impl Decode for Undocked {
    open spec fn verdict(json: Json) -> Verdict {
        Verdict::object(json)
            .and(Verdict::required::<String>(json, "StationName"@))
            .and(Verdict::required::<u64>(json, "MarketId"@))
    }

    open spec fn agrees(&self, json: Json) -> bool {
        &&& json.gives("StationName"@, &self.station_name)
        &&& json.gives("MarketId"@, &self.market_id)
    }

    fn decode(json: &Json) -> (r: Result<Undocked, DecodeError>) {
        object(json)?;
        let station_name = required::<String>(json, "StationName")?;
        let market_id = required::<u64>(json, "MarketId")?;
        Ok(Undocked { station_name, market_id })
    }
}

/// The system that the next jump is set for
#[derive(Debug)]
pub struct FsdTarget {
    pub system_address: i64,
    pub name: String,
    pub star_class: String,
    /// The jumps that are left on the plotted route
    pub remaining: Option<u16>,
}

impl Decode for FsdTarget {
    open spec fn verdict(json: Json) -> Verdict {
        Verdict::object(json)
            .and(Verdict::required::<i64>(json, "SystemAddress"@))
            .and(Verdict::required::<String>(json, "Name"@))
            .and(Verdict::required::<String>(json, "StarClass"@))
            .and(Verdict::optional::<u16>(json, "RemainingJumpsInRoute"@))
    }

    open spec fn agrees(&self, json: Json) -> bool {
        &&& json.gives("SystemAddress"@, &self.system_address)
        &&& json.gives("Name"@, &self.name)
        &&& json.gives("StarClass"@, &self.star_class)
        &&& json.gives("RemainingJumpsInRoute"@, &self.remaining)
    }

    fn decode(json: &Json) -> (r: Result<FsdTarget, DecodeError>) {
        object(json)?;
        let system_address = required::<i64>(json, "SystemAddress")?;
        let name = required::<String>(json, "Name")?;
        let star_class = required::<String>(json, "StarClass")?;
        let remaining = optional::<u16>(json, "RemainingJumpsInRoute")?;
        Ok(FsdTarget { system_address, name, star_class, remaining })
    }
}

/// Where a jump leads: to another system, or into supercruise
#[derive(Clone, Copy, Debug, PartialEq, Eq, Structural)]
pub enum FsdJumpType {
    Hyperspace,
    Supercruise,
}

/// Every spelling of a [`FsdJumpType`] that the journal has used, each beside its variant,
/// in alphabetical order.
pub const FSD_JUMP_TYPE_SPELLINGS: [(&'static str, FsdJumpType); 2] = [
    ("Hyperspace", FsdJumpType::Hyperspace),
    ("Supercruise", FsdJumpType::Supercruise),
];

impl Enumeration for FsdJumpType {
    open spec fn table() -> Seq<(&'static str, FsdJumpType)> {
        FSD_JUMP_TYPE_SPELLINGS@
    }

    fn spellings() -> (r: &'static [(&'static str, FsdJumpType)]) {
        vstd::array::array_as_slice(&FSD_JUMP_TYPE_SPELLINGS)
    }

    proof fn spellings_ascend() {
        reveal_with_fuel(crate::alias::precedes, 13);
        reveal_with_fuel(crate::alias::ascending_from, 4);
        reveal_strlit("Hyperspace");
        reveal_strlit("Supercruise");
        assert(crate::alias::ascending_from(FSD_JUMP_TYPE_SPELLINGS@, 0));
    }
}

impl Decode for FsdJumpType {
    open spec fn verdict(json: Json) -> Verdict {
        Verdict::of(crate::alias::named::<FsdJumpType>(json))
    }

    open spec fn agrees(&self, json: Json) -> bool {
        crate::alias::named::<FsdJumpType>(json) == Ok::<FsdJumpType, DecodeError>(*self)
    }

    fn decode(json: &Json) -> (r: Result<FsdJumpType, DecodeError>) {
        decode_name::<FsdJumpType>(json)
    }
}

/// The drive charges for a jump
#[derive(Debug)]
pub struct StartJump {
    pub ty: FsdJumpType,
    pub system_address: String,
    pub system_name: String,
    pub star_class: String,
}

impl Decode for StartJump {
    open spec fn verdict(json: Json) -> Verdict {
        Verdict::object(json)
            .and(Verdict::required::<FsdJumpType>(json, "JumpType"@))
            .and(Verdict::required::<String>(json, "SystemAddress"@))
            .and(Verdict::required::<String>(json, "StarSystem"@))
            .and(Verdict::required::<String>(json, "StarClass"@))
    }

    open spec fn agrees(&self, json: Json) -> bool {
        &&& json.gives("JumpType"@, &self.ty)
        &&& json.gives("SystemAddress"@, &self.system_address)
        &&& json.gives("StarSystem"@, &self.system_name)
        &&& json.gives("StarClass"@, &self.star_class)
    }

    fn decode(json: &Json) -> (r: Result<StartJump, DecodeError>) {
        object(json)?;
        let ty = required::<FsdJumpType>(json, "JumpType")?;
        let system_address = required::<String>(json, "SystemAddress")?;
        let system_name = required::<String>(json, "StarSystem")?;
        let star_class = required::<String>(json, "StarClass")?;
        Ok(StartJump { ty, system_address, system_name, star_class })
    }
}

/// The ship enters supercruise
#[derive(Debug)]
pub struct SupercruiseEntry {
    pub system_name: String,
}

impl Decode for SupercruiseEntry {
    open spec fn verdict(json: Json) -> Verdict {
        Verdict::object(json)
            .and(Verdict::required::<String>(json, "StarSystem"@))
    }

    open spec fn agrees(&self, json: Json) -> bool {
        &&& json.gives("StarSystem"@, &self.system_name)
    }

    fn decode(json: &Json) -> (r: Result<SupercruiseEntry, DecodeError>) {
        object(json)?;
        let system_name = required::<String>(json, "StarSystem")?;
        Ok(SupercruiseEntry { system_name })
    }
}

/// The ship drops out of supercruise
#[derive(Debug)]
pub struct SupercruiseExit {
    pub system_name: String,
    pub body_id: i64,
    pub body: String,
    pub body_type: String,
}

impl Decode for SupercruiseExit {
    open spec fn verdict(json: Json) -> Verdict {
        Verdict::object(json)
            .and(Verdict::required::<String>(json, "StarSystem"@))
            .and(Verdict::required::<i64>(json, "BodyId"@))
            .and(Verdict::required::<String>(json, "Body"@))
            .and(Verdict::required::<String>(json, "BodyType"@))
    }

    open spec fn agrees(&self, json: Json) -> bool {
        &&& json.gives("StarSystem"@, &self.system_name)
        &&& json.gives("BodyId"@, &self.body_id)
        &&& json.gives("Body"@, &self.body)
        &&& json.gives("BodyType"@, &self.body_type)
    }

    fn decode(json: &Json) -> (r: Result<SupercruiseExit, DecodeError>) {
        object(json)?;
        let system_name = required::<String>(json, "StarSystem")?;
        let body_id = required::<i64>(json, "BodyId")?;
        let body = required::<String>(json, "Body")?;
        let body_type = required::<String>(json, "BodyType")?;
        Ok(SupercruiseExit { system_name, body_id, body, body_type })
    }
}

/// The ship has arrived in another system
#[derive(Debug)]
pub struct FsdJump {
    pub system: System,
    /// What the jump took, where the line says it in full
    pub cost: Option<JumpCost>,
}

impl Decode for FsdJump {
    open spec fn verdict(json: Json) -> Verdict {
        Verdict::object(json)
            .and(System::verdict(json))
            .and(Verdict::part::<JumpCost>(json))
    }

    open spec fn agrees(&self, json: Json) -> bool {
        &&& self.system.agrees(json)
        &&& json.gives_part(&self.cost)
    }

    fn decode(json: &Json) -> (r: Result<FsdJump, DecodeError>) {
        object(json)?;
        let system = System::decode(json)?;
        let cost = part::<JumpCost>(json)?;
        Ok(FsdJump { system, cost })
    }
}

/// The ship moves away from a body
#[derive(Debug)]
pub struct LeaveBody {
    pub system_name: String,
    pub name: String,
    pub system_address: i64,
    pub body_id: i16,
}

impl Decode for LeaveBody {
    open spec fn verdict(json: Json) -> Verdict {
        Verdict::object(json)
            .and(Verdict::required::<String>(json, "StarSystem"@))
            .and(Verdict::required::<String>(json, "Body"@))
            .and(Verdict::required::<i64>(json, "SystemAddress"@))
            .and(Verdict::required::<i16>(json, "BodyId"@))
    }

    open spec fn agrees(&self, json: Json) -> bool {
        &&& json.gives("StarSystem"@, &self.system_name)
        &&& json.gives("Body"@, &self.name)
        &&& json.gives("SystemAddress"@, &self.system_address)
        &&& json.gives("BodyId"@, &self.body_id)
    }

    fn decode(json: &Json) -> (r: Result<LeaveBody, DecodeError>) {
        object(json)?;
        let system_name = required::<String>(json, "StarSystem")?;
        let name = required::<String>(json, "Body")?;
        let system_address = required::<i64>(json, "SystemAddress")?;
        let body_id = required::<i16>(json, "BodyId")?;
        Ok(LeaveBody { system_name, name, system_address, body_id })
    }
}

/// The ship takes off from the surface of a body
#[derive(Debug)]
pub struct Liftoff {
    pub system_name: String,
    pub body_name: String,
    pub body_id: i16,
    pub latitude: Number,
    pub longitude: Number,
    pub on_station: bool,
    pub on_planet: bool,
    pub nearest_destination: String,
    pub player_controlled: bool,
}

impl Decode for Liftoff {
    open spec fn verdict(json: Json) -> Verdict {
        Verdict::object(json)
            .and(Verdict::required::<String>(json, "StarSystem"@))
            .and(Verdict::required::<String>(json, "Body"@))
            .and(Verdict::required::<i16>(json, "BodyId"@))
            .and(Verdict::required::<Number>(json, "Latitude"@))
            .and(Verdict::required::<Number>(json, "Longitude"@))
            .and(Verdict::required::<bool>(json, "OnStation"@))
            .and(Verdict::required::<bool>(json, "OnPlanet"@))
            .and(Verdict::required::<String>(json, "NearestDestination"@))
            .and(Verdict::required::<bool>(json, "PlayerControlled"@))
    }

    open spec fn agrees(&self, json: Json) -> bool {
        &&& json.gives("StarSystem"@, &self.system_name)
        &&& json.gives("Body"@, &self.body_name)
        &&& json.gives("BodyId"@, &self.body_id)
        &&& json.gives("Latitude"@, &self.latitude)
        &&& json.gives("Longitude"@, &self.longitude)
        &&& json.gives("OnStation"@, &self.on_station)
        &&& json.gives("OnPlanet"@, &self.on_planet)
        &&& json.gives("NearestDestination"@, &self.nearest_destination)
        &&& json.gives("PlayerControlled"@, &self.player_controlled)
    }

    fn decode(json: &Json) -> (r: Result<Liftoff, DecodeError>) {
        object(json)?;
        let system_name = required::<String>(json, "StarSystem")?;
        let body_name = required::<String>(json, "Body")?;
        let body_id = required::<i16>(json, "BodyId")?;
        let latitude = required::<Number>(json, "Latitude")?;
        let longitude = required::<Number>(json, "Longitude")?;
        let on_station = required::<bool>(json, "OnStation")?;
        let on_planet = required::<bool>(json, "OnPlanet")?;
        let nearest_destination = required::<String>(json, "NearestDestination")?;
        let player_controlled = required::<bool>(json, "PlayerControlled")?;
        Ok(Liftoff {
            system_name,
            body_name,
            body_id,
            latitude,
            longitude,
            on_station,
            on_planet,
            nearest_destination,
            player_controlled,
        })
    }
}

/// The ship sets down on the surface of a body
#[derive(Debug)]
pub struct Touchdown {
    pub system_address: i64,
    pub system_name: String,
    pub body_name: String,
    pub body_id: i16,
    pub latitude: Number,
    pub longitude: Number,
    pub on_station: bool,
    pub on_planet: bool,
    pub nearest_destination: String,
    pub player_controlled: bool,
}

impl Decode for Touchdown {
    open spec fn verdict(json: Json) -> Verdict {
        Verdict::object(json)
            .and(Verdict::required::<i64>(json, "SystemAddress"@))
            .and(Verdict::required::<String>(json, "StarSystem"@))
            .and(Verdict::required::<String>(json, "BodyName"@))
            .and(Verdict::required::<i16>(json, "BodyID"@))
            .and(Verdict::required::<Number>(json, "Latitude"@))
            .and(Verdict::required::<Number>(json, "Longitude"@))
            .and(Verdict::required::<bool>(json, "OnStation"@))
            .and(Verdict::required::<bool>(json, "OnPlanet"@))
            .and(Verdict::required::<String>(json, "NearestDestination"@))
            .and(Verdict::required::<bool>(json, "PlayerControlled"@))
    }

    open spec fn agrees(&self, json: Json) -> bool {
        &&& json.gives("SystemAddress"@, &self.system_address)
        &&& json.gives("StarSystem"@, &self.system_name)
        &&& json.gives("BodyName"@, &self.body_name)
        &&& json.gives("BodyID"@, &self.body_id)
        &&& json.gives("Latitude"@, &self.latitude)
        &&& json.gives("Longitude"@, &self.longitude)
        &&& json.gives("OnStation"@, &self.on_station)
        &&& json.gives("OnPlanet"@, &self.on_planet)
        &&& json.gives("NearestDestination"@, &self.nearest_destination)
        &&& json.gives("PlayerControlled"@, &self.player_controlled)
    }

    fn decode(json: &Json) -> (r: Result<Touchdown, DecodeError>) {
        object(json)?;
        let system_address = required::<i64>(json, "SystemAddress")?;
        let system_name = required::<String>(json, "StarSystem")?;
        let body_name = required::<String>(json, "BodyName")?;
        let body_id = required::<i16>(json, "BodyID")?;
        let latitude = required::<Number>(json, "Latitude")?;
        let longitude = required::<Number>(json, "Longitude")?;
        let on_station = required::<bool>(json, "OnStation")?;
        let on_planet = required::<bool>(json, "OnPlanet")?;
        let nearest_destination = required::<String>(json, "NearestDestination")?;
        let player_controlled = required::<bool>(json, "PlayerControlled")?;
        Ok(Touchdown {
            system_address,
            system_name,
            body_name,
            body_id,
            latitude,
            longitude,
            on_station,
            on_planet,
            nearest_destination,
            player_controlled,
        })
    }
}

/// Where the commander is when the game starts, or after a death
#[derive(Debug)]
pub struct Location {
    pub system: System,
    /// The body close by, where the line describes one in full
    pub body: Option<Body>,
    pub latitude: Option<Number>,
    pub longitude: Option<Number>,
    pub docked: bool,
    /// The station that the ship is docked at; none where the line names no station
    pub station: Option<Station>,
}

impl Decode for Location {
    open spec fn verdict(json: Json) -> Verdict {
        Verdict::object(json)
            .and(System::verdict(json))
            .and(Verdict::part::<Body>(json))
            .and(Verdict::optional::<Number>(json, "Latitude"@))
            .and(Verdict::optional::<Number>(json, "Longitude"@))
            .and(Verdict::required::<bool>(json, "Docked"@))
            .and(Verdict::part::<Station>(json))
    }

    open spec fn agrees(&self, json: Json) -> bool {
        &&& self.system.agrees(json)
        &&& json.gives_part(&self.body)
        &&& json.gives("Latitude"@, &self.latitude)
        &&& json.gives("Longitude"@, &self.longitude)
        &&& json.gives("Docked"@, &self.docked)
        &&& json.gives_part(&self.station)
    }

    fn decode(json: &Json) -> (r: Result<Location, DecodeError>) {
        object(json)?;
        let system = System::decode(json)?;
        let body = part::<Body>(json)?;
        let latitude = optional::<Number>(json, "Latitude")?;
        let longitude = optional::<Number>(json, "Longitude")?;
        let docked = required::<bool>(json, "Docked")?;
        let station = part::<Station>(json)?;
        Ok(Location { system, body, latitude, longitude, docked, station })
    }
}

} // verus!
