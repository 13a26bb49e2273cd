use vstd::prelude::*;
use crate::alias::{decode_name, Enumeration};
use crate::de::{Decode, DecodeError, has, object, optional, Part, required, Verdict};
use crate::faction::Faction;
use crate::json::{Json, Number};
use crate::system::Economy;
use crate::text::to_decimal;
use crate::{Allegiance, Government};

verus! {

/// A station, an outpost or a carrier that ships dock at
#[derive(Debug)]
pub struct Station {
    pub dist_from_star_ls: Option<Number>,
    pub name: String,
    pub ty: Option<StationType>,
    pub market_id: Option<i64>,
    pub landing_pads: Option<LandingPads>,
    pub faction: Option<Faction>,
    pub government: Option<Government>,
    pub allegiance: Option<Allegiance>,
    pub services: Option<Vec<Service>>,
    pub economies: Option<Vec<EconomyShare>>,
    pub wanted: Option<bool>,
}

impl Decode for Station {
    open spec fn verdict(json: Json) -> Verdict {
        Verdict::object(json)
            .and(Verdict::optional::<Number>(json, "DistFromStarLS"@))
            .and(Verdict::required::<String>(json, "StationName"@))
            .and(Verdict::optional::<StationType>(json, "StationType"@))
            .and(Verdict::optional::<i64>(json, "MarketID"@))
            .and(Verdict::optional::<LandingPads>(json, "LandingPads"@))
            .and(Verdict::optional::<Faction>(json, "StationFaction"@))
            .and(Verdict::optional::<Government>(json, "StationGovernment"@))
            .and(Verdict::optional::<Allegiance>(json, "StationAllegiance"@))
            .and(Verdict::optional::<Vec<Service>>(json, "StationServices"@))
            .and(Verdict::optional::<Vec<EconomyShare>>(json, "StationEconomies"@))
            .and(Verdict::optional::<bool>(json, "wanted"@))
    }

    open spec fn agrees(&self, json: Json) -> bool {
        &&& json.gives("DistFromStarLS"@, &self.dist_from_star_ls)
        &&& json.gives("StationName"@, &self.name)
        &&& json.gives("StationType"@, &self.ty)
        &&& json.gives("MarketID"@, &self.market_id)
        &&& json.gives("LandingPads"@, &self.landing_pads)
        &&& json.gives("StationFaction"@, &self.faction)
        &&& json.gives("StationGovernment"@, &self.government)
        &&& json.gives("StationAllegiance"@, &self.allegiance)
        &&& json.gives("StationServices"@, &self.services)
        &&& json.gives("StationEconomies"@, &self.economies)
        &&& json.gives("wanted"@, &self.wanted)
    }

    fn decode(json: &Json) -> (r: Result<Station, DecodeError>) {
        object(json)?;
        let dist_from_star_ls = optional::<Number>(json, "DistFromStarLS")?;
        let name = required::<String>(json, "StationName")?;
        let ty = optional::<StationType>(json, "StationType")?;
        let market_id = optional::<i64>(json, "MarketID")?;
        let landing_pads = optional::<LandingPads>(json, "LandingPads")?;
        let faction = optional::<Faction>(json, "StationFaction")?;
        let government = optional::<Government>(json, "StationGovernment")?;
        let allegiance = optional::<Allegiance>(json, "StationAllegiance")?;
        let services = optional::<Vec<Service>>(json, "StationServices")?;
        let economies = optional::<Vec<EconomyShare>>(json, "StationEconomies")?;
        let wanted = optional::<bool>(json, "wanted")?;
        Ok(Station {
            dist_from_star_ls,
            name,
            ty,
            market_id,
            landing_pads,
            faction,
            government,
            allegiance,
            services,
            economies,
            wanted,
        })
    }
}

impl Part for Station {
    open spec fn present(json: Json) -> bool {
        &&& json.has("StationName"@)
    }

    fn is_present(json: &Json) -> (r: bool) {
        has(json, "StationName")
    }
}

/// The number of landing pads of a station, by size
#[derive(Clone, Copy, Debug, PartialEq, Eq, Structural)]
pub struct LandingPads {
    pub large: i16,
    pub medium: i16,
    pub small: i16,
}

impl Decode for LandingPads {
    open spec fn verdict(json: Json) -> Verdict {
        Verdict::object(json)
            .and(Verdict::required::<i16>(json, "Large"@))
            .and(Verdict::required::<i16>(json, "Medium"@))
            .and(Verdict::required::<i16>(json, "Small"@))
    }

    open spec fn agrees(&self, json: Json) -> bool {
        &&& json.gives("Large"@, &self.large)
        &&& json.gives("Medium"@, &self.medium)
        &&& json.gives("Small"@, &self.small)
    }

    fn decode(json: &Json) -> (r: Result<LandingPads, DecodeError>) {
        object(json)?;
        let large = required::<i16>(json, "Large")?;
        let medium = required::<i16>(json, "Medium")?;
        let small = required::<i16>(json, "Small")?;
        Ok(LandingPads { large, medium, small })
    }
}

impl LandingPads {
    /// The pads in words, such as `Large: 9, Medium: 18, Small: 17`.
    pub open spec fn text(self) -> Seq<char> {
        "Large: "@ + crate::text::decimal(self.large as int) + ", Medium: "@
            + crate::text::decimal(self.medium as int) + ", Small: "@ + crate::text::decimal(
            self.small as int,
        )
    }

    /// Writes the pads in words.
    pub fn to_text(&self) -> (r: String)
        ensures
            r@ == self.text(),
    {
        let mut out = String::new();
        out.append("Large: ");
        out.append(to_decimal(self.large as i64).as_str());
        out.append(", Medium: ");
        out.append(to_decimal(self.medium as i64).as_str());
        out.append(", Small: ");
        out.append(to_decimal(self.small as i64).as_str());
        assert(out@ =~= self.text());
        out
    }
}

/// The build of a station
#[derive(Clone, Copy, Debug, PartialEq, Eq, Structural)]
pub enum StationType {
    AsteroidBase,
    Coriolis,
    CraterOutpost,
    CraterPort,
    FleetCarrier,
    MegaShip,
    Ocellus,
    Orbis,
    Outpost,
}

/// Every spelling of a [`StationType`] that the journal has used, each beside its variant,
/// in alphabetical order.
pub const STATION_TYPE_SPELLINGS: [(&'static str, StationType); 9] = [
    ("AsteroidBase", StationType::AsteroidBase),
    ("Coriolis", StationType::Coriolis),
    ("CraterOutpost", StationType::CraterOutpost),
    ("CraterPort", StationType::CraterPort),
    ("FleetCarrier", StationType::FleetCarrier),
    ("MegaShip", StationType::MegaShip),
    ("Ocellus", StationType::Ocellus),
    ("Orbis", StationType::Orbis),
    ("Outpost", StationType::Outpost),
];

impl Enumeration for StationType {
    open spec fn table() -> Seq<(&'static str, StationType)> {
        STATION_TYPE_SPELLINGS@
    }

    fn spellings() -> (r: &'static [(&'static str, StationType)]) {
        vstd::array::array_as_slice(&STATION_TYPE_SPELLINGS)
    }

    proof fn spellings_ascend() {
        reveal_with_fuel(crate::alias::precedes, 15);
        reveal_with_fuel(crate::alias::ascending_from, 10);
        reveal_strlit("AsteroidBase");
        reveal_strlit("Coriolis");
        reveal_strlit("CraterOutpost");
        reveal_strlit("CraterPort");
        reveal_strlit("FleetCarrier");
        reveal_strlit("MegaShip");
        reveal_strlit("Ocellus");
        reveal_strlit("Orbis");
        reveal_strlit("Outpost");
        assert(crate::alias::ascending_from(STATION_TYPE_SPELLINGS@, 8));
        assert(crate::alias::ascending_from(STATION_TYPE_SPELLINGS@, 0));
    }
}

impl Decode for StationType {
    open spec fn verdict(json: Json) -> Verdict {
        Verdict::of(crate::alias::named::<StationType>(json))
    }

    open spec fn agrees(&self, json: Json) -> bool {
        crate::alias::named::<StationType>(json) == Ok::<StationType, DecodeError>(*self)
    }

    fn decode(json: &Json) -> (r: Result<StationType, DecodeError>) {
        decode_name::<StationType>(json)
    }
}

impl StationType {
    /// The canonical name of a variant.
    pub open spec fn canonical(self) -> Seq<char> {
        match self {
            StationType::AsteroidBase => "AsteroidBase"@,
            StationType::Coriolis => "Coriolis"@,
            StationType::CraterOutpost => "CraterOutpost"@,
            StationType::CraterPort => "CraterPort"@,
            StationType::FleetCarrier => "FleetCarrier"@,
            StationType::MegaShip => "MegaShip"@,
            StationType::Ocellus => "Ocellus"@,
            StationType::Orbis => "Orbis"@,
            StationType::Outpost => "Outpost"@,
        }
    }

    /// The canonical name of a variant, which decodes back to the variant.
    pub fn name(&self) -> (r: &'static str)
        ensures
            r@ == self.canonical(),
            crate::alias::spelled::<StationType>(r@) == Some(*self),
    {
        match self {
            StationType::AsteroidBase => {
                proof {
                    crate::alias::lemma_listed_spelling::<StationType>(0);
                }
                "AsteroidBase"
            },
            StationType::Coriolis => {
                proof {
                    crate::alias::lemma_listed_spelling::<StationType>(1);
                }
                "Coriolis"
            },
            StationType::CraterOutpost => {
                proof {
                    crate::alias::lemma_listed_spelling::<StationType>(2);
                }
                "CraterOutpost"
            },
            StationType::CraterPort => {
                proof {
                    crate::alias::lemma_listed_spelling::<StationType>(3);
                }
                "CraterPort"
            },
            StationType::FleetCarrier => {
                proof {
                    crate::alias::lemma_listed_spelling::<StationType>(4);
                }
                "FleetCarrier"
            },
            StationType::MegaShip => {
                proof {
                    crate::alias::lemma_listed_spelling::<StationType>(5);
                }
                "MegaShip"
            },
            StationType::Ocellus => {
                proof {
                    crate::alias::lemma_listed_spelling::<StationType>(6);
                }
                "Ocellus"
            },
            StationType::Orbis => {
                proof {
                    crate::alias::lemma_listed_spelling::<StationType>(7);
                }
                "Orbis"
            },
            StationType::Outpost => {
                proof {
                    crate::alias::lemma_listed_spelling::<StationType>(8);
                }
                "Outpost"
            },
        }
    }
}

/// The size of a landing pad
#[derive(Clone, Copy, Debug, PartialEq, Eq, Structural)]
pub enum PadSize {
    Small,
    Medium,
    Large,
}

/// Every spelling of a [`PadSize`] that the journal has used, each beside its variant,
/// in alphabetical order.
pub const PAD_SIZE_SPELLINGS: [(&'static str, PadSize); 3] = [
    ("Large", PadSize::Large),
    ("Medium", PadSize::Medium),
    ("Small", PadSize::Small),
];

impl Enumeration for PadSize {
    open spec fn table() -> Seq<(&'static str, PadSize)> {
        PAD_SIZE_SPELLINGS@
    }

    fn spellings() -> (r: &'static [(&'static str, PadSize)]) {
        vstd::array::array_as_slice(&PAD_SIZE_SPELLINGS)
    }

    proof fn spellings_ascend() {
        reveal_with_fuel(crate::alias::precedes, 8);
        reveal_with_fuel(crate::alias::ascending_from, 5);
        reveal_strlit("Large");
        reveal_strlit("Medium");
        reveal_strlit("Small");
        assert(crate::alias::ascending_from(PAD_SIZE_SPELLINGS@, 0));
    }
}

impl Decode for PadSize {
    open spec fn verdict(json: Json) -> Verdict {
        Verdict::of(crate::alias::named::<PadSize>(json))
    }

    open spec fn agrees(&self, json: Json) -> bool {
        crate::alias::named::<PadSize>(json) == Ok::<PadSize, DecodeError>(*self)
    }

    fn decode(json: &Json) -> (r: Result<PadSize, DecodeError>) {
        decode_name::<PadSize>(json)
    }
}

/// Why a station turned a ship away
#[derive(Clone, Copy, Debug, PartialEq, Eq, Structural)]
pub enum DockingDeniedReason {
    NoSpace,
    TooLarge,
    Hostile,
    Offences,
    Distance,
    ActiveFighter,
    NoReason,
}

/// Every spelling of a [`DockingDeniedReason`] that the journal has used, each beside its variant,
/// in alphabetical order.
pub const DOCKING_DENIED_REASON_SPELLINGS: [(&'static str, DockingDeniedReason); 7] = [
    ("ActiveFighter", DockingDeniedReason::ActiveFighter),
    ("Distance", DockingDeniedReason::Distance),
    ("Hostile", DockingDeniedReason::Hostile),
    ("NoReason", DockingDeniedReason::NoReason),
    ("NoSpace", DockingDeniedReason::NoSpace),
    ("Offences", DockingDeniedReason::Offences),
    ("TooLarge", DockingDeniedReason::TooLarge),
];

impl Enumeration for DockingDeniedReason {
    open spec fn table() -> Seq<(&'static str, DockingDeniedReason)> {
        DOCKING_DENIED_REASON_SPELLINGS@
    }

    fn spellings() -> (r: &'static [(&'static str, DockingDeniedReason)]) {
        vstd::array::array_as_slice(&DOCKING_DENIED_REASON_SPELLINGS)
    }

    proof fn spellings_ascend() {
        reveal_with_fuel(crate::alias::precedes, 15);
        reveal_with_fuel(crate::alias::ascending_from, 9);
        reveal_strlit("ActiveFighter");
        reveal_strlit("Distance");
        reveal_strlit("Hostile");
        reveal_strlit("NoReason");
        reveal_strlit("NoSpace");
        reveal_strlit("Offences");
        reveal_strlit("TooLarge");
        assert(crate::alias::ascending_from(DOCKING_DENIED_REASON_SPELLINGS@, 0));
    }
}

impl Decode for DockingDeniedReason {
    open spec fn verdict(json: Json) -> Verdict {
        Verdict::of(crate::alias::named::<DockingDeniedReason>(json))
    }

    open spec fn agrees(&self, json: Json) -> bool {
        crate::alias::named::<DockingDeniedReason>(json) == Ok::<DockingDeniedReason, DecodeError>(*self)
    }

    fn decode(json: &Json) -> (r: Result<DockingDeniedReason, DecodeError>) {
        decode_name::<DockingDeniedReason>(json)
    }
}

/// A service that a station offers
#[derive(Clone, Copy, Debug, PartialEq, Eq, Structural)]
pub enum Service {
    Autodock,
    Blackmarket,
    CarrierFuel,
    CarrierManagement,
    Commodities,
    Contacts,
    CrewLounge,
    Dock,
    Engineer,
    Exploration,
    Facilitator,
    FlightController,
    Initiatives,
    MaterialTrader,
    Missions,
    MissionsGenerated,
    Modulepacks,
    Outfitting,
    Powerplay,
    Rearm,
    Refuel,
    Repair,
    SearchRescue,
    Shipyard,
    Shop,
    StationMenu,
    StationOperations,
    TechBroker,
    Tuning,
    VoucherRedemption,
    Livery,
    SocialSpace,
    Bartender,
    VistaGenomics,
    PioneerSupplies,
    ApexInterstellar,
    FrontlineSolutions,
}

/// Every spelling of a [`Service`] that the journal has used, each beside its variant,
/// in alphabetical order.
pub const SERVICE_SPELLINGS: [(&'static str, Service); 37] = [
    ("apexinterstellar", Service::ApexInterstellar),
    ("autodock", Service::Autodock),
    ("bartender", Service::Bartender),
    ("blackmarket", Service::Blackmarket),
    ("carrierfuel", Service::CarrierFuel),
    ("carriermanagement", Service::CarrierManagement),
    ("commodities", Service::Commodities),
    ("contacts", Service::Contacts),
    ("crewlounge", Service::CrewLounge),
    ("dock", Service::Dock),
    ("engineer", Service::Engineer),
    ("exploration", Service::Exploration),
    ("facilitator", Service::Facilitator),
    ("flightcontroller", Service::FlightController),
    ("frontlinesolutions", Service::FrontlineSolutions),
    ("initiatives", Service::Initiatives),
    ("livery", Service::Livery),
    ("materialtrader", Service::MaterialTrader),
    ("missions", Service::Missions),
    ("missionsgenerated", Service::MissionsGenerated),
    ("modulepacks", Service::Modulepacks),
    ("outfitting", Service::Outfitting),
    ("pioneersupplies", Service::PioneerSupplies),
    ("powerplay", Service::Powerplay),
    ("rearm", Service::Rearm),
    ("refuel", Service::Refuel),
    ("repair", Service::Repair),
    ("searchrescue", Service::SearchRescue),
    ("shipyard", Service::Shipyard),
    ("shop", Service::Shop),
    ("socialspace", Service::SocialSpace),
    ("stationMenu", Service::StationMenu),
    ("stationoperations", Service::StationOperations),
    ("techBroker", Service::TechBroker),
    ("tuning", Service::Tuning),
    ("vistagenomics", Service::VistaGenomics),
    ("voucherredemption", Service::VoucherRedemption),
];

impl Enumeration for Service {
    open spec fn table() -> Seq<(&'static str, Service)> {
        SERVICE_SPELLINGS@
    }

    fn spellings() -> (r: &'static [(&'static str, Service)]) {
        vstd::array::array_as_slice(&SERVICE_SPELLINGS)
    }

    proof fn spellings_ascend() {
        reveal_with_fuel(crate::alias::precedes, 20);
        reveal_with_fuel(crate::alias::ascending_from, 10);
        reveal_strlit("apexinterstellar");
        reveal_strlit("autodock");
        reveal_strlit("bartender");
        reveal_strlit("blackmarket");
        reveal_strlit("carrierfuel");
        reveal_strlit("carriermanagement");
        reveal_strlit("commodities");
        reveal_strlit("contacts");
        reveal_strlit("crewlounge");
        reveal_strlit("dock");
        reveal_strlit("engineer");
        reveal_strlit("exploration");
        reveal_strlit("facilitator");
        reveal_strlit("flightcontroller");
        reveal_strlit("frontlinesolutions");
        reveal_strlit("initiatives");
        reveal_strlit("livery");
        reveal_strlit("materialtrader");
        reveal_strlit("missions");
        reveal_strlit("missionsgenerated");
        reveal_strlit("modulepacks");
        reveal_strlit("outfitting");
        reveal_strlit("pioneersupplies");
        reveal_strlit("powerplay");
        reveal_strlit("rearm");
        reveal_strlit("refuel");
        reveal_strlit("repair");
        reveal_strlit("searchrescue");
        reveal_strlit("shipyard");
        reveal_strlit("shop");
        reveal_strlit("socialspace");
        reveal_strlit("stationMenu");
        reveal_strlit("stationoperations");
        reveal_strlit("techBroker");
        reveal_strlit("tuning");
        reveal_strlit("vistagenomics");
        reveal_strlit("voucherredemption");
        assert(crate::alias::ascending_from(SERVICE_SPELLINGS@, 32));
        assert(crate::alias::ascending_from(SERVICE_SPELLINGS@, 24));
        assert(crate::alias::ascending_from(SERVICE_SPELLINGS@, 16));
        assert(crate::alias::ascending_from(SERVICE_SPELLINGS@, 8));
        assert(crate::alias::ascending_from(SERVICE_SPELLINGS@, 0));
    }
}

impl Decode for Service {
    open spec fn verdict(json: Json) -> Verdict {
        Verdict::of(crate::alias::named::<Service>(json))
    }

    open spec fn agrees(&self, json: Json) -> bool {
        crate::alias::named::<Service>(json) == Ok::<Service, DecodeError>(*self)
    }

    fn decode(json: &Json) -> (r: Result<Service, DecodeError>) {
        decode_name::<Service>(json)
    }
}

/// One of the economies of a station, with its share of the whole
#[derive(Clone, Copy, Debug)]
pub struct EconomyShare {
    pub name: Economy,
    pub proportion: Number,
}

impl Decode for EconomyShare {
    open spec fn verdict(json: Json) -> Verdict {
        Verdict::object(json)
            .and(Verdict::required::<Economy>(json, "Name"@))
            .and(Verdict::required::<Number>(json, "Proportion"@))
    }

    open spec fn agrees(&self, json: Json) -> bool {
        &&& json.gives("Name"@, &self.name)
        &&& json.gives("Proportion"@, &self.proportion)
    }

    fn decode(json: &Json) -> (r: Result<EconomyShare, DecodeError>) {
        object(json)?;
        let name = required::<Economy>(json, "Name")?;
        let proportion = required::<Number>(json, "Proportion")?;
        Ok(EconomyShare { name, proportion })
    }
}

} // verus!
