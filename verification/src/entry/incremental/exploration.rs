use vstd::prelude::*;
use crate::body::{Body, Signal};
use crate::de::{Decode, DecodeError, object, Part, required, Verdict};
use crate::json::{Json, Number};
use crate::system::{Coordinate, Star};

verus! {

/// The commander buys the map of a system
#[derive(Debug)]
pub struct BuyExplorationData {
    /// System name of purchased data
    pub system: String,
    /// Cost for system data
    pub cost: u64,
}

impl Decode for BuyExplorationData {
    open spec fn verdict(json: Json) -> Verdict {
        Verdict::object(json)
            .and(Verdict::required::<String>(json, "System"@))
            .and(Verdict::required::<u64>(json, "Cost"@))
    }

    open spec fn agrees(&self, json: Json) -> bool {
        &&& json.gives("System"@, &self.system)
        &&& json.gives("Cost"@, &self.cost)
    }

    fn decode(json: &Json) -> (r: Result<BuyExplorationData, DecodeError>) {
        object(json)?;
        let system = required::<String>(json, "System")?;
        let cost = required::<u64>(json, "Cost")?;
        Ok(BuyExplorationData { system, cost })
    }
}

/// The commander sells what was found on the way
#[derive(Debug)]
pub struct SellExplorationData {
    /// List of system names which were discovered
    pub systems: Vec<String>,
    /// List of **body** names which were discovered
    pub discovered: Vec<String>,
    /// Credit value for the discoveries
    pub base_value: u64,
    /// Credit bonus for efficiency
    pub bonus: u64,
    /// Total credit value, `base_value` + `bonus` + other factors
    ///
    /// Other factors are things like the 200% Li Yong Rui bonus.
    pub total_earnings: u64,
}

impl Decode for SellExplorationData {
    open spec fn verdict(json: Json) -> Verdict {
        Verdict::object(json)
            .and(Verdict::required::<Vec<String>>(json, "Systems"@))
            .and(Verdict::required::<Vec<String>>(json, "Discovered"@))
            .and(Verdict::required::<u64>(json, "BaseValue"@))
            .and(Verdict::required::<u64>(json, "Bonus"@))
            .and(Verdict::required::<u64>(json, "TotalEarnings"@))
    }

    open spec fn agrees(&self, json: Json) -> bool {
        &&& json.gives("Systems"@, &self.systems)
        &&& json.gives("Discovered"@, &self.discovered)
        &&& json.gives("BaseValue"@, &self.base_value)
        &&& json.gives("Bonus"@, &self.bonus)
        &&& json.gives("TotalEarnings"@, &self.total_earnings)
    }

    fn decode(json: &Json) -> (r: Result<SellExplorationData, DecodeError>) {
        object(json)?;
        let systems = required::<Vec<String>>(json, "Systems")?;
        let discovered = required::<Vec<String>>(json, "Discovered")?;
        let base_value = required::<u64>(json, "BaseValue")?;
        let bonus = required::<u64>(json, "Bonus")?;
        let total_earnings = required::<u64>(json, "TotalEarnings")?;
        Ok(SellExplorationData { systems, discovered, base_value, bonus, total_earnings })
    }
}

/// How a scan came about
#[derive(Clone, Copy, Debug, PartialEq, Eq, Structural)]
pub enum ScanType {
    Basic,
    Detailed,
    NavBeacon,
    NavBeaconDetail,
    AutoScan,
}

/// What a scan looked at: a star, or another body
///
/// The line does not say which. It is a star where the line has every member
/// that a star cannot do without, and else a body; either way what is wrong
/// with the record is wrong with the line.
#[derive(Debug)]
pub enum ScanTarget {
    Star(Star),
    Body(Body),
}

impl Decode for ScanTarget {
    open spec fn verdict(json: Json) -> Verdict {
        if Star::present(json) {
            Star::verdict(json)
        } else {
            Body::verdict(json)
        }
    }

    open spec fn agrees(&self, json: Json) -> bool {
        match *self {
            ScanTarget::Star(star) => Star::present(json) && star.agrees(json),
            ScanTarget::Body(body) => !Star::present(json) && body.agrees(json),
        }
    }

    fn decode(json: &Json) -> (r: Result<ScanTarget, DecodeError>) {
        if Star::is_present(json) {
            let star = Star::decode(json)?;
            Ok(ScanTarget::Star(star))
        } else {
            let body = Body::decode(json)?;
            Ok(ScanTarget::Body(body))
        }
    }
}

/// A star or a body has been scanned
#[derive(Debug)]
pub struct Scan {
    pub scan_type: String,
    pub star_system: String,
    pub star_pos: Coordinate,
    pub system_address: i64,
    pub target: ScanTarget,
}

impl Decode for Scan {
    open spec fn verdict(json: Json) -> Verdict {
        Verdict::object(json)
            .and(Verdict::required::<String>(json, "ScanType"@))
            .and(Verdict::required::<String>(json, "StarSystem"@))
            .and(Verdict::required::<Coordinate>(json, "StarPos"@))
            .and(Verdict::required::<i64>(json, "SystemAddress"@))
            .and(ScanTarget::verdict(json))
    }

    open spec fn agrees(&self, json: Json) -> bool {
        &&& json.gives("ScanType"@, &self.scan_type)
        &&& json.gives("StarSystem"@, &self.star_system)
        &&& json.gives("StarPos"@, &self.star_pos)
        &&& json.gives("SystemAddress"@, &self.system_address)
        &&& self.target.agrees(json)
    }

    fn decode(json: &Json) -> (r: Result<Scan, DecodeError>) {
        object(json)?;
        let scan_type = required::<String>(json, "ScanType")?;
        let star_system = required::<String>(json, "StarSystem")?;
        let star_pos = required::<Coordinate>(json, "StarPos")?;
        let system_address = required::<i64>(json, "SystemAddress")?;
        let target = ScanTarget::decode(json)?;
        Ok(Scan { scan_type, star_system, star_pos, system_address, target })
    }
}

/// The centre of mass of a pair of bodies has been scanned
#[derive(Debug)]
pub struct ScanBaryCentre {
    pub star_system: String,
    pub star_pos: Coordinate,
    pub system_address: i64,
    pub body_id: i16,
    pub semi_major_axis: Number,
    pub eccentricity: Number,
    pub periapsis: Number,
    pub orbital_period: Number,
    pub orbital_inclination: Number,
    pub ascending_node: Number,
    pub mean_anomaly: Number,
}

impl Decode for ScanBaryCentre {
    open spec fn verdict(json: Json) -> Verdict {
        Verdict::object(json)
            .and(Verdict::required::<String>(json, "StarSystem"@))
            .and(Verdict::required::<Coordinate>(json, "StarPos"@))
            .and(Verdict::required::<i64>(json, "SystemAddress"@))
            .and(Verdict::required::<i16>(json, "BodyID"@))
            .and(Verdict::required::<Number>(json, "SemiMajorAxis"@))
            .and(Verdict::required::<Number>(json, "Eccentricity"@))
            .and(Verdict::required::<Number>(json, "Periapsis"@))
            .and(Verdict::required::<Number>(json, "OrbitalPeriod"@))
            .and(Verdict::required::<Number>(json, "OrbitalInclination"@))
            .and(Verdict::required::<Number>(json, "AscendingNode"@))
            .and(Verdict::required::<Number>(json, "MeanAnomaly"@))
    }

    open spec fn agrees(&self, json: Json) -> bool {
        &&& json.gives("StarSystem"@, &self.star_system)
        &&& json.gives("StarPos"@, &self.star_pos)
        &&& json.gives("SystemAddress"@, &self.system_address)
        &&& json.gives("BodyID"@, &self.body_id)
        &&& json.gives("SemiMajorAxis"@, &self.semi_major_axis)
        &&& json.gives("Eccentricity"@, &self.eccentricity)
        &&& json.gives("Periapsis"@, &self.periapsis)
        &&& json.gives("OrbitalPeriod"@, &self.orbital_period)
        &&& json.gives("OrbitalInclination"@, &self.orbital_inclination)
        &&& json.gives("AscendingNode"@, &self.ascending_node)
        &&& json.gives("MeanAnomaly"@, &self.mean_anomaly)
    }

    fn decode(json: &Json) -> (r: Result<ScanBaryCentre, DecodeError>) {
        object(json)?;
        let star_system = required::<String>(json, "StarSystem")?;
        let star_pos = required::<Coordinate>(json, "StarPos")?;
        let system_address = required::<i64>(json, "SystemAddress")?;
        let body_id = required::<i16>(json, "BodyID")?;
        let semi_major_axis = required::<Number>(json, "SemiMajorAxis")?;
        let eccentricity = required::<Number>(json, "Eccentricity")?;
        let periapsis = required::<Number>(json, "Periapsis")?;
        let orbital_period = required::<Number>(json, "OrbitalPeriod")?;
        let orbital_inclination = required::<Number>(json, "OrbitalInclination")?;
        let ascending_node = required::<Number>(json, "AscendingNode")?;
        let mean_anomaly = required::<Number>(json, "MeanAnomaly")?;
        Ok(ScanBaryCentre {
            star_system,
            star_pos,
            system_address,
            body_id,
            semi_major_axis,
            eccentricity,
            periapsis,
            orbital_period,
            orbital_inclination,
            ascending_node,
            mean_anomaly,
        })
    }
}

/// A surface scan has found signals on a body
#[derive(Debug)]
pub struct SAASignalsFound {
    /// The target body for the surface scan
    pub body: Body,
    /// Detected nearby signals
    pub signals: Vec<Signal>,
}

impl Decode for SAASignalsFound {
    open spec fn verdict(json: Json) -> Verdict {
        Verdict::object(json)
            .and(Verdict::required::<Body>(json, "Body"@))
            .and(Verdict::required::<Vec<Signal>>(json, "Signals"@))
    }

    open spec fn agrees(&self, json: Json) -> bool {
        &&& json.gives("Body"@, &self.body)
        &&& json.gives("Signals"@, &self.signals)
    }

    fn decode(json: &Json) -> (r: Result<SAASignalsFound, DecodeError>) {
        object(json)?;
        let body = required::<Body>(json, "Body")?;
        let signals = required::<Vec<Signal>>(json, "Signals")?;
        Ok(SAASignalsFound { body, signals })
    }
}

} // verus!
