use vstd::prelude::*;
use crate::de::{Decode, DecodeError, object, required, Verdict};
use crate::json::Json;
use crate::system::Coordinate;

verus! {

/// The plotted route: the systems to jump through, in order
///
/// It stands under the member `Route` of the line or of the status file.
#[derive(Debug, PartialEq)]
pub enum NavRoute {
    Route(Vec<Destination>),
}

impl Decode for NavRoute {
    open spec fn verdict(json: Json) -> Verdict {
        Verdict::object(json).and(Verdict::required::<Vec<Destination>>(json, "Route"@))
    }

    open spec fn agrees(&self, json: Json) -> bool {
        *self matches NavRoute::Route(route) && json.gives("Route"@, &route)
    }

    fn decode(json: &Json) -> (r: Result<NavRoute, DecodeError>) {
        object(json)?;
        let route = required::<Vec<Destination>>(json, "Route")?;
        Ok(NavRoute::Route(route))
    }
}

/// One system on a route
#[derive(Debug, PartialEq)]
pub struct Destination {
    pub star_system: String,
    pub system_address: u64,
    pub star_pos: Coordinate,
    pub star_class: String,
}

impl Decode for Destination {
    open spec fn verdict(json: Json) -> Verdict {
        Verdict::object(json)
            .and(Verdict::required::<String>(json, "StarSystem"@))
            .and(Verdict::required::<u64>(json, "SystemAddress"@))
            .and(Verdict::required::<Coordinate>(json, "StarPos"@))
            .and(Verdict::required::<String>(json, "StarClass"@))
    }

    open spec fn agrees(&self, json: Json) -> bool {
        &&& json.gives("StarSystem"@, &self.star_system)
        &&& json.gives("SystemAddress"@, &self.system_address)
        &&& json.gives("StarPos"@, &self.star_pos)
        &&& json.gives("StarClass"@, &self.star_class)
    }

    fn decode(json: &Json) -> (r: Result<Destination, DecodeError>) {
        object(json)?;
        let star_system = required::<String>(json, "StarSystem")?;
        let system_address = required::<u64>(json, "SystemAddress")?;
        let star_pos = required::<Coordinate>(json, "StarPos")?;
        let star_class = required::<String>(json, "StarClass")?;
        Ok(Destination { star_system, system_address, star_pos, star_class })
    }
}

} // verus!
