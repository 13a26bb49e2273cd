use vstd::prelude::*;
use crate::alias::{decode_name, Enumeration};
use crate::de::{
    Decode, DecodeError, either, empty_str_is_none_at, has, object, optional, Part, required,
    Verdict,
};
use crate::json::{Json, Number};

verus! {

/// The kind of a body in a system
#[derive(Clone, Copy, Debug, PartialEq, Eq, Structural)]
pub enum BodyType {
    Star,
    Planet,
    PlanetaryRing,
    Moon,
    StellarRing,
    Station,
    AsteroidCluster,
    /// Special case for a body's parent being a barycentre
    Null,
}

/// Every spelling of a [`BodyType`] that the journal has used, each beside its variant,
/// in alphabetical order.
pub const BODY_TYPE_SPELLINGS: [(&'static str, BodyType); 8] = [
    ("AsteroidCluster", BodyType::AsteroidCluster),
    ("Moon", BodyType::Moon),
    ("Null", BodyType::Null),
    ("Planet", BodyType::Planet),
    ("PlanetaryRing", BodyType::PlanetaryRing),
    ("Star", BodyType::Star),
    ("Station", BodyType::Station),
    ("StellarRing", BodyType::StellarRing),
];

impl Enumeration for BodyType {
    open spec fn table() -> Seq<(&'static str, BodyType)> {
        BODY_TYPE_SPELLINGS@
    }

    fn spellings() -> (r: &'static [(&'static str, BodyType)]) {
        vstd::array::array_as_slice(&BODY_TYPE_SPELLINGS)
    }

    proof fn spellings_ascend() {
        reveal_with_fuel(crate::alias::precedes, 17);
        reveal_with_fuel(crate::alias::ascending_from, 10);
        reveal_strlit("AsteroidCluster");
        reveal_strlit("Moon");
        reveal_strlit("Null");
        reveal_strlit("Planet");
        reveal_strlit("PlanetaryRing");
        reveal_strlit("Star");
        reveal_strlit("Station");
        reveal_strlit("StellarRing");
        assert(crate::alias::ascending_from(BODY_TYPE_SPELLINGS@, 0));
    }
}

impl Decode for BodyType {
    open spec fn verdict(json: Json) -> Verdict {
        Verdict::of(crate::alias::named::<BodyType>(json))
    }

    open spec fn agrees(&self, json: Json) -> bool {
        crate::alias::named::<BodyType>(json) == Ok::<BodyType, DecodeError>(*self)
    }

    fn decode(json: &Json) -> (r: Result<BodyType, DecodeError>) {
        decode_name::<BodyType>(json)
    }
}

/// What a body is made of, in parts of the whole
#[derive(Clone, Copy, Debug, PartialEq, Eq, Structural)]
pub struct Composition {
    pub ice: Number,
    pub rock: Number,
    pub metal: Number,
}

impl Decode for Composition {
    open spec fn verdict(json: Json) -> Verdict {
        Verdict::object(json)
            .and(Verdict::required::<Number>(json, "Ice"@))
            .and(Verdict::required::<Number>(json, "Rock"@))
            .and(Verdict::required::<Number>(json, "Metal"@))
    }

    open spec fn agrees(&self, json: Json) -> bool {
        &&& json.gives("Ice"@, &self.ice)
        &&& json.gives("Rock"@, &self.rock)
        &&& json.gives("Metal"@, &self.metal)
    }

    fn decode(json: &Json) -> (r: Result<Composition, DecodeError>) {
        object(json)?;
        let ice = required::<Number>(json, "Ice")?;
        let rock = required::<Number>(json, "Rock")?;
        let metal = required::<Number>(json, "Metal")?;
        Ok(Composition { ice, rock, metal })
    }
}

/// A material found on a body, with its share in percent
#[derive(Debug)]
pub struct Material {
    pub name: String,
    pub percent: Number,
}

impl Decode for Material {
    open spec fn verdict(json: Json) -> Verdict {
        Verdict::object(json)
            .and(Verdict::required::<String>(json, "Name"@))
            .and(Verdict::required::<Number>(json, "Percent"@))
    }

    open spec fn agrees(&self, json: Json) -> bool {
        &&& json.gives("Name"@, &self.name)
        &&& json.gives("Percent"@, &self.percent)
    }

    fn decode(json: &Json) -> (r: Result<Material, DecodeError>) {
        object(json)?;
        let name = required::<String>(json, "Name")?;
        let percent = required::<Number>(json, "Percent")?;
        Ok(Material { name, percent })
    }
}

/// A body that another one orbits, by its kind and number
#[derive(Clone, Copy, Debug, PartialEq, Eq, Structural)]
pub struct Node {
    pub body_type: BodyType,
    pub body_id: i16,
}

/// One step up the chain of the bodies that a body orbits, as the journal
/// writes it: an object with the kind of the parent as key and its number as
/// value, such as `{"Star": 0}`.
#[derive(Debug)]
pub struct ParentMap {
    /// The members of the object, in the order of the document.
    pub entries: Vec<(String, i16)>,
}

impl ParentMap {
    /// The verdict on the members of the object from index `from` on: every
    /// value has to be a number that fits 16 bits.
    pub open spec fn members_verdict(members: Seq<(String, Json)>, from: int) -> Verdict
        decreases members.len() - from,
    {
        if 0 <= from < members.len() {
            i16::verdict(members[from].1).and(Self::members_verdict(members, from + 1))
        } else {
            Verdict::Accepted
        }
    }
}

impl Decode for ParentMap {
    open spec fn verdict(json: Json) -> Verdict {
        match json {
            Json::Object(members) => Self::members_verdict(members@, 0),
            _ => Verdict::Refused(DecodeError::Structure),
        }
    }

    open spec fn agrees(&self, json: Json) -> bool {
        &&& json matches Json::Object(members)
        &&& self.entries@.len() == members@.len()
        &&& forall|i: int|
            0 <= i < members@.len() ==> (#[trigger] self.entries@[i]).0@ == members@[i].0@
                && self.entries@[i].1.agrees(members@[i].1)
    }

    fn decode(json: &Json) -> (r: Result<ParentMap, DecodeError>) {
        match json {
            Json::Object(members) => {
                let mut entries: Vec<(String, i16)> = Vec::new();
                let mut i: usize = 0;
                while i < members.len()
                    invariant
                        i <= members.len(),
                        entries@.len() == i,
                        *json == Json::Object(*members),
                        Self::members_verdict(members@, 0) == Self::members_verdict(
                            members@,
                            i as int,
                        ),
                        forall|k: int|
                            0 <= k < i ==> (#[trigger] entries@[k]).0@ == members@[k].0@
                                && entries@[k].1.agrees(members@[k].1),
                    decreases members.len() - i,
                {
                    let id = i16::decode(&members[i].1)?;
                    entries.push((members[i].0.clone(), id));
                    i += 1;
                }
                Ok(ParentMap { entries })
            },
            _ => Err(DecodeError::Structure),
        }
    }
}

/// A planet, a moon or another body that is no star
#[derive(Debug)]
pub struct Body {
    pub id: i16,
    pub name: String,
    pub ty: Option<BodyType>,
    /// Distance from primary star in light seconds
    pub distance_from_arrival: Option<Number>,
    pub parents: Vec<ParentMap>,
    pub planet_class: String,
    pub tidal_lock: bool,
    pub landable: bool,
    pub terraform_state: Option<String>,
    pub atmosphere: Option<String>,
    pub atmosphere_type: String,
    pub volcanism: Option<String>,
    pub materials: Option<Vec<Material>>,
    /// Body masses in units of earth masses
    pub mass: Number,
    pub radius: Number,
    pub surface_gravity: Number,
    pub surface_temperature: Number,
    pub surface_pressure: Number,
    pub composition: Composition,
    pub semi_major_axis: Number,
    pub eccentricity: Number,
    pub orbital_inclination: Number,
    pub periapsis: Number,
    pub orbital_period: Number,
    pub rotation_period: Number,
    pub axial_tilt: Number,
    pub ascending_node: Number,
    pub mean_anomaly: Number,
    pub was_mapped: bool,
    pub was_discovered: bool,
}

impl Decode for Body {
    open spec fn verdict(json: Json) -> Verdict {
        Verdict::object(json)
            .and(Verdict::required::<i16>(json, "BodyID"@))
            .and(Verdict::required::<String>(json, json.either("BodyName"@, "Body"@)))
            .and(Verdict::optional::<BodyType>(json, "BodyType"@))
            .and(Verdict::optional::<Number>(json, json.either("DistanceFromArrivalLS"@, "DistFromStarLS"@)))
            .and(Verdict::required::<Vec<ParentMap>>(json, "Parents"@))
            .and(Verdict::required::<String>(json, "PlanetClass"@))
            .and(Verdict::required::<bool>(json, "TidalLock"@))
            .and(Verdict::required::<bool>(json, "Landable"@))
            .and(Verdict::of(json.empty_str_is_none_at("TerraformState"@)))
            .and(Verdict::of(json.empty_str_is_none_at("Atmosphere"@)))
            .and(Verdict::required::<String>(json, "AtmosphereType"@))
            .and(Verdict::of(json.empty_str_is_none_at("Volcanism"@)))
            .and(Verdict::optional::<Vec<Material>>(json, "Materials"@))
            .and(Verdict::required::<Number>(json, "MassEM"@))
            .and(Verdict::required::<Number>(json, "Radius"@))
            .and(Verdict::required::<Number>(json, "SurfaceGravity"@))
            .and(Verdict::required::<Number>(json, "SurfaceTemperature"@))
            .and(Verdict::required::<Number>(json, "SurfacePressure"@))
            .and(Verdict::required::<Composition>(json, "Composition"@))
            .and(Verdict::required::<Number>(json, "SemiMajorAxis"@))
            .and(Verdict::required::<Number>(json, "Eccentricity"@))
            .and(Verdict::required::<Number>(json, "OrbitalInclination"@))
            .and(Verdict::required::<Number>(json, "Periapsis"@))
            .and(Verdict::required::<Number>(json, "OrbitalPeriod"@))
            .and(Verdict::required::<Number>(json, "RotationPeriod"@))
            .and(Verdict::required::<Number>(json, "AxialTilt"@))
            .and(Verdict::required::<Number>(json, "AscendingNode"@))
            .and(Verdict::required::<Number>(json, "MeanAnomaly"@))
            .and(Verdict::required::<bool>(json, "WasMapped"@))
            .and(Verdict::required::<bool>(json, "WasDiscovered"@))
    }

    open spec fn agrees(&self, json: Json) -> bool {
        &&& json.gives("BodyID"@, &self.id)
        &&& json.gives(json.either("BodyName"@, "Body"@), &self.name)
        &&& json.gives("BodyType"@, &self.ty)
        &&& json.gives(json.either("DistanceFromArrivalLS"@, "DistFromStarLS"@), &self.distance_from_arrival)
        &&& json.gives("Parents"@, &self.parents)
        &&& json.gives("PlanetClass"@, &self.planet_class)
        &&& json.gives("TidalLock"@, &self.tidal_lock)
        &&& json.gives("Landable"@, &self.landable)
        &&& json.empty_str_is_none_at("TerraformState"@) == Ok::<Option<String>, DecodeError>(self.terraform_state)
        &&& json.empty_str_is_none_at("Atmosphere"@) == Ok::<Option<String>, DecodeError>(self.atmosphere)
        &&& json.gives("AtmosphereType"@, &self.atmosphere_type)
        &&& json.empty_str_is_none_at("Volcanism"@) == Ok::<Option<String>, DecodeError>(self.volcanism)
        &&& json.gives("Materials"@, &self.materials)
        &&& json.gives("MassEM"@, &self.mass)
        &&& json.gives("Radius"@, &self.radius)
        &&& json.gives("SurfaceGravity"@, &self.surface_gravity)
        &&& json.gives("SurfaceTemperature"@, &self.surface_temperature)
        &&& json.gives("SurfacePressure"@, &self.surface_pressure)
        &&& json.gives("Composition"@, &self.composition)
        &&& json.gives("SemiMajorAxis"@, &self.semi_major_axis)
        &&& json.gives("Eccentricity"@, &self.eccentricity)
        &&& json.gives("OrbitalInclination"@, &self.orbital_inclination)
        &&& json.gives("Periapsis"@, &self.periapsis)
        &&& json.gives("OrbitalPeriod"@, &self.orbital_period)
        &&& json.gives("RotationPeriod"@, &self.rotation_period)
        &&& json.gives("AxialTilt"@, &self.axial_tilt)
        &&& json.gives("AscendingNode"@, &self.ascending_node)
        &&& json.gives("MeanAnomaly"@, &self.mean_anomaly)
        &&& json.gives("WasMapped"@, &self.was_mapped)
        &&& json.gives("WasDiscovered"@, &self.was_discovered)
    }

    fn decode(json: &Json) -> (r: Result<Body, DecodeError>) {
        object(json)?;
        let id = required::<i16>(json, "BodyID")?;
        let name = required::<String>(json, either(json, "BodyName", "Body"))?;
        let ty = optional::<BodyType>(json, "BodyType")?;
        let distance_from_arrival = optional::<Number>(json, either(json, "DistanceFromArrivalLS", "DistFromStarLS"))?;
        let parents = required::<Vec<ParentMap>>(json, "Parents")?;
        let planet_class = required::<String>(json, "PlanetClass")?;
        let tidal_lock = required::<bool>(json, "TidalLock")?;
        let landable = required::<bool>(json, "Landable")?;
        let terraform_state = empty_str_is_none_at(json, "TerraformState")?;
        let atmosphere = empty_str_is_none_at(json, "Atmosphere")?;
        let atmosphere_type = required::<String>(json, "AtmosphereType")?;
        let volcanism = empty_str_is_none_at(json, "Volcanism")?;
        let materials = optional::<Vec<Material>>(json, "Materials")?;
        let mass = required::<Number>(json, "MassEM")?;
        let radius = required::<Number>(json, "Radius")?;
        let surface_gravity = required::<Number>(json, "SurfaceGravity")?;
        let surface_temperature = required::<Number>(json, "SurfaceTemperature")?;
        let surface_pressure = required::<Number>(json, "SurfacePressure")?;
        let composition = required::<Composition>(json, "Composition")?;
        let semi_major_axis = required::<Number>(json, "SemiMajorAxis")?;
        let eccentricity = required::<Number>(json, "Eccentricity")?;
        let orbital_inclination = required::<Number>(json, "OrbitalInclination")?;
        let periapsis = required::<Number>(json, "Periapsis")?;
        let orbital_period = required::<Number>(json, "OrbitalPeriod")?;
        let rotation_period = required::<Number>(json, "RotationPeriod")?;
        let axial_tilt = required::<Number>(json, "AxialTilt")?;
        let ascending_node = required::<Number>(json, "AscendingNode")?;
        let mean_anomaly = required::<Number>(json, "MeanAnomaly")?;
        let was_mapped = required::<bool>(json, "WasMapped")?;
        let was_discovered = required::<bool>(json, "WasDiscovered")?;
        Ok(Body {
            id,
            name,
            ty,
            distance_from_arrival,
            parents,
            planet_class,
            tidal_lock,
            landable,
            terraform_state,
            atmosphere,
            atmosphere_type,
            volcanism,
            materials,
            mass,
            radius,
            surface_gravity,
            surface_temperature,
            surface_pressure,
            composition,
            semi_major_axis,
            eccentricity,
            orbital_inclination,
            periapsis,
            orbital_period,
            rotation_period,
            axial_tilt,
            ascending_node,
            mean_anomaly,
            was_mapped,
            was_discovered,
        })
    }
}

impl Part for Body {
    open spec fn present(json: Json) -> bool {
        &&& json.has("BodyID"@)
        &&& json.has(json.either("BodyName"@, "Body"@))
        &&& json.has("Parents"@)
        &&& json.has("PlanetClass"@)
        &&& json.has("TidalLock"@)
        &&& json.has("Landable"@)
        &&& json.has("AtmosphereType"@)
        &&& json.has("MassEM"@)
        &&& json.has("Radius"@)
        &&& json.has("SurfaceGravity"@)
        &&& json.has("SurfaceTemperature"@)
        &&& json.has("SurfacePressure"@)
        &&& json.has("Composition"@)
        &&& json.has("SemiMajorAxis"@)
        &&& json.has("Eccentricity"@)
        &&& json.has("OrbitalInclination"@)
        &&& json.has("Periapsis"@)
        &&& json.has("OrbitalPeriod"@)
        &&& json.has("RotationPeriod"@)
        &&& json.has("AxialTilt"@)
        &&& json.has("AscendingNode"@)
        &&& json.has("MeanAnomaly"@)
        &&& json.has("WasMapped"@)
        &&& json.has("WasDiscovered"@)
    }

    fn is_present(json: &Json) -> (r: bool) {
        has(json, "BodyID")
            && has(json, either(json, "BodyName", "Body"))
            && has(json, "Parents")
            && has(json, "PlanetClass")
            && has(json, "TidalLock")
            && has(json, "Landable")
            && has(json, "AtmosphereType")
            && has(json, "MassEM")
            && has(json, "Radius")
            && has(json, "SurfaceGravity")
            && has(json, "SurfaceTemperature")
            && has(json, "SurfacePressure")
            && has(json, "Composition")
            && has(json, "SemiMajorAxis")
            && has(json, "Eccentricity")
            && has(json, "OrbitalInclination")
            && has(json, "Periapsis")
            && has(json, "OrbitalPeriod")
            && has(json, "RotationPeriod")
            && has(json, "AxialTilt")
            && has(json, "AscendingNode")
            && has(json, "MeanAnomaly")
            && has(json, "WasMapped")
            && has(json, "WasDiscovered")
    }
}

/// A kind of signal found on a body, with the number of its sites
#[derive(Debug)]
pub struct Signal {
    /// What is found there, such as `Alexandrite`
    pub ty: String,
    pub count: usize,
}

impl Decode for Signal {
    open spec fn verdict(json: Json) -> Verdict {
        Verdict::object(json)
            .and(Verdict::required::<String>(json, "Type"@))
            .and(Verdict::required::<usize>(json, "Count"@))
    }

    open spec fn agrees(&self, json: Json) -> bool {
        &&& json.gives("Type"@, &self.ty)
        &&& json.gives("Count"@, &self.count)
    }

    fn decode(json: &Json) -> (r: Result<Signal, DecodeError>) {
        object(json)?;
        let ty = required::<String>(json, "Type")?;
        let count = required::<usize>(json, "Count")?;
        Ok(Signal { ty, count })
    }
}

} // verus!
