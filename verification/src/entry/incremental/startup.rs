use vstd::prelude::*;
use crate::alias::{decode_name, Enumeration};
use crate::de::{
    Decode, DecodeError, either, has, listed, object, optional, part, Part, required, Verdict,
};
use crate::json::Json;

verus! {

/// The first line of every journal file
#[derive(Debug)]
pub struct Fileheader {
    /// The place of the file among those of one session
    pub part: u8,
    pub language: String,
    pub gameversion: String,
    pub build: String,
}

impl Decode for Fileheader {
    open spec fn verdict(json: Json) -> Verdict {
        Verdict::object(json)
            .and(Verdict::required::<u8>(json, "part"@))
            .and(Verdict::required::<String>(json, "language"@))
            .and(Verdict::required::<String>(json, "gameversion"@))
            .and(Verdict::required::<String>(json, "build"@))
    }

    open spec fn agrees(&self, json: Json) -> bool {
        &&& json.gives("part"@, &self.part)
        &&& json.gives("language"@, &self.language)
        &&& json.gives("gameversion"@, &self.gameversion)
        &&& json.gives("build"@, &self.build)
    }

    fn decode(json: &Json) -> (r: Result<Fileheader, DecodeError>) {
        object(json)?;
        let part = required::<u8>(json, "part")?;
        let language = required::<String>(json, "language")?;
        let gameversion = required::<String>(json, "gameversion")?;
        let build = required::<String>(json, "build")?;
        Ok(Fileheader { part, language, gameversion, build })
    }
}

/// A new commander has been made
#[derive(Debug)]
pub struct NewCommander {
    pub commander: Commander,
    pub package: String,
}

impl Decode for NewCommander {
    open spec fn verdict(json: Json) -> Verdict {
        Verdict::object(json)
            .and(Commander::verdict(json))
            .and(Verdict::required::<String>(json, "Package"@))
    }

    open spec fn agrees(&self, json: Json) -> bool {
        &&& self.commander.agrees(json)
        &&& json.gives("Package"@, &self.package)
    }

    fn decode(json: &Json) -> (r: Result<NewCommander, DecodeError>) {
        object(json)?;
        let commander = Commander::decode(json)?;
        let package = required::<String>(json, "Package")?;
        Ok(NewCommander { commander, package })
    }
}

/// The commander who plays
#[derive(Debug)]
pub struct Commander {
    pub name: String,
    pub fid: String,
}

impl Decode for Commander {
    open spec fn verdict(json: Json) -> Verdict {
        Verdict::object(json)
            .and(Verdict::required::<String>(json, json.either("Name"@, "Commander"@)))
            .and(Verdict::required::<String>(json, "FID"@))
    }

    open spec fn agrees(&self, json: Json) -> bool {
        &&& json.gives(json.either("Name"@, "Commander"@), &self.name)
        &&& json.gives("FID"@, &self.fid)
    }

    fn decode(json: &Json) -> (r: Result<Commander, DecodeError>) {
        object(json)?;
        let name = required::<String>(json, either(json, "Name", "Commander"))?;
        let fid = required::<String>(json, "FID")?;
        Ok(Commander { name, fid })
    }
}

impl Part for Commander {
    open spec fn present(json: Json) -> bool {
        &&& json.has(json.either("Name"@, "Commander"@))
        &&& json.has("FID"@)
    }

    fn is_present(json: &Json) -> (r: bool) {
        has(json, either(json, "Name", "Commander"))
            && has(json, "FID")
    }
}

/// A saved game has been loaded
#[derive(Debug)]
pub struct LoadGame {
    pub commander: Option<Commander>,
    pub ship: Option<Ship>,
    pub horizons: bool,
    pub game_mode: Option<GameMode>,
    pub credits: u64,
    pub loan: u64,
}

impl Decode for LoadGame {
    open spec fn verdict(json: Json) -> Verdict {
        Verdict::object(json)
            .and(Verdict::part::<Commander>(json))
            .and(Verdict::part::<Ship>(json))
            .and(Verdict::required::<bool>(json, "Horizons"@))
            .and(Verdict::optional::<GameMode>(json, "GameMode"@))
            .and(Verdict::required::<u64>(json, "Credits"@))
            .and(Verdict::required::<u64>(json, "Loan"@))
    }

    open spec fn agrees(&self, json: Json) -> bool {
        &&& json.gives_part(&self.commander)
        &&& json.gives_part(&self.ship)
        &&& json.gives("Horizons"@, &self.horizons)
        &&& json.gives("GameMode"@, &self.game_mode)
        &&& json.gives("Credits"@, &self.credits)
        &&& json.gives("Loan"@, &self.loan)
    }

    fn decode(json: &Json) -> (r: Result<LoadGame, DecodeError>) {
        object(json)?;
        let commander = part::<Commander>(json)?;
        let ship = part::<Ship>(json)?;
        let horizons = required::<bool>(json, "Horizons")?;
        let game_mode = optional::<GameMode>(json, "GameMode")?;
        let credits = required::<u64>(json, "Credits")?;
        let loan = required::<u64>(json, "Loan")?;
        Ok(LoadGame { commander, ship, horizons, game_mode, credits, loan })
    }
}

/// With whom the commander shares the galaxy
#[derive(Clone, Copy, Debug, PartialEq, Eq, Structural)]
pub enum GameMode {
    Open,
    Group,
    Solo,
}

/// Every spelling of a [`GameMode`] that the journal has used, each beside its variant,
/// in alphabetical order.
pub const GAME_MODE_SPELLINGS: [(&'static str, GameMode); 3] = [
    ("Group", GameMode::Group),
    ("Open", GameMode::Open),
    ("Solo", GameMode::Solo),
];

impl Enumeration for GameMode {
    open spec fn table() -> Seq<(&'static str, GameMode)> {
        GAME_MODE_SPELLINGS@
    }

    fn spellings() -> (r: &'static [(&'static str, GameMode)]) {
        vstd::array::array_as_slice(&GAME_MODE_SPELLINGS)
    }

    proof fn spellings_ascend() {
        reveal_with_fuel(crate::alias::precedes, 7);
        reveal_with_fuel(crate::alias::ascending_from, 5);
        reveal_strlit("Group");
        reveal_strlit("Open");
        reveal_strlit("Solo");
        assert(crate::alias::ascending_from(GAME_MODE_SPELLINGS@, 0));
    }
}

impl Decode for GameMode {
    open spec fn verdict(json: Json) -> Verdict {
        Verdict::of(crate::alias::named::<GameMode>(json))
    }

    open spec fn agrees(&self, json: Json) -> bool {
        crate::alias::named::<GameMode>(json) == Ok::<GameMode, DecodeError>(*self)
    }

    fn decode(json: &Json) -> (r: Result<GameMode, DecodeError>) {
        decode_name::<GameMode>(json)
    }
}

/// What the commander sits in
#[derive(Clone, Copy, Debug, PartialEq, Eq, Structural)]
pub enum Vessel {
    Srv,
    Ship,
}

/// Every spelling of a [`Vessel`] that the journal has used, each beside its variant,
/// in alphabetical order.
pub const VESSEL_SPELLINGS: [(&'static str, Vessel); 2] = [
    ("SRV", Vessel::Srv),
    ("Ship", Vessel::Ship),
];

impl Enumeration for Vessel {
    open spec fn table() -> Seq<(&'static str, Vessel)> {
        VESSEL_SPELLINGS@
    }

    fn spellings() -> (r: &'static [(&'static str, Vessel)]) {
        vstd::array::array_as_slice(&VESSEL_SPELLINGS)
    }

    proof fn spellings_ascend() {
        reveal_with_fuel(crate::alias::precedes, 6);
        reveal_with_fuel(crate::alias::ascending_from, 4);
        reveal_strlit("SRV");
        reveal_strlit("Ship");
        assert(crate::alias::ascending_from(VESSEL_SPELLINGS@, 0));
    }
}

impl Decode for Vessel {
    open spec fn verdict(json: Json) -> Verdict {
        Verdict::of(crate::alias::named::<Vessel>(json))
    }

    open spec fn agrees(&self, json: Json) -> bool {
        crate::alias::named::<Vessel>(json) == Ok::<Vessel, DecodeError>(*self)
    }

    fn decode(json: &Json) -> (r: Result<Vessel, DecodeError>) {
        decode_name::<Vessel>(json)
    }
}

/// The ship that the commander flies
#[derive(Debug)]
pub struct Ship {
    pub model: String,
    pub id: u64,
    pub name: String,
    pub ident: String,
}

impl Decode for Ship {
    open spec fn verdict(json: Json) -> Verdict {
        Verdict::object(json)
            .and(Verdict::required::<String>(json, "Ship"@))
            .and(Verdict::required::<u64>(json, "ShipID"@))
            .and(Verdict::required::<String>(json, "ShipName"@))
            .and(Verdict::required::<String>(json, "ShipIdent"@))
    }

    open spec fn agrees(&self, json: Json) -> bool {
        &&& json.gives("Ship"@, &self.model)
        &&& json.gives("ShipID"@, &self.id)
        &&& json.gives("ShipName"@, &self.name)
        &&& json.gives("ShipIdent"@, &self.ident)
    }

    fn decode(json: &Json) -> (r: Result<Ship, DecodeError>) {
        object(json)?;
        let model = required::<String>(json, "Ship")?;
        let id = required::<u64>(json, "ShipID")?;
        let name = required::<String>(json, "ShipName")?;
        let ident = required::<String>(json, "ShipIdent")?;
        Ok(Ship { model, id, name, ident })
    }
}

impl Part for Ship {
    open spec fn present(json: Json) -> bool {
        &&& json.has("Ship"@)
        &&& json.has("ShipID"@)
        &&& json.has("ShipName"@)
        &&& json.has("ShipIdent"@)
    }

    fn is_present(json: &Json) -> (r: bool) {
        has(json, "Ship")
            && has(json, "ShipID")
            && has(json, "ShipName")
            && has(json, "ShipIdent")
    }
}

/// What a vessel has loaded
#[derive(Debug)]
pub struct Cargos {
    pub vessel: Vessel,
    pub inventory: Vec<Cargo>,
}

impl Decode for Cargos {
    open spec fn verdict(json: Json) -> Verdict {
        Verdict::object(json)
            .and(Verdict::required::<Vessel>(json, "Vessel"@))
            .and(Verdict::listed::<Cargo>(json, "Inventory"@))
    }

    open spec fn agrees(&self, json: Json) -> bool {
        &&& json.gives("Vessel"@, &self.vessel)
        &&& json.gives_list("Inventory"@, &self.inventory)
    }

    fn decode(json: &Json) -> (r: Result<Cargos, DecodeError>) {
        object(json)?;
        let vessel = required::<Vessel>(json, "Vessel")?;
        let inventory = listed::<Cargo>(json, "Inventory")?;
        Ok(Cargos { vessel, inventory })
    }
}

/// One kind of goods in the hold
#[derive(Debug)]
pub struct Cargo {
    pub name: String,
    pub count: u64,
    pub stolen: u64,
    pub mission_id: Option<u64>,
}

impl Decode for Cargo {
    open spec fn verdict(json: Json) -> Verdict {
        Verdict::object(json)
            .and(Verdict::required::<String>(json, "Name"@))
            .and(Verdict::required::<u64>(json, "Count"@))
            .and(Verdict::required::<u64>(json, "Stolen"@))
            .and(Verdict::optional::<u64>(json, "MissionId"@))
    }

    open spec fn agrees(&self, json: Json) -> bool {
        &&& json.gives("Name"@, &self.name)
        &&& json.gives("Count"@, &self.count)
        &&& json.gives("Stolen"@, &self.stolen)
        &&& json.gives("MissionId"@, &self.mission_id)
    }

    fn decode(json: &Json) -> (r: Result<Cargo, DecodeError>) {
        object(json)?;
        let name = required::<String>(json, "Name")?;
        let count = required::<u64>(json, "Count")?;
        let stolen = required::<u64>(json, "Stolen")?;
        let mission_id = optional::<u64>(json, "MissionId")?;
        Ok(Cargo { name, count, stolen, mission_id })
    }
}

/// The materials that the commander holds, by kind
#[derive(Debug)]
pub struct Materials {
    pub raw: Vec<Material>,
    pub manufactured: Vec<Material>,
    pub encoded: Vec<Material>,
}

impl Decode for Materials {
    open spec fn verdict(json: Json) -> Verdict {
        Verdict::object(json)
            .and(Verdict::required::<Vec<Material>>(json, "Raw"@))
            .and(Verdict::required::<Vec<Material>>(json, "Manufactured"@))
            .and(Verdict::required::<Vec<Material>>(json, "Encoded"@))
    }

    open spec fn agrees(&self, json: Json) -> bool {
        &&& json.gives("Raw"@, &self.raw)
        &&& json.gives("Manufactured"@, &self.manufactured)
        &&& json.gives("Encoded"@, &self.encoded)
    }

    fn decode(json: &Json) -> (r: Result<Materials, DecodeError>) {
        object(json)?;
        let raw = required::<Vec<Material>>(json, "Raw")?;
        let manufactured = required::<Vec<Material>>(json, "Manufactured")?;
        let encoded = required::<Vec<Material>>(json, "Encoded")?;
        Ok(Materials { raw, manufactured, encoded })
    }
}

/// A material with the number of units held
#[derive(Debug)]
pub struct Material {
    pub name: String,
    pub count: u64,
}

impl Decode for Material {
    open spec fn verdict(json: Json) -> Verdict {
        Verdict::object(json)
            .and(Verdict::required::<String>(json, "Name"@))
            .and(Verdict::required::<u64>(json, "Count"@))
    }

    open spec fn agrees(&self, json: Json) -> bool {
        &&& json.gives("Name"@, &self.name)
        &&& json.gives("Count"@, &self.count)
    }

    fn decode(json: &Json) -> (r: Result<Material, DecodeError>) {
        object(json)?;
        let name = required::<String>(json, "Name")?;
        let count = required::<u64>(json, "Count")?;
        Ok(Material { name, count })
    }
}

} // verus!
