use vstd::prelude::*;
use crate::alias::{decode_name, Enumeration};
use crate::de::{Decode, DecodeError, has, object, Part, required, Verdict};
use crate::json::{Json, Number};

verus! {

/// These are just the game's names, they don't really make sense since tritium is an
/// isotope of hydrogen.
#[derive(Clone, Copy, Debug, PartialEq, Eq, Structural)]
pub enum Fuel {
    /// What fleet carriers burn
    Tritium,
    /// Ship fuel, as a jump of a ship uses it
    Hydrogen,
}

/// Every spelling of a [`Fuel`] that the journal has used, each beside its variant,
/// in alphabetical order.
pub const FUEL_SPELLINGS: [(&'static str, Fuel); 2] = [
    ("Hydrogen", Fuel::Hydrogen),
    ("Tritium", Fuel::Tritium),
];

impl Enumeration for Fuel {
    open spec fn table() -> Seq<(&'static str, Fuel)> {
        FUEL_SPELLINGS@
    }

    fn spellings() -> (r: &'static [(&'static str, Fuel)]) {
        vstd::array::array_as_slice(&FUEL_SPELLINGS)
    }

    proof fn spellings_ascend() {
        reveal_with_fuel(crate::alias::precedes, 10);
        reveal_with_fuel(crate::alias::ascending_from, 4);
        reveal_strlit("Hydrogen");
        reveal_strlit("Tritium");
        assert(crate::alias::ascending_from(FUEL_SPELLINGS@, 0));
    }
}

impl Decode for Fuel {
    open spec fn verdict(json: Json) -> Verdict {
        Verdict::of(crate::alias::named::<Fuel>(json))
    }

    open spec fn agrees(&self, json: Json) -> bool {
        crate::alias::named::<Fuel>(json) == Ok::<Fuel, DecodeError>(*self)
    }

    fn decode(json: &Json) -> (r: Result<Fuel, DecodeError>) {
        decode_name::<Fuel>(json)
    }
}

impl Default for Fuel {
    fn default() -> (r: Fuel)
        ensures
            r == Fuel::Hydrogen,
    {
        Fuel::Hydrogen
    }
}

/// What a jump took: the distance covered and the fuel burnt
///
/// The journal does not say which fuel; it is that of ships.
#[derive(Clone, Copy, Debug, PartialEq, Eq, Structural)]
pub struct JumpCost {
    pub ty: Fuel,
    pub distance: Number,
    pub used: Number,
    pub level: Number,
}

impl Decode for JumpCost {
    open spec fn verdict(json: Json) -> Verdict {
        Verdict::object(json)
            .and(Verdict::required::<Number>(json, "JumpDist"@))
            .and(Verdict::required::<Number>(json, "FuelUsed"@))
            .and(Verdict::required::<Number>(json, "FuelLevel"@))
    }

    open spec fn agrees(&self, json: Json) -> bool {
        &&& self.ty == Fuel::Hydrogen
        &&& json.gives("JumpDist"@, &self.distance)
        &&& json.gives("FuelUsed"@, &self.used)
        &&& json.gives("FuelLevel"@, &self.level)
    }

    fn decode(json: &Json) -> (r: Result<JumpCost, DecodeError>) {
        object(json)?;
        let ty = Fuel::Hydrogen;
        let distance = required::<Number>(json, "JumpDist")?;
        let used = required::<Number>(json, "FuelUsed")?;
        let level = required::<Number>(json, "FuelLevel")?;
        Ok(JumpCost { ty, distance, used, level })
    }
}

impl Part for JumpCost {
    open spec fn present(json: Json) -> bool {
        &&& json.has("JumpDist"@)
        &&& json.has("FuelUsed"@)
        &&& json.has("FuelLevel"@)
    }

    fn is_present(json: &Json) -> (r: bool) {
        has(json, "JumpDist")
            && has(json, "FuelUsed")
            && has(json, "FuelLevel")
    }
}

} // verus!
