//! Decoding of the player journal of Elite: Dangerous.
//!
//! The game appends one JSON object per line to its journal files and keeps a
//! few status files beside them. Every object carries a `timestamp` and an
//! `event`; the event decides which other members there are. This crate turns
//! such lines into typed values: [`entry::Entry`] with an [`entry::Event`].
//!
//! - Use [`entry::decode_line`], [`parse_journal_file`] and [`parse_journal_dir`] for the lines
//!   of `*.log` journal files, and [`parse_journal_dir_in`] with [`entry::order_of_time`] to
//!   have the files of a directory in the order of time
//! - Use [`parse_status_file`] for the text of a `*.json` status file
//!
//! The library reads no file itself: it takes the text, or the lines, that
//! the caller has read.
//!
//! The journal says "no value" in several ways: an empty string, a zero, or a
//! variant of an enumeration that is called `None` there. All of them decode to
//! `None` of an `Option`; see [`de`]. The variant itself is `Unspecified` here.
//! Enumerations have been spelled in several ways over the years; each comes
//! with a table of all its spellings, see [`alias`].

use vstd::prelude::*;
use vstd::std_specs::cmp::PartialEqSpec;
use crate::alias::{decode_name, Enumeration};
use crate::de::{Decode, DecodeError, Nullable, Verdict};
use crate::json::Json;

/// Resolution of the spellings of an enumeration
pub mod alias;

/// Planets, moons and what else orbits a star
pub mod body;

/// Decoders for single values and for the members of an object
pub mod de;

/// Numbers written in digits, compared without being read
pub mod digits;

/// Journal and status file entries
pub mod entry;

/// Galactic factions who occupy systems and take part in the game's background simulation
pub mod faction;

/// The JSON documents that the decoders read
pub mod json;

/// All shared data models used throughout the events
pub mod prelude;

/// Ships and what their jumps cost
pub mod ship;

/// Stations and the services they offer
pub mod station;

/// A star system, located in static 3D space
pub mod system;

/// Comparison of strings
pub mod text;

pub use self::entry::{
    parse_journal_dir, parse_journal_dir_in, parse_journal_file, parse_status_file, Entry,
};

verus! {

/// System and faction's organizational structure
#[derive(Clone, Copy, Debug)]
pub enum Government {
    Anarchy,
    Communism,
    Confederacy,
    Cooperative,
    Corporate,
    Democracy,
    Dictatorship,
    Feudal,
    Patronage,
    Prison,
    PrisonColony,
    Theocracy,
    Engineer,
    Carrier,
    /// Written `None`, `$government_None;` or as the empty string.
    Unspecified,
}

/// Every spelling of a [`Government`] that the journal has used, each beside its variant,
/// in alphabetical order.
pub const GOVERNMENT_SPELLINGS: [(&'static str, Government); 33] = [
    ("", Government::Unspecified),
    ("$government_Anarchy;", Government::Anarchy),
    ("$government_Carrier;", Government::Carrier),
    ("$government_Communism;", Government::Communism),
    ("$government_Confederacy;", Government::Confederacy),
    ("$government_Cooperative;", Government::Cooperative),
    ("$government_Corporate;", Government::Corporate),
    ("$government_Democracy;", Government::Democracy),
    ("$government_Dictatorship;", Government::Dictatorship),
    ("$government_Engineer;", Government::Engineer),
    ("$government_Feudal;", Government::Feudal),
    ("$government_None;", Government::Unspecified),
    ("$government_Patronage;", Government::Patronage),
    ("$government_Prison;", Government::Prison),
    ("$government_PrisonColony;", Government::PrisonColony),
    ("$government_Theocracy;", Government::Theocracy),
    ("Anarchy", Government::Anarchy),
    ("Carrier", Government::Carrier),
    ("Communism", Government::Communism),
    ("Confederacy", Government::Confederacy),
    ("Cooperative", Government::Cooperative),
    ("Corporate", Government::Corporate),
    ("Democracy", Government::Democracy),
    ("Dictatorship", Government::Dictatorship),
    ("Engineer", Government::Engineer),
    ("Feudal", Government::Feudal),
    ("None", Government::Unspecified),
    ("Patronage", Government::Patronage),
    ("Prison", Government::Prison),
    ("Prison Colony", Government::PrisonColony),
    ("Prison colony", Government::PrisonColony),
    ("PrisonColony", Government::PrisonColony),
    ("Theocracy", Government::Theocracy),
];

impl Enumeration for Government {
    open spec fn table() -> Seq<(&'static str, Government)> {
        GOVERNMENT_SPELLINGS@
    }

    fn spellings() -> (r: &'static [(&'static str, Government)]) {
        vstd::array::array_as_slice(&GOVERNMENT_SPELLINGS)
    }

    proof fn spellings_ascend() {
        reveal_with_fuel(crate::alias::precedes, 27);
        reveal_with_fuel(crate::alias::ascending_from, 10);
        reveal_strlit("");
        reveal_strlit("$government_Anarchy;");
        reveal_strlit("$government_Carrier;");
        reveal_strlit("$government_Communism;");
        reveal_strlit("$government_Confederacy;");
        reveal_strlit("$government_Cooperative;");
        reveal_strlit("$government_Corporate;");
        reveal_strlit("$government_Democracy;");
        reveal_strlit("$government_Dictatorship;");
        reveal_strlit("$government_Engineer;");
        reveal_strlit("$government_Feudal;");
        reveal_strlit("$government_None;");
        reveal_strlit("$government_Patronage;");
        reveal_strlit("$government_Prison;");
        reveal_strlit("$government_PrisonColony;");
        reveal_strlit("$government_Theocracy;");
        reveal_strlit("Anarchy");
        reveal_strlit("Carrier");
        reveal_strlit("Communism");
        reveal_strlit("Confederacy");
        reveal_strlit("Cooperative");
        reveal_strlit("Corporate");
        reveal_strlit("Democracy");
        reveal_strlit("Dictatorship");
        reveal_strlit("Engineer");
        reveal_strlit("Feudal");
        reveal_strlit("None");
        reveal_strlit("Patronage");
        reveal_strlit("Prison");
        reveal_strlit("Prison Colony");
        reveal_strlit("Prison colony");
        reveal_strlit("PrisonColony");
        reveal_strlit("Theocracy");
        assert(crate::alias::ascending_from(GOVERNMENT_SPELLINGS@, 32));
        assert(crate::alias::ascending_from(GOVERNMENT_SPELLINGS@, 24));
        assert(crate::alias::ascending_from(GOVERNMENT_SPELLINGS@, 16));
        assert(crate::alias::ascending_from(GOVERNMENT_SPELLINGS@, 8));
        assert(crate::alias::ascending_from(GOVERNMENT_SPELLINGS@, 0));
    }
}

impl Decode for Government {
    open spec fn verdict(json: Json) -> Verdict {
        Verdict::of(crate::alias::named::<Government>(json))
    }

    open spec fn agrees(&self, json: Json) -> bool {
        crate::alias::named::<Government>(json) == Ok::<Government, DecodeError>(*self)
    }

    fn decode(json: &Json) -> (r: Result<Government, DecodeError>) {
        decode_name::<Government>(json)
    }
}

impl Nullable for Government {
    open spec fn absent(&self) -> bool {
        *self is Unspecified
    }

    fn is_null(&self) -> (r: bool) {
        match self {
            Government::Unspecified => true,
            _ => false,
        }
    }
}

/// Equality of two decoded values. `Unspecified` carries nothing to compare, so it
/// is equal to nothing, itself included: this `==` is not reflexive, and a
/// set or a map keyed by this type must not rely on it.
impl PartialEq for Government {
    fn eq(&self, other: &Government) -> (r: bool) {
        match (*self, *other) {
            (Government::Anarchy, Government::Anarchy) => true,
            (Government::Communism, Government::Communism) => true,
            (Government::Confederacy, Government::Confederacy) => true,
            (Government::Cooperative, Government::Cooperative) => true,
            (Government::Corporate, Government::Corporate) => true,
            (Government::Democracy, Government::Democracy) => true,
            (Government::Dictatorship, Government::Dictatorship) => true,
            (Government::Feudal, Government::Feudal) => true,
            (Government::Patronage, Government::Patronage) => true,
            (Government::Prison, Government::Prison) => true,
            (Government::PrisonColony, Government::PrisonColony) => true,
            (Government::Theocracy, Government::Theocracy) => true,
            (Government::Engineer, Government::Engineer) => true,
            (Government::Carrier, Government::Carrier) => true,
            _ => false,
        }
    }
}

impl vstd::std_specs::cmp::PartialEqSpecImpl for Government {
    open spec fn obeys_eq_spec() -> bool {
        true
    }

    open spec fn eq_spec(&self, other: &Government) -> bool {
        *self == *other && *self !is Unspecified
    }
}

impl Government {
    /// Every spelling listed for `Unspecified` decodes to it; the value reports
    /// itself null, and it alone does; it is not equal to itself, however
    /// often it is decoded.
    pub proof fn lemma_unspecified(i: int)
        requires
            0 <= i < GOVERNMENT_SPELLINGS@.len(),
            GOVERNMENT_SPELLINGS@[i].1 == Government::Unspecified,
        ensures
            crate::alias::spelled::<Government>(GOVERNMENT_SPELLINGS@[i].0@) == Some(Government::Unspecified),
            Government::Unspecified.absent(),
            forall|v: Government| v.absent() <==> v is Unspecified,
            !Government::Unspecified.eq_spec(&Government::Unspecified),
    {
        crate::alias::lemma_listed_spelling::<Government>(i);
    }
}

/// System and faction's alignment to the broader groups
#[derive(Clone, Copy, Debug)]
pub enum Allegiance {
    Alliance,
    Empire,
    Federation,
    Guardian,
    Independent,
    PilotsFederation,
    PlayerPilots,
    Thargoid,
    /// Written `None` or as the empty string.
    Unspecified,
}

/// Every spelling of a [`Allegiance`] that the journal has used, each beside its variant,
/// in alphabetical order.
pub const ALLEGIANCE_SPELLINGS: [(&'static str, Allegiance); 11] = [
    ("", Allegiance::Unspecified),
    ("Alliance", Allegiance::Alliance),
    ("Empire", Allegiance::Empire),
    ("Federation", Allegiance::Federation),
    ("Guardian", Allegiance::Guardian),
    ("Independent", Allegiance::Independent),
    ("None", Allegiance::Unspecified),
    ("Pilots Federation", Allegiance::PilotsFederation),
    ("PilotsFederation", Allegiance::PilotsFederation),
    ("PlayerPilots", Allegiance::PlayerPilots),
    ("Thargoid", Allegiance::Thargoid),
];

impl Enumeration for Allegiance {
    open spec fn table() -> Seq<(&'static str, Allegiance)> {
        ALLEGIANCE_SPELLINGS@
    }

    fn spellings() -> (r: &'static [(&'static str, Allegiance)]) {
        vstd::array::array_as_slice(&ALLEGIANCE_SPELLINGS)
    }

    proof fn spellings_ascend() {
        reveal_with_fuel(crate::alias::precedes, 19);
        reveal_with_fuel(crate::alias::ascending_from, 10);
        reveal_strlit("");
        reveal_strlit("Alliance");
        reveal_strlit("Empire");
        reveal_strlit("Federation");
        reveal_strlit("Guardian");
        reveal_strlit("Independent");
        reveal_strlit("None");
        reveal_strlit("Pilots Federation");
        reveal_strlit("PilotsFederation");
        reveal_strlit("PlayerPilots");
        reveal_strlit("Thargoid");
        assert(crate::alias::ascending_from(ALLEGIANCE_SPELLINGS@, 8));
        assert(crate::alias::ascending_from(ALLEGIANCE_SPELLINGS@, 0));
    }
}

impl Decode for Allegiance {
    open spec fn verdict(json: Json) -> Verdict {
        Verdict::of(crate::alias::named::<Allegiance>(json))
    }

    open spec fn agrees(&self, json: Json) -> bool {
        crate::alias::named::<Allegiance>(json) == Ok::<Allegiance, DecodeError>(*self)
    }

    fn decode(json: &Json) -> (r: Result<Allegiance, DecodeError>) {
        decode_name::<Allegiance>(json)
    }
}

impl Nullable for Allegiance {
    open spec fn absent(&self) -> bool {
        *self is Unspecified
    }

    fn is_null(&self) -> (r: bool) {
        match self {
            Allegiance::Unspecified => true,
            _ => false,
        }
    }
}

/// Equality of two decoded values. `Unspecified` carries nothing to compare, so it
/// is equal to nothing, itself included: this `==` is not reflexive, and a
/// set or a map keyed by this type must not rely on it.
impl PartialEq for Allegiance {
    fn eq(&self, other: &Allegiance) -> (r: bool) {
        match (*self, *other) {
            (Allegiance::Alliance, Allegiance::Alliance) => true,
            (Allegiance::Empire, Allegiance::Empire) => true,
            (Allegiance::Federation, Allegiance::Federation) => true,
            (Allegiance::Guardian, Allegiance::Guardian) => true,
            (Allegiance::Independent, Allegiance::Independent) => true,
            (Allegiance::PilotsFederation, Allegiance::PilotsFederation) => true,
            (Allegiance::PlayerPilots, Allegiance::PlayerPilots) => true,
            (Allegiance::Thargoid, Allegiance::Thargoid) => true,
            _ => false,
        }
    }
}

impl vstd::std_specs::cmp::PartialEqSpecImpl for Allegiance {
    open spec fn obeys_eq_spec() -> bool {
        true
    }

    open spec fn eq_spec(&self, other: &Allegiance) -> bool {
        *self == *other && *self !is Unspecified
    }
}

impl Allegiance {
    /// Every spelling listed for `Unspecified` decodes to it; the value reports
    /// itself null, and it alone does; it is not equal to itself, however
    /// often it is decoded.
    pub proof fn lemma_unspecified(i: int)
        requires
            0 <= i < ALLEGIANCE_SPELLINGS@.len(),
            ALLEGIANCE_SPELLINGS@[i].1 == Allegiance::Unspecified,
        ensures
            crate::alias::spelled::<Allegiance>(ALLEGIANCE_SPELLINGS@[i].0@) == Some(Allegiance::Unspecified),
            Allegiance::Unspecified.absent(),
            forall|v: Allegiance| v.absent() <==> v is Unspecified,
            !Allegiance::Unspecified.eq_spec(&Allegiance::Unspecified),
    {
        crate::alias::lemma_listed_spelling::<Allegiance>(i);
    }
}

} // verus!
