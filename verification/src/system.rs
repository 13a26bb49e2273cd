use core::cmp::Ordering;
use vstd::prelude::*;
use vstd::std_specs::cmp::PartialEqSpec;
use crate::alias::{decode_name, Enumeration};
use crate::body::ParentMap;
use crate::de::{
    Decode, DecodeError, has, listed, null_is_none_at, Nullable, object, optional, Part, required,
    Verdict, zero_is_none_at,
};
use crate::faction::{Faction, FactionConflict, FactionInfo};
use crate::json::{Json, Number};
use crate::{Allegiance, Government};

verus! {

/// A star system, as the events that take place in one describe it
#[derive(Debug)]
pub struct System {
    pub address: i64,
    pub pos: Option<Coordinate>,
    pub name: String,
    pub population: Option<u64>,
    pub security: Option<Security>,
    pub government: Option<Government>,
    pub allegiance: Option<Allegiance>,
    pub economy: Option<Economy>,
    pub second_economy: Option<Economy>,
    pub controlling_faction: Option<Faction>,
    pub factions: Vec<FactionInfo>,
    pub conflicts: Vec<FactionConflict>,
    pub powers: Option<Vec<String>>,
    pub powerplay_state: Option<PowerplayState>,
}

impl Decode for System {
    open spec fn verdict(json: Json) -> Verdict {
        Verdict::object(json)
            .and(Verdict::required::<i64>(json, "SystemAddress"@))
            .and(Verdict::optional::<Coordinate>(json, "StarPos"@))
            .and(Verdict::required::<String>(json, "StarSystem"@))
            .and(Verdict::of(json.zero_is_none_at("Population"@)))
            .and(Verdict::of(json.null_is_none_at::<Security>("SystemSecurity"@)))
            .and(Verdict::of(json.null_is_none_at::<Government>("SystemGovernment"@)))
            .and(Verdict::of(json.null_is_none_at::<Allegiance>("SystemAllegiance"@)))
            .and(Verdict::of(json.null_is_none_at::<Economy>("SystemEconomy"@)))
            .and(Verdict::of(json.null_is_none_at::<Economy>("SystemSecondEconomy"@)))
            .and(Verdict::optional::<Faction>(json, "SystemFaction"@))
            .and(Verdict::listed::<FactionInfo>(json, "Factions"@))
            .and(Verdict::listed::<FactionConflict>(json, "Conflicts"@))
            .and(Verdict::optional::<Vec<String>>(json, "Powers"@))
            .and(Verdict::optional::<PowerplayState>(json, "PowerplayState"@))
    }

    open spec fn agrees(&self, json: Json) -> bool {
        &&& json.gives("SystemAddress"@, &self.address)
        &&& json.gives("StarPos"@, &self.pos)
        &&& json.gives("StarSystem"@, &self.name)
        &&& json.zero_is_none_at("Population"@) == Ok::<Option<u64>, DecodeError>(self.population)
        &&& json.null_is_none_at::<Security>("SystemSecurity"@) == Ok::<Option<Security>, DecodeError>(self.security)
        &&& json.null_is_none_at::<Government>("SystemGovernment"@) == Ok::<Option<Government>, DecodeError>(self.government)
        &&& json.null_is_none_at::<Allegiance>("SystemAllegiance"@) == Ok::<Option<Allegiance>, DecodeError>(self.allegiance)
        &&& json.null_is_none_at::<Economy>("SystemEconomy"@) == Ok::<Option<Economy>, DecodeError>(self.economy)
        &&& json.null_is_none_at::<Economy>("SystemSecondEconomy"@) == Ok::<Option<Economy>, DecodeError>(self.second_economy)
        &&& json.gives("SystemFaction"@, &self.controlling_faction)
        &&& json.gives_list("Factions"@, &self.factions)
        &&& json.gives_list("Conflicts"@, &self.conflicts)
        &&& json.gives("Powers"@, &self.powers)
        &&& json.gives("PowerplayState"@, &self.powerplay_state)
    }

    fn decode(json: &Json) -> (r: Result<System, DecodeError>) {
        object(json)?;
        let address = required::<i64>(json, "SystemAddress")?;
        let pos = optional::<Coordinate>(json, "StarPos")?;
        let name = required::<String>(json, "StarSystem")?;
        let population = zero_is_none_at(json, "Population")?;
        let security = null_is_none_at::<Security>(json, "SystemSecurity")?;
        let government = null_is_none_at::<Government>(json, "SystemGovernment")?;
        let allegiance = null_is_none_at::<Allegiance>(json, "SystemAllegiance")?;
        let economy = null_is_none_at::<Economy>(json, "SystemEconomy")?;
        let second_economy = null_is_none_at::<Economy>(json, "SystemSecondEconomy")?;
        let controlling_faction = optional::<Faction>(json, "SystemFaction")?;
        let factions = listed::<FactionInfo>(json, "Factions")?;
        let conflicts = listed::<FactionConflict>(json, "Conflicts")?;
        let powers = optional::<Vec<String>>(json, "Powers")?;
        let powerplay_state = optional::<PowerplayState>(json, "PowerplayState")?;
        Ok(System {
            address,
            pos,
            name,
            population,
            security,
            government,
            allegiance,
            economy,
            second_economy,
            controlling_faction,
            factions,
            conflicts,
            powers,
            powerplay_state,
        })
    }
}

impl System {
    /// A system of which only the address and the name are known.
    pub fn new(address: i64, name: &str) -> (r: System)
        ensures
            r.address == address,
            r.name@ == name@,
            r.pos is None,
            r.population is None,
            r.security is None,
            r.government is None,
            r.allegiance is None,
            r.economy is None,
            r.second_economy is None,
            r.controlling_faction is None,
            r.factions@.len() == 0,
            r.conflicts@.len() == 0,
            r.powers is None,
            r.powerplay_state is None,
    {
        System {
            address,
            name: name.to_owned(),
            pos: None,
            population: None,
            security: None,
            government: None,
            allegiance: None,
            economy: None,
            second_economy: None,
            controlling_faction: None,
            factions: Vec::new(),
            conflicts: Vec::new(),
            powers: None,
            powerplay_state: None,
        }
    }
}

/// How well a system is policed
///
/// `Anarchy` is a level like the others: the lowest, and a value in its own
/// right. Only `Unspecified` stands for no value.
#[derive(Clone, Copy, Debug)]
pub enum Security {
    High,
    Medium,
    Low,
    Anarchy,
    /// Written `None` or as the empty string.
    Unspecified,
}

/// Every spelling of a [`Security`] that the journal has used, each beside its variant,
/// in alphabetical order.
pub const SECURITY_SPELLINGS: [(&'static str, Security); 14] = [
    ("", Security::Unspecified),
    ("$GAlAXY_MAP_INFO_state_anarchy;", Security::Anarchy),
    ("$GAlAXY_MAP_INFO_state_high;", Security::High),
    ("$GAlAXY_MAP_INFO_state_low;", Security::Low),
    ("$GAlAXY_MAP_INFO_state_medium;", Security::Medium),
    ("$SYSTEM_SECURITY_anarchy;", Security::Anarchy),
    ("$SYSTEM_SECURITY_high;", Security::High),
    ("$SYSTEM_SECURITY_low;", Security::Low),
    ("$SYSTEM_SECURITY_medium;", Security::Medium),
    ("Anarchy", Security::Anarchy),
    ("High", Security::High),
    ("Low", Security::Low),
    ("Medium", Security::Medium),
    ("None", Security::Unspecified),
];

impl Enumeration for Security {
    open spec fn table() -> Seq<(&'static str, Security)> {
        SECURITY_SPELLINGS@
    }

    fn spellings() -> (r: &'static [(&'static str, Security)]) {
        vstd::array::array_as_slice(&SECURITY_SPELLINGS)
    }

    proof fn spellings_ascend() {
        reveal_with_fuel(crate::alias::precedes, 33);
        reveal_with_fuel(crate::alias::ascending_from, 10);
        reveal_strlit("");
        reveal_strlit("$GAlAXY_MAP_INFO_state_anarchy;");
        reveal_strlit("$GAlAXY_MAP_INFO_state_high;");
        reveal_strlit("$GAlAXY_MAP_INFO_state_low;");
        reveal_strlit("$GAlAXY_MAP_INFO_state_medium;");
        reveal_strlit("$SYSTEM_SECURITY_anarchy;");
        reveal_strlit("$SYSTEM_SECURITY_high;");
        reveal_strlit("$SYSTEM_SECURITY_low;");
        reveal_strlit("$SYSTEM_SECURITY_medium;");
        reveal_strlit("Anarchy");
        reveal_strlit("High");
        reveal_strlit("Low");
        reveal_strlit("Medium");
        reveal_strlit("None");
        assert(crate::alias::ascending_from(SECURITY_SPELLINGS@, 8));
        assert(crate::alias::ascending_from(SECURITY_SPELLINGS@, 0));
    }
}

impl Decode for Security {
    open spec fn verdict(json: Json) -> Verdict {
        Verdict::of(crate::alias::named::<Security>(json))
    }

    open spec fn agrees(&self, json: Json) -> bool {
        crate::alias::named::<Security>(json) == Ok::<Security, DecodeError>(*self)
    }

    fn decode(json: &Json) -> (r: Result<Security, DecodeError>) {
        decode_name::<Security>(json)
    }
}

impl Nullable for Security {
    open spec fn absent(&self) -> bool {
        *self is Unspecified
    }

    fn is_null(&self) -> (r: bool) {
        match self {
            Security::Unspecified => true,
            _ => false,
        }
    }
}

/// Equality of two decoded values. `Unspecified` carries nothing to compare, so it
/// is equal to nothing, itself included: this `==` is not reflexive, and a
/// set or a map keyed by this type must not rely on it.
impl PartialEq for Security {
    fn eq(&self, other: &Security) -> (r: bool) {
        match (*self, *other) {
            (Security::High, Security::High) => true,
            (Security::Medium, Security::Medium) => true,
            (Security::Low, Security::Low) => true,
            (Security::Anarchy, Security::Anarchy) => true,
            _ => false,
        }
    }
}

impl vstd::std_specs::cmp::PartialEqSpecImpl for Security {
    open spec fn obeys_eq_spec() -> bool {
        true
    }

    open spec fn eq_spec(&self, other: &Security) -> bool {
        *self == *other && *self !is Unspecified
    }
}

/// The order of the variants, best first. `Unspecified` is neither above nor below
/// anything.
impl PartialOrd for Security {
    fn partial_cmp(&self, other: &Security) -> (r: Option<Ordering>) {
        let a = self.rank_of();
        let b = other.rank_of();
        if a == 0 || b == 0 {
            None
        } else if a < b {
            Some(Ordering::Less)
        } else if a == b {
            Some(Ordering::Equal)
        } else {
            Some(Ordering::Greater)
        }
    }
}

impl vstd::std_specs::cmp::PartialOrdSpecImpl for Security {
    open spec fn obeys_partial_cmp_spec() -> bool {
        true
    }

    open spec fn partial_cmp_spec(&self, other: &Security) -> Option<Ordering> {
        if *self is Unspecified || *other is Unspecified {
            None
        } else if self.rank() < other.rank() {
            Some(Ordering::Less)
        } else if self.rank() == other.rank() {
            Some(Ordering::Equal)
        } else {
            Some(Ordering::Greater)
        }
    }
}

impl Security {
    /// The place of a variant in the order: the first listed ranks highest, and
    /// `Unspecified`, which has no place, counts as zero.
    pub open spec fn rank(self) -> int {
        match self {
            Security::High => 4,
            Security::Medium => 3,
            Security::Low => 2,
            Security::Anarchy => 1,
            Security::Unspecified => 0,
        }
    }

    fn rank_of(self) -> (r: u8)
        ensures
            r == self.rank(),
    {
        match self {
            Security::High => 4,
            Security::Medium => 3,
            Security::Low => 2,
            Security::Anarchy => 1,
            Security::Unspecified => 0,
        }
    }

    /// The canonical name of a variant.
    pub open spec fn canonical(self) -> Seq<char> {
        match self {
            Security::High => "High"@,
            Security::Medium => "Medium"@,
            Security::Low => "Low"@,
            Security::Anarchy => "Anarchy"@,
            Security::Unspecified => "None"@,
        }
    }

    /// The canonical name of a variant, which decodes back to the variant.
    pub fn name(&self) -> (r: &'static str)
        ensures
            r@ == self.canonical(),
            crate::alias::spelled::<Security>(r@) == Some(*self),
    {
        match self {
            Security::High => {
                proof {
                    crate::alias::lemma_listed_spelling::<Security>(10);
                }
                "High"
            },
            Security::Medium => {
                proof {
                    crate::alias::lemma_listed_spelling::<Security>(12);
                }
                "Medium"
            },
            Security::Low => {
                proof {
                    crate::alias::lemma_listed_spelling::<Security>(11);
                }
                "Low"
            },
            Security::Anarchy => {
                proof {
                    crate::alias::lemma_listed_spelling::<Security>(9);
                }
                "Anarchy"
            },
            Security::Unspecified => {
                proof {
                    crate::alias::lemma_listed_spelling::<Security>(13);
                }
                "None"
            },
        }
    }

    /// Every spelling listed for `Unspecified` decodes to it; the value reports
    /// itself null, and it alone does; it is not equal to itself, however
    /// often it is decoded.
    pub proof fn lemma_unspecified(i: int)
        requires
            0 <= i < SECURITY_SPELLINGS@.len(),
            SECURITY_SPELLINGS@[i].1 == Security::Unspecified,
        ensures
            crate::alias::spelled::<Security>(SECURITY_SPELLINGS@[i].0@) == Some(Security::Unspecified),
            Security::Unspecified.absent(),
            forall|v: Security| v.absent() <==> v is Unspecified,
            !Security::Unspecified.eq_spec(&Security::Unspecified),
    {
        crate::alias::lemma_listed_spelling::<Security>(i);
    }
}

/// What hold a power has on a system
#[derive(Clone, Copy, Debug, PartialEq, Eq, Structural)]
pub enum PowerplayState {
    InPrepareRadius,
    Prepared,
    Exploited,
    Contested,
    Controlled,
    Turmoil,
    HomeSystem,
}

/// Every spelling of a [`PowerplayState`] that the journal has used, each beside its variant,
/// in alphabetical order.
pub const POWERPLAY_STATE_SPELLINGS: [(&'static str, PowerplayState); 7] = [
    ("Contested", PowerplayState::Contested),
    ("Controlled", PowerplayState::Controlled),
    ("Exploited", PowerplayState::Exploited),
    ("HomeSystem", PowerplayState::HomeSystem),
    ("InPrepareRadius", PowerplayState::InPrepareRadius),
    ("Prepared", PowerplayState::Prepared),
    ("Turmoil", PowerplayState::Turmoil),
];

impl Enumeration for PowerplayState {
    open spec fn table() -> Seq<(&'static str, PowerplayState)> {
        POWERPLAY_STATE_SPELLINGS@
    }

    fn spellings() -> (r: &'static [(&'static str, PowerplayState)]) {
        vstd::array::array_as_slice(&POWERPLAY_STATE_SPELLINGS)
    }

    proof fn spellings_ascend() {
        reveal_with_fuel(crate::alias::precedes, 17);
        reveal_with_fuel(crate::alias::ascending_from, 9);
        reveal_strlit("Contested");
        reveal_strlit("Controlled");
        reveal_strlit("Exploited");
        reveal_strlit("HomeSystem");
        reveal_strlit("InPrepareRadius");
        reveal_strlit("Prepared");
        reveal_strlit("Turmoil");
        assert(crate::alias::ascending_from(POWERPLAY_STATE_SPELLINGS@, 0));
    }
}

impl Decode for PowerplayState {
    open spec fn verdict(json: Json) -> Verdict {
        Verdict::of(crate::alias::named::<PowerplayState>(json))
    }

    open spec fn agrees(&self, json: Json) -> bool {
        crate::alias::named::<PowerplayState>(json) == Ok::<PowerplayState, DecodeError>(*self)
    }

    fn decode(json: &Json) -> (r: Result<PowerplayState, DecodeError>) {
        decode_name::<PowerplayState>(json)
    }
}

/// What a system or a station lives on
#[derive(Clone, Copy, Debug)]
pub enum Economy {
    Agriculture,
    Colony,
    Extraction,
    HighTech,
    Industrial,
    Military,
    Refinery,
    Service,
    Terraforming,
    Tourism,
    Carrier,
    Prison,
    Undefined,
    /// Written `None`, `$economy_None;` or as the empty string.
    Unspecified,
}

/// Every spelling of a [`Economy`] that the journal has used, each beside its variant,
/// in alphabetical order.
pub const ECONOMY_SPELLINGS: [(&'static str, Economy); 30] = [
    ("", Economy::Unspecified),
    ("$economy_Agri;", Economy::Agriculture),
    ("$economy_Carrier;", Economy::Carrier),
    ("$economy_Colony;", Economy::Colony),
    ("$economy_Extraction;", Economy::Extraction),
    ("$economy_HighTech;", Economy::HighTech),
    ("$economy_Industrial;", Economy::Industrial),
    ("$economy_Military;", Economy::Military),
    ("$economy_None;", Economy::Unspecified),
    ("$economy_Prison;", Economy::Prison),
    ("$economy_Refinery;", Economy::Refinery),
    ("$economy_Service;", Economy::Service),
    ("$economy_Terraforming;", Economy::Terraforming),
    ("$economy_Tourism;", Economy::Tourism),
    ("$economy_Undefined;", Economy::Undefined),
    ("Agriculture", Economy::Agriculture),
    ("Carrier", Economy::Carrier),
    ("Colony", Economy::Colony),
    ("Extraction", Economy::Extraction),
    ("High Tech", Economy::HighTech),
    ("HighTech", Economy::HighTech),
    ("Industrial", Economy::Industrial),
    ("Military", Economy::Military),
    ("None", Economy::Unspecified),
    ("Prison", Economy::Prison),
    ("Refinery", Economy::Refinery),
    ("Service", Economy::Service),
    ("Terraforming", Economy::Terraforming),
    ("Tourism", Economy::Tourism),
    ("Undefined", Economy::Undefined),
];

impl Enumeration for Economy {
    open spec fn table() -> Seq<(&'static str, Economy)> {
        ECONOMY_SPELLINGS@
    }

    fn spellings() -> (r: &'static [(&'static str, Economy)]) {
        vstd::array::array_as_slice(&ECONOMY_SPELLINGS)
    }

    proof fn spellings_ascend() {
        reveal_with_fuel(crate::alias::precedes, 24);
        reveal_with_fuel(crate::alias::ascending_from, 10);
        reveal_strlit("");
        reveal_strlit("$economy_Agri;");
        reveal_strlit("$economy_Carrier;");
        reveal_strlit("$economy_Colony;");
        reveal_strlit("$economy_Extraction;");
        reveal_strlit("$economy_HighTech;");
        reveal_strlit("$economy_Industrial;");
        reveal_strlit("$economy_Military;");
        reveal_strlit("$economy_None;");
        reveal_strlit("$economy_Prison;");
        reveal_strlit("$economy_Refinery;");
        reveal_strlit("$economy_Service;");
        reveal_strlit("$economy_Terraforming;");
        reveal_strlit("$economy_Tourism;");
        reveal_strlit("$economy_Undefined;");
        reveal_strlit("Agriculture");
        reveal_strlit("Carrier");
        reveal_strlit("Colony");
        reveal_strlit("Extraction");
        reveal_strlit("High Tech");
        reveal_strlit("HighTech");
        reveal_strlit("Industrial");
        reveal_strlit("Military");
        reveal_strlit("None");
        reveal_strlit("Prison");
        reveal_strlit("Refinery");
        reveal_strlit("Service");
        reveal_strlit("Terraforming");
        reveal_strlit("Tourism");
        reveal_strlit("Undefined");
        assert(crate::alias::ascending_from(ECONOMY_SPELLINGS@, 24));
        assert(crate::alias::ascending_from(ECONOMY_SPELLINGS@, 16));
        assert(crate::alias::ascending_from(ECONOMY_SPELLINGS@, 8));
        assert(crate::alias::ascending_from(ECONOMY_SPELLINGS@, 0));
    }
}

impl Decode for Economy {
    open spec fn verdict(json: Json) -> Verdict {
        Verdict::of(crate::alias::named::<Economy>(json))
    }

    open spec fn agrees(&self, json: Json) -> bool {
        crate::alias::named::<Economy>(json) == Ok::<Economy, DecodeError>(*self)
    }

    fn decode(json: &Json) -> (r: Result<Economy, DecodeError>) {
        decode_name::<Economy>(json)
    }
}

impl Nullable for Economy {
    open spec fn absent(&self) -> bool {
        *self is Unspecified
    }

    fn is_null(&self) -> (r: bool) {
        match self {
            Economy::Unspecified => true,
            _ => false,
        }
    }
}

/// Equality of two decoded values. `Unspecified` carries nothing to compare, so it
/// is equal to nothing, itself included: this `==` is not reflexive, and a
/// set or a map keyed by this type must not rely on it.
impl PartialEq for Economy {
    fn eq(&self, other: &Economy) -> (r: bool) {
        match (*self, *other) {
            (Economy::Agriculture, Economy::Agriculture) => true,
            (Economy::Colony, Economy::Colony) => true,
            (Economy::Extraction, Economy::Extraction) => true,
            (Economy::HighTech, Economy::HighTech) => true,
            (Economy::Industrial, Economy::Industrial) => true,
            (Economy::Military, Economy::Military) => true,
            (Economy::Refinery, Economy::Refinery) => true,
            (Economy::Service, Economy::Service) => true,
            (Economy::Terraforming, Economy::Terraforming) => true,
            (Economy::Tourism, Economy::Tourism) => true,
            (Economy::Carrier, Economy::Carrier) => true,
            (Economy::Prison, Economy::Prison) => true,
            (Economy::Undefined, Economy::Undefined) => true,
            _ => false,
        }
    }
}

impl vstd::std_specs::cmp::PartialEqSpecImpl for Economy {
    open spec fn obeys_eq_spec() -> bool {
        true
    }

    open spec fn eq_spec(&self, other: &Economy) -> bool {
        *self == *other && *self !is Unspecified
    }
}

impl Economy {
    /// The canonical name of a variant.
    pub open spec fn canonical(self) -> Seq<char> {
        match self {
            Economy::Agriculture => "Agriculture"@,
            Economy::Colony => "Colony"@,
            Economy::Extraction => "Extraction"@,
            Economy::HighTech => "HighTech"@,
            Economy::Industrial => "Industrial"@,
            Economy::Military => "Military"@,
            Economy::Refinery => "Refinery"@,
            Economy::Service => "Service"@,
            Economy::Terraforming => "Terraforming"@,
            Economy::Tourism => "Tourism"@,
            Economy::Carrier => "Carrier"@,
            Economy::Prison => "Prison"@,
            Economy::Undefined => "Undefined"@,
            Economy::Unspecified => "None"@,
        }
    }

    /// The canonical name of a variant, which decodes back to the variant.
    pub fn name(&self) -> (r: &'static str)
        ensures
            r@ == self.canonical(),
            crate::alias::spelled::<Economy>(r@) == Some(*self),
    {
        match self {
            Economy::Agriculture => {
                proof {
                    crate::alias::lemma_listed_spelling::<Economy>(15);
                }
                "Agriculture"
            },
            Economy::Colony => {
                proof {
                    crate::alias::lemma_listed_spelling::<Economy>(17);
                }
                "Colony"
            },
            Economy::Extraction => {
                proof {
                    crate::alias::lemma_listed_spelling::<Economy>(18);
                }
                "Extraction"
            },
            Economy::HighTech => {
                proof {
                    crate::alias::lemma_listed_spelling::<Economy>(20);
                }
                "HighTech"
            },
            Economy::Industrial => {
                proof {
                    crate::alias::lemma_listed_spelling::<Economy>(21);
                }
                "Industrial"
            },
            Economy::Military => {
                proof {
                    crate::alias::lemma_listed_spelling::<Economy>(22);
                }
                "Military"
            },
            Economy::Refinery => {
                proof {
                    crate::alias::lemma_listed_spelling::<Economy>(25);
                }
                "Refinery"
            },
            Economy::Service => {
                proof {
                    crate::alias::lemma_listed_spelling::<Economy>(26);
                }
                "Service"
            },
            Economy::Terraforming => {
                proof {
                    crate::alias::lemma_listed_spelling::<Economy>(27);
                }
                "Terraforming"
            },
            Economy::Tourism => {
                proof {
                    crate::alias::lemma_listed_spelling::<Economy>(28);
                }
                "Tourism"
            },
            Economy::Carrier => {
                proof {
                    crate::alias::lemma_listed_spelling::<Economy>(16);
                }
                "Carrier"
            },
            Economy::Prison => {
                proof {
                    crate::alias::lemma_listed_spelling::<Economy>(24);
                }
                "Prison"
            },
            Economy::Undefined => {
                proof {
                    crate::alias::lemma_listed_spelling::<Economy>(29);
                }
                "Undefined"
            },
            Economy::Unspecified => {
                proof {
                    crate::alias::lemma_listed_spelling::<Economy>(23);
                }
                "None"
            },
        }
    }

    /// Every spelling listed for `Unspecified` decodes to it; the value reports
    /// itself null, and it alone does; it is not equal to itself, however
    /// often it is decoded.
    pub proof fn lemma_unspecified(i: int)
        requires
            0 <= i < ECONOMY_SPELLINGS@.len(),
            ECONOMY_SPELLINGS@[i].1 == Economy::Unspecified,
        ensures
            crate::alias::spelled::<Economy>(ECONOMY_SPELLINGS@[i].0@) == Some(Economy::Unspecified),
            Economy::Unspecified.absent(),
            forall|v: Economy| v.absent() <==> v is Unspecified,
            !Economy::Unspecified.eq_spec(&Economy::Unspecified),
    {
        crate::alias::lemma_listed_spelling::<Economy>(i);
    }
}

/// A position in the galaxy, in light years along three axes
///
/// The journal writes a position as `[x, y, z]`. The form of a point with a
/// `type` and its `coordinates` is read as well.
#[derive(Clone, Copy, Debug, PartialEq, Eq, Structural)]
pub struct Coordinate {
    pub x: Number,
    pub y: Number,
    pub z: Number,
}

impl Coordinate {
    /// Where the three numbers stand: under `coordinates` in an object, else
    /// in the document itself.
    pub open spec fn axes(json: Json) -> Json {
        if json is Object {
            json.field_or_null("coordinates"@)
        } else {
            json
        }
    }

    /// The verdict on the list of the three numbers.
    pub open spec fn axes_verdict(axes: Json) -> Verdict {
        match axes {
            Json::Array(items) => if items@.len() == 3 {
                Number::verdict(items@[0]).and(Number::verdict(items@[1])).and(
                    Number::verdict(items@[2]),
                )
            } else {
                Verdict::Refused(DecodeError::Structure)
            },
            _ => Verdict::Refused(DecodeError::Structure),
        }
    }

    fn decode_axes(axes: &Json) -> (r: Result<Coordinate, DecodeError>)
        ensures
            match r {
                Ok(c) => Self::axes_verdict(*axes) is Accepted && c.holds(*axes),
                Err(e) => Self::axes_verdict(*axes) == Verdict::Refused(e),
            },
    {
        match axes {
            Json::Array(items) => {
                if items.len() != 3 {
                    return Err(DecodeError::Structure);
                }
                let x = Number::decode(&items[0])?;
                let y = Number::decode(&items[1])?;
                let z = Number::decode(&items[2])?;
                Ok(Coordinate { x, y, z })
            },
            _ => Err(DecodeError::Structure),
        }
    }

    /// Whether the three numbers of `axes` are those of `self`.
    pub open spec fn holds(&self, axes: Json) -> bool {
        &&& axes matches Json::Array(items)
        &&& items@.len() == 3
        &&& self.x.agrees(items@[0])
        &&& self.y.agrees(items@[1])
        &&& self.z.agrees(items@[2])
    }
}

impl Decode for Coordinate {
    open spec fn verdict(json: Json) -> Verdict {
        if json is Object {
            Verdict::required::<String>(json, "type"@).and(Self::axes_verdict(Self::axes(json)))
        } else {
            Self::axes_verdict(json)
        }
    }

    open spec fn agrees(&self, json: Json) -> bool {
        self.holds(Self::axes(json))
    }

    fn decode(json: &Json) -> (r: Result<Coordinate, DecodeError>) {
        if json.is_object() {
            let _ = required::<String>(json, "type")?;
            match json.get("coordinates") {
                Some(axes) => Self::decode_axes(axes),
                None => Err(DecodeError::Structure),
            }
        } else {
            Self::decode_axes(json)
        }
    }
}

/// A star, as a scan describes it
#[derive(Debug)]
pub struct Star {
    pub name: String,
    pub id: i16,
    pub parents: Vec<ParentMap>,
    pub absolute_magnitude: Number,
    pub age_my: i32,
    pub distance_from_arrival_ls: Number,
    pub luminosity: String,
    pub star_type: String,
    pub stellar_mass: Number,
    pub subclass: i16,
    pub ascending_node: Number,
    pub axial_tilt: Number,
    pub eccentricity: Number,
    pub mean_anomaly: Number,
    pub orbital_inclination: Number,
    pub orbital_period: Number,
    pub periapsis: Number,
    pub radius: Number,
    pub rotation_period: Number,
    pub semi_major_axis: Number,
    pub surface_temperature: Number,
    pub was_discovered: bool,
    pub was_mapped: bool,
}

impl Decode for Star {
    open spec fn verdict(json: Json) -> Verdict {
        Verdict::object(json)
            .and(Verdict::required::<String>(json, "BodyName"@))
            .and(Verdict::required::<i16>(json, "BodyID"@))
            .and(Verdict::required::<Vec<ParentMap>>(json, "Parents"@))
            .and(Verdict::required::<Number>(json, "AbsoluteMagnitude"@))
            .and(Verdict::required::<i32>(json, "Age_MY"@))
            .and(Verdict::required::<Number>(json, "DistanceFromArrivalLS"@))
            .and(Verdict::required::<String>(json, "Luminosity"@))
            .and(Verdict::required::<String>(json, "StarType"@))
            .and(Verdict::required::<Number>(json, "StellarMass"@))
            .and(Verdict::required::<i16>(json, "Subclass"@))
            .and(Verdict::required::<Number>(json, "AscendingNode"@))
            .and(Verdict::required::<Number>(json, "AxialTilt"@))
            .and(Verdict::required::<Number>(json, "Eccentricity"@))
            .and(Verdict::required::<Number>(json, "MeanAnomaly"@))
            .and(Verdict::required::<Number>(json, "OrbitalInclination"@))
            .and(Verdict::required::<Number>(json, "OrbitalPeriod"@))
            .and(Verdict::required::<Number>(json, "Periapsis"@))
            .and(Verdict::required::<Number>(json, "Radius"@))
            .and(Verdict::required::<Number>(json, "RotationPeriod"@))
            .and(Verdict::required::<Number>(json, "SemiMajorAxis"@))
            .and(Verdict::required::<Number>(json, "SurfaceTemperature"@))
            .and(Verdict::required::<bool>(json, "WasDiscovered"@))
            .and(Verdict::required::<bool>(json, "WasMapped"@))
    }

    open spec fn agrees(&self, json: Json) -> bool {
        &&& json.gives("BodyName"@, &self.name)
        &&& json.gives("BodyID"@, &self.id)
        &&& json.gives("Parents"@, &self.parents)
        &&& json.gives("AbsoluteMagnitude"@, &self.absolute_magnitude)
        &&& json.gives("Age_MY"@, &self.age_my)
        &&& json.gives("DistanceFromArrivalLS"@, &self.distance_from_arrival_ls)
        &&& json.gives("Luminosity"@, &self.luminosity)
        &&& json.gives("StarType"@, &self.star_type)
        &&& json.gives("StellarMass"@, &self.stellar_mass)
        &&& json.gives("Subclass"@, &self.subclass)
        &&& json.gives("AscendingNode"@, &self.ascending_node)
        &&& json.gives("AxialTilt"@, &self.axial_tilt)
        &&& json.gives("Eccentricity"@, &self.eccentricity)
        &&& json.gives("MeanAnomaly"@, &self.mean_anomaly)
        &&& json.gives("OrbitalInclination"@, &self.orbital_inclination)
        &&& json.gives("OrbitalPeriod"@, &self.orbital_period)
        &&& json.gives("Periapsis"@, &self.periapsis)
        &&& json.gives("Radius"@, &self.radius)
        &&& json.gives("RotationPeriod"@, &self.rotation_period)
        &&& json.gives("SemiMajorAxis"@, &self.semi_major_axis)
        &&& json.gives("SurfaceTemperature"@, &self.surface_temperature)
        &&& json.gives("WasDiscovered"@, &self.was_discovered)
        &&& json.gives("WasMapped"@, &self.was_mapped)
    }

    fn decode(json: &Json) -> (r: Result<Star, DecodeError>) {
        object(json)?;
        let name = required::<String>(json, "BodyName")?;
        let id = required::<i16>(json, "BodyID")?;
        let parents = required::<Vec<ParentMap>>(json, "Parents")?;
        let absolute_magnitude = required::<Number>(json, "AbsoluteMagnitude")?;
        let age_my = required::<i32>(json, "Age_MY")?;
        let distance_from_arrival_ls = required::<Number>(json, "DistanceFromArrivalLS")?;
        let luminosity = required::<String>(json, "Luminosity")?;
        let star_type = required::<String>(json, "StarType")?;
        let stellar_mass = required::<Number>(json, "StellarMass")?;
        let subclass = required::<i16>(json, "Subclass")?;
        let ascending_node = required::<Number>(json, "AscendingNode")?;
        let axial_tilt = required::<Number>(json, "AxialTilt")?;
        let eccentricity = required::<Number>(json, "Eccentricity")?;
        let mean_anomaly = required::<Number>(json, "MeanAnomaly")?;
        let orbital_inclination = required::<Number>(json, "OrbitalInclination")?;
        let orbital_period = required::<Number>(json, "OrbitalPeriod")?;
        let periapsis = required::<Number>(json, "Periapsis")?;
        let radius = required::<Number>(json, "Radius")?;
        let rotation_period = required::<Number>(json, "RotationPeriod")?;
        let semi_major_axis = required::<Number>(json, "SemiMajorAxis")?;
        let surface_temperature = required::<Number>(json, "SurfaceTemperature")?;
        let was_discovered = required::<bool>(json, "WasDiscovered")?;
        let was_mapped = required::<bool>(json, "WasMapped")?;
        Ok(Star {
            name,
            id,
            parents,
            absolute_magnitude,
            age_my,
            distance_from_arrival_ls,
            luminosity,
            star_type,
            stellar_mass,
            subclass,
            ascending_node,
            axial_tilt,
            eccentricity,
            mean_anomaly,
            orbital_inclination,
            orbital_period,
            periapsis,
            radius,
            rotation_period,
            semi_major_axis,
            surface_temperature,
            was_discovered,
            was_mapped,
        })
    }
}

impl Part for Star {
    open spec fn present(json: Json) -> bool {
        &&& json.has("BodyName"@)
        &&& json.has("BodyID"@)
        &&& json.has("Parents"@)
        &&& json.has("AbsoluteMagnitude"@)
        &&& json.has("Age_MY"@)
        &&& json.has("DistanceFromArrivalLS"@)
        &&& json.has("Luminosity"@)
        &&& json.has("StarType"@)
        &&& json.has("StellarMass"@)
        &&& json.has("Subclass"@)
        &&& json.has("AscendingNode"@)
        &&& json.has("AxialTilt"@)
        &&& json.has("Eccentricity"@)
        &&& json.has("MeanAnomaly"@)
        &&& json.has("OrbitalInclination"@)
        &&& json.has("OrbitalPeriod"@)
        &&& json.has("Periapsis"@)
        &&& json.has("Radius"@)
        &&& json.has("RotationPeriod"@)
        &&& json.has("SemiMajorAxis"@)
        &&& json.has("SurfaceTemperature"@)
        &&& json.has("WasDiscovered"@)
        &&& json.has("WasMapped"@)
    }

    fn is_present(json: &Json) -> (r: bool) {
        has(json, "BodyName")
            && has(json, "BodyID")
            && has(json, "Parents")
            && has(json, "AbsoluteMagnitude")
            && has(json, "Age_MY")
            && has(json, "DistanceFromArrivalLS")
            && has(json, "Luminosity")
            && has(json, "StarType")
            && has(json, "StellarMass")
            && has(json, "Subclass")
            && has(json, "AscendingNode")
            && has(json, "AxialTilt")
            && has(json, "Eccentricity")
            && has(json, "MeanAnomaly")
            && has(json, "OrbitalInclination")
            && has(json, "OrbitalPeriod")
            && has(json, "Periapsis")
            && has(json, "Radius")
            && has(json, "RotationPeriod")
            && has(json, "SemiMajorAxis")
            && has(json, "SurfaceTemperature")
            && has(json, "WasDiscovered")
            && has(json, "WasMapped")
    }
}

} // verus!
