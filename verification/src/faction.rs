use core::cmp::Ordering;
use vstd::prelude::*;
use vstd::std_specs::cmp::PartialEqSpec;
use crate::alias::{decode_name, Enumeration};
use crate::de::{
    Decode, DecodeError, flag, listed, null_is_none_at, Nullable, object, optional, required,
    Verdict, zero_is_none_at,
};
use crate::json::{Json, Number};
use crate::{Allegiance, Government};

verus! {

/// A faction, as it is named where it holds a station or a system
#[derive(Debug)]
pub struct Faction {
    pub name: String,
    pub state: Option<State>,
}

impl Decode for Faction {
    open spec fn verdict(json: Json) -> Verdict {
        Verdict::object(json)
            .and(Verdict::required::<String>(json, "Name"@))
            .and(Verdict::of(json.null_is_none_at::<State>("FactionState"@)))
    }

    open spec fn agrees(&self, json: Json) -> bool {
        &&& json.gives("Name"@, &self.name)
        &&& json.null_is_none_at::<State>("FactionState"@) == Ok::<Option<State>, DecodeError>(self.state)
    }

    fn decode(json: &Json) -> (r: Result<Faction, DecodeError>) {
        object(json)?;
        let name = required::<String>(json, "Name")?;
        let state = null_is_none_at::<State>(json, "FactionState")?;
        Ok(Faction { name, state })
    }
}

/// A faction as one of those present in a system
#[derive(Debug)]
pub struct FactionInfo {
    pub name: String,
    pub state: Option<State>,
    pub government: Government,
    pub influence: Number,
    pub allegiance: Allegiance,
    pub happiness: Option<Happiness>,
    pub pending_states: Vec<StateTrend>,
    pub active_states: Vec<StateTrend>,
    pub recovering_states: Vec<StateTrend>,
    pub reputation: Option<Number>,
    pub squadron_faction: bool,
    pub home_system: bool,
    pub happiest_system: bool,
}

impl Decode for FactionInfo {
    open spec fn verdict(json: Json) -> Verdict {
        Verdict::object(json)
            .and(Verdict::required::<String>(json, "Name"@))
            .and(Verdict::of(json.null_is_none_at::<State>("FactionState"@)))
            .and(Verdict::required::<Government>(json, "Government"@))
            .and(Verdict::required::<Number>(json, "Influence"@))
            .and(Verdict::required::<Allegiance>(json, "Allegiance"@))
            .and(Verdict::of(json.null_is_none_at::<Happiness>("Happiness"@)))
            .and(Verdict::listed::<StateTrend>(json, "PendingStates"@))
            .and(Verdict::listed::<StateTrend>(json, "ActiveStates"@))
            .and(Verdict::listed::<StateTrend>(json, "RecoveringStates"@))
            .and(Verdict::optional::<Number>(json, "MyReputation"@))
            .and(Verdict::flag(json, "SquadronFaction"@))
            .and(Verdict::flag(json, "HomeSystem"@))
            .and(Verdict::flag(json, "HappiestSystem"@))
    }

    open spec fn agrees(&self, json: Json) -> bool {
        &&& json.gives("Name"@, &self.name)
        &&& json.null_is_none_at::<State>("FactionState"@) == Ok::<Option<State>, DecodeError>(self.state)
        &&& json.gives("Government"@, &self.government)
        &&& json.gives("Influence"@, &self.influence)
        &&& json.gives("Allegiance"@, &self.allegiance)
        &&& json.null_is_none_at::<Happiness>("Happiness"@) == Ok::<Option<Happiness>, DecodeError>(self.happiness)
        &&& json.gives_list("PendingStates"@, &self.pending_states)
        &&& json.gives_list("ActiveStates"@, &self.active_states)
        &&& json.gives_list("RecoveringStates"@, &self.recovering_states)
        &&& json.gives("MyReputation"@, &self.reputation)
        &&& json.gives_flag("SquadronFaction"@, self.squadron_faction)
        &&& json.gives_flag("HomeSystem"@, self.home_system)
        &&& json.gives_flag("HappiestSystem"@, self.happiest_system)
    }

    fn decode(json: &Json) -> (r: Result<FactionInfo, DecodeError>) {
        object(json)?;
        let name = required::<String>(json, "Name")?;
        let state = null_is_none_at::<State>(json, "FactionState")?;
        let government = required::<Government>(json, "Government")?;
        let influence = required::<Number>(json, "Influence")?;
        let allegiance = required::<Allegiance>(json, "Allegiance")?;
        let happiness = null_is_none_at::<Happiness>(json, "Happiness")?;
        let pending_states = listed::<StateTrend>(json, "PendingStates")?;
        let active_states = listed::<StateTrend>(json, "ActiveStates")?;
        let recovering_states = listed::<StateTrend>(json, "RecoveringStates")?;
        let reputation = optional::<Number>(json, "MyReputation")?;
        let squadron_faction = flag(json, "SquadronFaction")?;
        let home_system = flag(json, "HomeSystem")?;
        let happiest_system = flag(json, "HappiestSystem")?;
        Ok(FactionInfo {
            name,
            state,
            government,
            influence,
            allegiance,
            happiness,
            pending_states,
            active_states,
            recovering_states,
            reputation,
            squadron_faction,
            home_system,
            happiest_system,
        })
    }
}

/// The state that a faction is in, which the background simulation moves
#[derive(Clone, Copy, Debug)]
pub enum State {
    Blight,
    Boom,
    Bust,
    CivilLiberty,
    CivilUnrest,
    CivilWar,
    ColdWar,
    Colonisation,
    Drought,
    Election,
    Expansion,
    Famine,
    HistoricEvent,
    InfrastructureFailure,
    Investment,
    Lockdown,
    NaturalDisaster,
    Outbreak,
    PirateAttack,
    PublicHoliday,
    Retreat,
    Revolution,
    TechnologicalLeap,
    Terrorism,
    TradeWar,
    War,
    /// Written `None` or as the empty string.
    Unspecified,
}

/// Every spelling of a [`State`] that the journal has used, each beside its variant,
/// in alphabetical order.
pub const STATE_SPELLINGS: [(&'static str, State); 52] = [
    ("", State::Unspecified),
    ("Blight", State::Blight),
    ("Boom", State::Boom),
    ("Bust", State::Bust),
    ("Civil Liberty", State::CivilLiberty),
    ("Civil Unrest", State::CivilUnrest),
    ("Civil War", State::CivilWar),
    ("Civil liberty", State::CivilLiberty),
    ("Civil unrest", State::CivilUnrest),
    ("Civil war", State::CivilWar),
    ("CivilLiberty", State::CivilLiberty),
    ("CivilUnrest", State::CivilUnrest),
    ("CivilWar", State::CivilWar),
    ("Cold War", State::ColdWar),
    ("Cold war", State::ColdWar),
    ("ColdWar", State::ColdWar),
    ("Colonisation", State::Colonisation),
    ("Drought", State::Drought),
    ("Election", State::Election),
    ("Expansion", State::Expansion),
    ("Famine", State::Famine),
    ("Historic Event", State::HistoricEvent),
    ("Historic event", State::HistoricEvent),
    ("HistoricEvent", State::HistoricEvent),
    ("Infrastructure Failure", State::InfrastructureFailure),
    ("Infrastructure failure", State::InfrastructureFailure),
    ("InfrastructureFailure", State::InfrastructureFailure),
    ("Investment", State::Investment),
    ("Lockdown", State::Lockdown),
    ("Natural Disaster", State::NaturalDisaster),
    ("Natural disaster", State::NaturalDisaster),
    ("NaturalDisaster", State::NaturalDisaster),
    ("None", State::Unspecified),
    ("Outbreak", State::Outbreak),
    ("Pirate Attack", State::PirateAttack),
    ("Pirate attack", State::PirateAttack),
    ("PirateAttack", State::PirateAttack),
    ("Public Holiday", State::PublicHoliday),
    ("Public holiday", State::PublicHoliday),
    ("PublicHoliday", State::PublicHoliday),
    ("Retreat", State::Retreat),
    ("Revolution", State::Revolution),
    ("Technological Leap", State::TechnologicalLeap),
    ("Technological leap", State::TechnologicalLeap),
    ("TechnologicalLeap", State::TechnologicalLeap),
    ("Terrorism", State::Terrorism),
    ("Terrorist Attack", State::Terrorism),
    ("Terrorist attack", State::Terrorism),
    ("Trade War", State::TradeWar),
    ("Trade war", State::TradeWar),
    ("TradeWar", State::TradeWar),
    ("War", State::War),
];

impl Enumeration for State {
    open spec fn table() -> Seq<(&'static str, State)> {
        STATE_SPELLINGS@
    }

    fn spellings() -> (r: &'static [(&'static str, State)]) {
        vstd::array::array_as_slice(&STATE_SPELLINGS)
    }

    proof fn spellings_ascend() {
        reveal_with_fuel(crate::alias::precedes, 24);
        reveal_with_fuel(crate::alias::ascending_from, 10);
        reveal_strlit("");
        reveal_strlit("Blight");
        reveal_strlit("Boom");
        reveal_strlit("Bust");
        reveal_strlit("Civil Liberty");
        reveal_strlit("Civil Unrest");
        reveal_strlit("Civil War");
        reveal_strlit("Civil liberty");
        reveal_strlit("Civil unrest");
        reveal_strlit("Civil war");
        reveal_strlit("CivilLiberty");
        reveal_strlit("CivilUnrest");
        reveal_strlit("CivilWar");
        reveal_strlit("Cold War");
        reveal_strlit("Cold war");
        reveal_strlit("ColdWar");
        reveal_strlit("Colonisation");
        reveal_strlit("Drought");
        reveal_strlit("Election");
        reveal_strlit("Expansion");
        reveal_strlit("Famine");
        reveal_strlit("Historic Event");
        reveal_strlit("Historic event");
        reveal_strlit("HistoricEvent");
        reveal_strlit("Infrastructure Failure");
        reveal_strlit("Infrastructure failure");
        reveal_strlit("InfrastructureFailure");
        reveal_strlit("Investment");
        reveal_strlit("Lockdown");
        reveal_strlit("Natural Disaster");
        reveal_strlit("Natural disaster");
        reveal_strlit("NaturalDisaster");
        reveal_strlit("None");
        reveal_strlit("Outbreak");
        reveal_strlit("Pirate Attack");
        reveal_strlit("Pirate attack");
        reveal_strlit("PirateAttack");
        reveal_strlit("Public Holiday");
        reveal_strlit("Public holiday");
        reveal_strlit("PublicHoliday");
        reveal_strlit("Retreat");
        reveal_strlit("Revolution");
        reveal_strlit("Technological Leap");
        reveal_strlit("Technological leap");
        reveal_strlit("TechnologicalLeap");
        reveal_strlit("Terrorism");
        reveal_strlit("Terrorist Attack");
        reveal_strlit("Terrorist attack");
        reveal_strlit("Trade War");
        reveal_strlit("Trade war");
        reveal_strlit("TradeWar");
        reveal_strlit("War");
        assert(crate::alias::ascending_from(STATE_SPELLINGS@, 48));
        assert(crate::alias::ascending_from(STATE_SPELLINGS@, 40));
        assert(crate::alias::ascending_from(STATE_SPELLINGS@, 32));
        assert(crate::alias::ascending_from(STATE_SPELLINGS@, 24));
        assert(crate::alias::ascending_from(STATE_SPELLINGS@, 16));
        assert(crate::alias::ascending_from(STATE_SPELLINGS@, 8));
        assert(crate::alias::ascending_from(STATE_SPELLINGS@, 0));
    }
}

impl Decode for State {
    open spec fn verdict(json: Json) -> Verdict {
        Verdict::of(crate::alias::named::<State>(json))
    }

    open spec fn agrees(&self, json: Json) -> bool {
        crate::alias::named::<State>(json) == Ok::<State, DecodeError>(*self)
    }

    fn decode(json: &Json) -> (r: Result<State, DecodeError>) {
        decode_name::<State>(json)
    }
}

impl Nullable for State {
    open spec fn absent(&self) -> bool {
        *self is Unspecified
    }

    fn is_null(&self) -> (r: bool) {
        match self {
            State::Unspecified => true,
            _ => false,
        }
    }
}

/// Equality of two decoded values. `Unspecified` carries nothing to compare, so it
/// is equal to nothing, itself included: this `==` is not reflexive, and a
/// set or a map keyed by this type must not rely on it.
impl PartialEq for State {
    fn eq(&self, other: &State) -> (r: bool) {
        match (*self, *other) {
            (State::Blight, State::Blight) => true,
            (State::Boom, State::Boom) => true,
            (State::Bust, State::Bust) => true,
            (State::CivilLiberty, State::CivilLiberty) => true,
            (State::CivilUnrest, State::CivilUnrest) => true,
            (State::CivilWar, State::CivilWar) => true,
            (State::ColdWar, State::ColdWar) => true,
            (State::Colonisation, State::Colonisation) => true,
            (State::Drought, State::Drought) => true,
            (State::Election, State::Election) => true,
            (State::Expansion, State::Expansion) => true,
            (State::Famine, State::Famine) => true,
            (State::HistoricEvent, State::HistoricEvent) => true,
            (State::InfrastructureFailure, State::InfrastructureFailure) => true,
            (State::Investment, State::Investment) => true,
            (State::Lockdown, State::Lockdown) => true,
            (State::NaturalDisaster, State::NaturalDisaster) => true,
            (State::Outbreak, State::Outbreak) => true,
            (State::PirateAttack, State::PirateAttack) => true,
            (State::PublicHoliday, State::PublicHoliday) => true,
            (State::Retreat, State::Retreat) => true,
            (State::Revolution, State::Revolution) => true,
            (State::TechnologicalLeap, State::TechnologicalLeap) => true,
            (State::Terrorism, State::Terrorism) => true,
            (State::TradeWar, State::TradeWar) => true,
            (State::War, State::War) => true,
            _ => false,
        }
    }
}

impl vstd::std_specs::cmp::PartialEqSpecImpl for State {
    open spec fn obeys_eq_spec() -> bool {
        true
    }

    open spec fn eq_spec(&self, other: &State) -> bool {
        *self == *other && *self !is Unspecified
    }
}

impl State {
    /// Every spelling listed for `Unspecified` decodes to it; the value reports
    /// itself null, and it alone does; it is not equal to itself, however
    /// often it is decoded.
    pub proof fn lemma_unspecified(i: int)
        requires
            0 <= i < STATE_SPELLINGS@.len(),
            STATE_SPELLINGS@[i].1 == State::Unspecified,
        ensures
            crate::alias::spelled::<State>(STATE_SPELLINGS@[i].0@) == Some(State::Unspecified),
            State::Unspecified.absent(),
            forall|v: State| v.absent() <==> v is Unspecified,
            !State::Unspecified.eq_spec(&State::Unspecified),
    {
        crate::alias::lemma_listed_spelling::<State>(i);
    }
}

/// How far a state or a conflict has come
#[derive(Clone, Copy, Debug)]
pub enum Status {
    Active,
    Pending,
    /// Written as the empty string.
    Recovering,
}

/// Every spelling of a [`Status`] that the journal has used, each beside its variant,
/// in alphabetical order.
pub const STATUS_SPELLINGS: [(&'static str, Status); 3] = [
    ("", Status::Recovering),
    ("active", Status::Active),
    ("pending", Status::Pending),
];

impl Enumeration for Status {
    open spec fn table() -> Seq<(&'static str, Status)> {
        STATUS_SPELLINGS@
    }

    fn spellings() -> (r: &'static [(&'static str, Status)]) {
        vstd::array::array_as_slice(&STATUS_SPELLINGS)
    }

    proof fn spellings_ascend() {
        reveal_with_fuel(crate::alias::precedes, 9);
        reveal_with_fuel(crate::alias::ascending_from, 5);
        reveal_strlit("");
        reveal_strlit("active");
        reveal_strlit("pending");
        assert(crate::alias::ascending_from(STATUS_SPELLINGS@, 0));
    }
}

impl Decode for Status {
    open spec fn verdict(json: Json) -> Verdict {
        Verdict::of(crate::alias::named::<Status>(json))
    }

    open spec fn agrees(&self, json: Json) -> bool {
        crate::alias::named::<Status>(json) == Ok::<Status, DecodeError>(*self)
    }

    fn decode(json: &Json) -> (r: Result<Status, DecodeError>) {
        decode_name::<Status>(json)
    }
}

impl PartialEq for Status {
    fn eq(&self, other: &Status) -> (r: bool) {
        match (*self, *other) {
            (Status::Active, Status::Active) => true,
            (Status::Pending, Status::Pending) => true,
            (Status::Recovering, Status::Recovering) => true,
            _ => false,
        }
    }
}

impl vstd::std_specs::cmp::PartialEqSpecImpl for Status {
    open spec fn obeys_eq_spec() -> bool {
        true
    }

    open spec fn eq_spec(&self, other: &Status) -> bool {
        *self == *other
    }
}

/// The order of the variants, the first listed ranking highest.
impl PartialOrd for Status {
    fn partial_cmp(&self, other: &Status) -> (r: Option<Ordering>) {
        let a = self.rank_of();
        let b = other.rank_of();
        if a < b {
            Some(Ordering::Less)
        } else if a == b {
            Some(Ordering::Equal)
        } else {
            Some(Ordering::Greater)
        }
    }
}

impl vstd::std_specs::cmp::PartialOrdSpecImpl for Status {
    open spec fn obeys_partial_cmp_spec() -> bool {
        true
    }

    open spec fn partial_cmp_spec(&self, other: &Status) -> Option<Ordering> {
        if self.rank() < other.rank() {
            Some(Ordering::Less)
        } else if self.rank() == other.rank() {
            Some(Ordering::Equal)
        } else {
            Some(Ordering::Greater)
        }
    }
}

impl Status {
    /// The place of a variant in the order: the first listed ranks highest.
    pub open spec fn rank(self) -> int {
        match self {
            Status::Active => 3,
            Status::Pending => 2,
            Status::Recovering => 1,
        }
    }

    fn rank_of(self) -> (r: u8)
        ensures
            r == self.rank(),
    {
        match self {
            Status::Active => 3,
            Status::Pending => 2,
            Status::Recovering => 1,
        }
    }
}

/// A state of a faction with the direction it moves in
#[derive(Debug)]
pub struct StateTrend {
    pub state: State,
    pub trend: Option<u64>,
}

impl Decode for StateTrend {
    open spec fn verdict(json: Json) -> Verdict {
        Verdict::object(json)
            .and(Verdict::required::<State>(json, "State"@))
            .and(Verdict::of(json.zero_is_none_at("Trend"@)))
    }

    open spec fn agrees(&self, json: Json) -> bool {
        &&& json.gives("State"@, &self.state)
        &&& json.zero_is_none_at("Trend"@) == Ok::<Option<u64>, DecodeError>(self.trend)
    }

    fn decode(json: &Json) -> (r: Result<StateTrend, DecodeError>) {
        object(json)?;
        let state = required::<State>(json, "State")?;
        let trend = zero_is_none_at(json, "Trend")?;
        Ok(StateTrend { state, trend })
    }
}

/// A conflict between two factions of one system
#[derive(Debug)]
pub struct FactionConflict {
    /// A conflict's type determines what triggers it and the way it is resolved.
    pub ty: FactionConflictType,
    /// Conflicts (like any other state) have a countdown and cooldown period before and
    /// after they are active.
    pub status: Option<Status>,
    /// The defending faction, which had the higher influence before the conflict.
    pub faction_1: FactionConflictProgress,
    /// The attacking faction, which had the lower influence before the conflict.
    pub faction_2: FactionConflictProgress,
}

impl Decode for FactionConflict {
    open spec fn verdict(json: Json) -> Verdict {
        Verdict::object(json)
            .and(Verdict::required::<FactionConflictType>(json, "WarType"@))
            .and(Verdict::optional::<Status>(json, "Status"@))
            .and(Verdict::required::<FactionConflictProgress>(json, "Faction1"@))
            .and(Verdict::required::<FactionConflictProgress>(json, "Faction2"@))
    }

    open spec fn agrees(&self, json: Json) -> bool {
        &&& json.gives("WarType"@, &self.ty)
        &&& json.gives("Status"@, &self.status)
        &&& json.gives("Faction1"@, &self.faction_1)
        &&& json.gives("Faction2"@, &self.faction_2)
    }

    fn decode(json: &Json) -> (r: Result<FactionConflict, DecodeError>) {
        object(json)?;
        let ty = required::<FactionConflictType>(json, "WarType")?;
        let status = optional::<Status>(json, "Status")?;
        let faction_1 = required::<FactionConflictProgress>(json, "Faction1")?;
        let faction_2 = required::<FactionConflictProgress>(json, "Faction2")?;
        Ok(FactionConflict { ty, status, faction_1, faction_2 })
    }
}

/// What two factions fight over, and how
#[derive(Clone, Copy, Debug, PartialEq, Eq, Structural)]
pub enum FactionConflictType {
    War,
    CivilWar,
    Election,
}

/// Every spelling of a [`FactionConflictType`] that the journal has used, each beside its variant,
/// in alphabetical order.
pub const FACTION_CONFLICT_TYPE_SPELLINGS: [(&'static str, FactionConflictType); 3] = [
    ("civilwar", FactionConflictType::CivilWar),
    ("election", FactionConflictType::Election),
    ("war", FactionConflictType::War),
];

impl Enumeration for FactionConflictType {
    open spec fn table() -> Seq<(&'static str, FactionConflictType)> {
        FACTION_CONFLICT_TYPE_SPELLINGS@
    }

    fn spellings() -> (r: &'static [(&'static str, FactionConflictType)]) {
        vstd::array::array_as_slice(&FACTION_CONFLICT_TYPE_SPELLINGS)
    }

    proof fn spellings_ascend() {
        reveal_with_fuel(crate::alias::precedes, 10);
        reveal_with_fuel(crate::alias::ascending_from, 5);
        reveal_strlit("civilwar");
        reveal_strlit("election");
        reveal_strlit("war");
        assert(crate::alias::ascending_from(FACTION_CONFLICT_TYPE_SPELLINGS@, 0));
    }
}

impl Decode for FactionConflictType {
    open spec fn verdict(json: Json) -> Verdict {
        Verdict::of(crate::alias::named::<FactionConflictType>(json))
    }

    open spec fn agrees(&self, json: Json) -> bool {
        crate::alias::named::<FactionConflictType>(json) == Ok::<FactionConflictType, DecodeError>(*self)
    }

    fn decode(json: &Json) -> (r: Result<FactionConflictType, DecodeError>) {
        decode_name::<FactionConflictType>(json)
    }
}

/// One side of a conflict
#[derive(Debug)]
pub struct FactionConflictProgress {
    pub name: String,
    pub stake: String,
    pub won_days: u8,
}

impl Decode for FactionConflictProgress {
    open spec fn verdict(json: Json) -> Verdict {
        Verdict::object(json)
            .and(Verdict::required::<String>(json, "Name"@))
            .and(Verdict::required::<String>(json, "Stake"@))
            .and(Verdict::required::<u8>(json, "WonDays"@))
    }

    open spec fn agrees(&self, json: Json) -> bool {
        &&& json.gives("Name"@, &self.name)
        &&& json.gives("Stake"@, &self.stake)
        &&& json.gives("WonDays"@, &self.won_days)
    }

    fn decode(json: &Json) -> (r: Result<FactionConflictProgress, DecodeError>) {
        object(json)?;
        let name = required::<String>(json, "Name")?;
        let stake = required::<String>(json, "Stake")?;
        let won_days = required::<u8>(json, "WonDays")?;
        Ok(FactionConflictProgress { name, stake, won_days })
    }
}

/// How content the people of a faction are
#[derive(Clone, Copy, Debug)]
pub enum Happiness {
    Elated,
    Happy,
    Discontented,
    Unhappy,
    Despondent,
    /// Written as the empty string.
    Unspecified,
}

/// Every spelling of a [`Happiness`] that the journal has used, each beside its variant,
/// in alphabetical order.
pub const HAPPINESS_SPELLINGS: [(&'static str, Happiness); 6] = [
    ("", Happiness::Unspecified),
    ("$Faction_HappinessBand1;", Happiness::Elated),
    ("$Faction_HappinessBand2;", Happiness::Happy),
    ("$Faction_HappinessBand3;", Happiness::Discontented),
    ("$Faction_HappinessBand4;", Happiness::Unhappy),
    ("$Faction_HappinessBand5;", Happiness::Despondent),
];

impl Enumeration for Happiness {
    open spec fn table() -> Seq<(&'static str, Happiness)> {
        HAPPINESS_SPELLINGS@
    }

    fn spellings() -> (r: &'static [(&'static str, Happiness)]) {
        vstd::array::array_as_slice(&HAPPINESS_SPELLINGS)
    }

    proof fn spellings_ascend() {
        reveal_with_fuel(crate::alias::precedes, 26);
        reveal_with_fuel(crate::alias::ascending_from, 8);
        reveal_strlit("");
        reveal_strlit("$Faction_HappinessBand1;");
        reveal_strlit("$Faction_HappinessBand2;");
        reveal_strlit("$Faction_HappinessBand3;");
        reveal_strlit("$Faction_HappinessBand4;");
        reveal_strlit("$Faction_HappinessBand5;");
        assert(crate::alias::ascending_from(HAPPINESS_SPELLINGS@, 0));
    }
}

impl Decode for Happiness {
    open spec fn verdict(json: Json) -> Verdict {
        Verdict::of(crate::alias::named::<Happiness>(json))
    }

    open spec fn agrees(&self, json: Json) -> bool {
        crate::alias::named::<Happiness>(json) == Ok::<Happiness, DecodeError>(*self)
    }

    fn decode(json: &Json) -> (r: Result<Happiness, DecodeError>) {
        decode_name::<Happiness>(json)
    }
}

impl Nullable for Happiness {
    open spec fn absent(&self) -> bool {
        *self is Unspecified
    }

    fn is_null(&self) -> (r: bool) {
        match self {
            Happiness::Unspecified => true,
            _ => false,
        }
    }
}

/// Equality of two decoded values. `Unspecified` carries nothing to compare, so it
/// is equal to nothing, itself included: this `==` is not reflexive, and a
/// set or a map keyed by this type must not rely on it.
impl PartialEq for Happiness {
    fn eq(&self, other: &Happiness) -> (r: bool) {
        match (*self, *other) {
            (Happiness::Elated, Happiness::Elated) => true,
            (Happiness::Happy, Happiness::Happy) => true,
            (Happiness::Discontented, Happiness::Discontented) => true,
            (Happiness::Unhappy, Happiness::Unhappy) => true,
            (Happiness::Despondent, Happiness::Despondent) => true,
            _ => false,
        }
    }
}

impl vstd::std_specs::cmp::PartialEqSpecImpl for Happiness {
    open spec fn obeys_eq_spec() -> bool {
        true
    }

    open spec fn eq_spec(&self, other: &Happiness) -> bool {
        *self == *other && *self !is Unspecified
    }
}

/// The order of the variants, best first. `Unspecified` is neither above nor below
/// anything.
impl PartialOrd for Happiness {
    fn partial_cmp(&self, other: &Happiness) -> (r: Option<Ordering>) {
        let a = self.rank_of();
        let b = other.rank_of();
        if a == 0 || b == 0 {
            None
        } else if a < b {
            Some(Ordering::Less)
        } else if a == b {
            Some(Ordering::Equal)
        } else {
            Some(Ordering::Greater)
        }
    }
}

impl vstd::std_specs::cmp::PartialOrdSpecImpl for Happiness {
    open spec fn obeys_partial_cmp_spec() -> bool {
        true
    }

    open spec fn partial_cmp_spec(&self, other: &Happiness) -> Option<Ordering> {
        if *self is Unspecified || *other is Unspecified {
            None
        } else if self.rank() < other.rank() {
            Some(Ordering::Less)
        } else if self.rank() == other.rank() {
            Some(Ordering::Equal)
        } else {
            Some(Ordering::Greater)
        }
    }
}

impl Happiness {
    /// The place of a variant in the order: the first listed ranks highest, and
    /// `Unspecified`, which has no place, counts as zero.
    pub open spec fn rank(self) -> int {
        match self {
            Happiness::Elated => 5,
            Happiness::Happy => 4,
            Happiness::Discontented => 3,
            Happiness::Unhappy => 2,
            Happiness::Despondent => 1,
            Happiness::Unspecified => 0,
        }
    }

    fn rank_of(self) -> (r: u8)
        ensures
            r == self.rank(),
    {
        match self {
            Happiness::Elated => 5,
            Happiness::Happy => 4,
            Happiness::Discontented => 3,
            Happiness::Unhappy => 2,
            Happiness::Despondent => 1,
            Happiness::Unspecified => 0,
        }
    }

    /// Every spelling listed for `Unspecified` decodes to it; the value reports
    /// itself null, and it alone does; it is not equal to itself, however
    /// often it is decoded.
    pub proof fn lemma_unspecified(i: int)
        requires
            0 <= i < HAPPINESS_SPELLINGS@.len(),
            HAPPINESS_SPELLINGS@[i].1 == Happiness::Unspecified,
        ensures
            crate::alias::spelled::<Happiness>(HAPPINESS_SPELLINGS@[i].0@) == Some(Happiness::Unspecified),
            Happiness::Unspecified.absent(),
            forall|v: Happiness| v.absent() <==> v is Unspecified,
            !Happiness::Unspecified.eq_spec(&Happiness::Unspecified),
    {
        crate::alias::lemma_listed_spelling::<Happiness>(i);
    }
}

} // verus!
