use vstd::prelude::*;
use crate::alias::{decode_name, Enumeration, from_name};
use crate::de::{Decode, DecodeError, Verdict};
use crate::entry::route::NavRoute;
use crate::json::Json;

/// Events of exploration: scans and the trade in what they found
pub mod exploration;

/// Events at the start of a session
pub mod startup;

/// Events of travel: jumps, docking, landing
pub mod travel;

verus! {

/// Information provided by the player journal
///
/// The member `event` of a line names its kind, and the other members are
/// those of that kind. The game grows new kinds with every release: a line of
/// a kind that is not known here is no error, it decodes to `Other`.
#[derive(Debug)]
pub enum Event {
    Fileheader(startup::Fileheader),
    Cargo(startup::Cargos),
    NewCommander(startup::NewCommander),
    ClearSavedGame(startup::Commander),
    Commander(startup::Commander),
    LoadGame(startup::LoadGame),
    Materials(startup::Materials),
    Location(travel::Location),
    Docked(travel::Docked),
    DockingGranted(travel::DockingGranted),
    DockingRequested(travel::DockingRequested),
    DockingDenied(travel::DockingDenied),
    DockingCancelled(travel::DockingCancelled),
    DockingTimeout(travel::DockingTimeout),
    Liftoff(travel::Liftoff),
    LeaveBody(travel::LeaveBody),
    ApproachBody(travel::ApproachBody),
    FsdTarget(travel::FsdTarget),
    FsdJump(travel::FsdJump),
    /// Signals an update to the `NavRoute.json` file
    NavRoute(NavRoute),
    BuyExplorationData(exploration::BuyExplorationData),
    SellExplorationData(exploration::SellExplorationData),
    SAASignalsFound(exploration::SAASignalsFound),
    Scan(exploration::Scan),
    ScanBaryCentre(exploration::ScanBaryCentre),
    /// A line of a kind that this library has no record for.
    Other,
}

/// The kinds of line that decode to a record of their own
#[derive(Clone, Copy, Debug, PartialEq, Eq, Structural)]
pub enum Kind {
    Fileheader,
    Cargo,
    NewCommander,
    ClearSavedGame,
    Commander,
    LoadGame,
    Materials,
    Location,
    Docked,
    DockingGranted,
    DockingRequested,
    DockingDenied,
    DockingCancelled,
    DockingTimeout,
    Liftoff,
    LeaveBody,
    ApproachBody,
    FsdTarget,
    FsdJump,
    NavRoute,
    BuyExplorationData,
    SellExplorationData,
    SAASignalsFound,
    Scan,
    ScanBaryCentre,
}

/// The known tags: what the member `event` of a line says, beside the kind it names,
/// in alphabetical order.
pub const KIND_SPELLINGS: [(&'static str, Kind); 25] = [
    ("ApproachBody", Kind::ApproachBody),
    ("BuyExplorationData", Kind::BuyExplorationData),
    ("Cargo", Kind::Cargo),
    ("ClearSavedGame", Kind::ClearSavedGame),
    ("Commander", Kind::Commander),
    ("Docked", Kind::Docked),
    ("DockingCancelled", Kind::DockingCancelled),
    ("DockingDenied", Kind::DockingDenied),
    ("DockingGranted", Kind::DockingGranted),
    ("DockingRequested", Kind::DockingRequested),
    ("DockingTimeout", Kind::DockingTimeout),
    ("FSDJump", Kind::FsdJump),
    ("FSDTarget", Kind::FsdTarget),
    ("Fileheader", Kind::Fileheader),
    ("LeaveBody", Kind::LeaveBody),
    ("Liftoff", Kind::Liftoff),
    ("LoadGame", Kind::LoadGame),
    ("Location", Kind::Location),
    ("Materials", Kind::Materials),
    ("NavRoute", Kind::NavRoute),
    ("NewCommander", Kind::NewCommander),
    ("SAASignalsFound", Kind::SAASignalsFound),
    ("Scan", Kind::Scan),
    ("ScanBaryCentre", Kind::ScanBaryCentre),
    ("SellExplorationData", Kind::SellExplorationData),
];

impl Enumeration for Kind {
    open spec fn table() -> Seq<(&'static str, Kind)> {
        KIND_SPELLINGS@
    }

    fn spellings() -> (r: &'static [(&'static str, Kind)]) {
        vstd::array::array_as_slice(&KIND_SPELLINGS)
    }

    proof fn spellings_ascend() {
        reveal_with_fuel(crate::alias::precedes, 21);
        reveal_with_fuel(crate::alias::ascending_from, 10);
        reveal_strlit("ApproachBody");
        reveal_strlit("BuyExplorationData");
        reveal_strlit("Cargo");
        reveal_strlit("ClearSavedGame");
        reveal_strlit("Commander");
        reveal_strlit("Docked");
        reveal_strlit("DockingCancelled");
        reveal_strlit("DockingDenied");
        reveal_strlit("DockingGranted");
        reveal_strlit("DockingRequested");
        reveal_strlit("DockingTimeout");
        reveal_strlit("FSDJump");
        reveal_strlit("FSDTarget");
        reveal_strlit("Fileheader");
        reveal_strlit("LeaveBody");
        reveal_strlit("Liftoff");
        reveal_strlit("LoadGame");
        reveal_strlit("Location");
        reveal_strlit("Materials");
        reveal_strlit("NavRoute");
        reveal_strlit("NewCommander");
        reveal_strlit("SAASignalsFound");
        reveal_strlit("Scan");
        reveal_strlit("ScanBaryCentre");
        reveal_strlit("SellExplorationData");
        assert(crate::alias::ascending_from(KIND_SPELLINGS@, 24));
        assert(crate::alias::ascending_from(KIND_SPELLINGS@, 16));
        assert(crate::alias::ascending_from(KIND_SPELLINGS@, 8));
        assert(crate::alias::ascending_from(KIND_SPELLINGS@, 0));
    }
}

impl Decode for Kind {
    open spec fn verdict(json: Json) -> Verdict {
        Verdict::of(crate::alias::named::<Kind>(json))
    }

    open spec fn agrees(&self, json: Json) -> bool {
        crate::alias::named::<Kind>(json) == Ok::<Kind, DecodeError>(*self)
    }

    fn decode(json: &Json) -> (r: Result<Kind, DecodeError>) {
        decode_name::<Kind>(json)
    }
}

impl Kind {
    /// What the tag of a line comes to: the kind it names, no kind for a tag
    /// that the table does not list, and a refusal for a line without a tag or
    /// with one that is no string.
    pub open spec fn of(json: Json) -> Result<Option<Kind>, DecodeError> {
        match json.field("event"@) {
            Some(Json::String(tag)) => Ok(crate::alias::spelled::<Kind>(tag@)),
            _ => Err(DecodeError::Structure),
        }
    }

    /// Reads the tag of a line and looks it up in the table of known tags.
    pub fn read(json: &Json) -> (r: Result<Option<Kind>, DecodeError>)
        ensures
            r == Self::of(*json),
    {
        match json.get("event") {
            Some(Json::String(tag)) => Ok(from_name::<Kind>(tag.as_str())),
            _ => Err(DecodeError::Structure),
        }
    }
}

impl Event {
    /// The verdict on a line of a known kind: that on the record of that kind.
    pub open spec fn record_verdict(kind: Kind, json: Json) -> Verdict {
        match kind {
            Kind::Fileheader => startup::Fileheader::verdict(json),
            Kind::Cargo => startup::Cargos::verdict(json),
            Kind::NewCommander => startup::NewCommander::verdict(json),
            Kind::ClearSavedGame => startup::Commander::verdict(json),
            Kind::Commander => startup::Commander::verdict(json),
            Kind::LoadGame => startup::LoadGame::verdict(json),
            Kind::Materials => startup::Materials::verdict(json),
            Kind::Location => travel::Location::verdict(json),
            Kind::Docked => travel::Docked::verdict(json),
            Kind::DockingGranted => travel::DockingGranted::verdict(json),
            Kind::DockingRequested => travel::DockingRequested::verdict(json),
            Kind::DockingDenied => travel::DockingDenied::verdict(json),
            Kind::DockingCancelled => travel::DockingCancelled::verdict(json),
            Kind::DockingTimeout => travel::DockingTimeout::verdict(json),
            Kind::Liftoff => travel::Liftoff::verdict(json),
            Kind::LeaveBody => travel::LeaveBody::verdict(json),
            Kind::ApproachBody => travel::ApproachBody::verdict(json),
            Kind::FsdTarget => travel::FsdTarget::verdict(json),
            Kind::FsdJump => travel::FsdJump::verdict(json),
            Kind::NavRoute => NavRoute::verdict(json),
            Kind::BuyExplorationData => exploration::BuyExplorationData::verdict(json),
            Kind::SellExplorationData => exploration::SellExplorationData::verdict(json),
            Kind::SAASignalsFound => exploration::SAASignalsFound::verdict(json),
            Kind::Scan => exploration::Scan::verdict(json),
            Kind::ScanBaryCentre => exploration::ScanBaryCentre::verdict(json),
        }
    }

    /// Whether `self` is the event of the given kind, with the record that the
    /// line holds.
    pub open spec fn carries(&self, kind: Kind, json: Json) -> bool {
        match kind {
            Kind::Fileheader => *self matches Event::Fileheader(record) && record.agrees(json),
            Kind::Cargo => *self matches Event::Cargo(record) && record.agrees(json),
            Kind::NewCommander => *self matches Event::NewCommander(record) && record.agrees(json),
            Kind::ClearSavedGame => *self matches Event::ClearSavedGame(record) && record.agrees(json),
            Kind::Commander => *self matches Event::Commander(record) && record.agrees(json),
            Kind::LoadGame => *self matches Event::LoadGame(record) && record.agrees(json),
            Kind::Materials => *self matches Event::Materials(record) && record.agrees(json),
            Kind::Location => *self matches Event::Location(record) && record.agrees(json),
            Kind::Docked => *self matches Event::Docked(record) && record.agrees(json),
            Kind::DockingGranted => *self matches Event::DockingGranted(record) && record.agrees(json),
            Kind::DockingRequested => *self matches Event::DockingRequested(record) && record.agrees(json),
            Kind::DockingDenied => *self matches Event::DockingDenied(record) && record.agrees(json),
            Kind::DockingCancelled => *self matches Event::DockingCancelled(record) && record.agrees(json),
            Kind::DockingTimeout => *self matches Event::DockingTimeout(record) && record.agrees(json),
            Kind::Liftoff => *self matches Event::Liftoff(record) && record.agrees(json),
            Kind::LeaveBody => *self matches Event::LeaveBody(record) && record.agrees(json),
            Kind::ApproachBody => *self matches Event::ApproachBody(record) && record.agrees(json),
            Kind::FsdTarget => *self matches Event::FsdTarget(record) && record.agrees(json),
            Kind::FsdJump => *self matches Event::FsdJump(record) && record.agrees(json),
            Kind::NavRoute => *self matches Event::NavRoute(record) && record.agrees(json),
            Kind::BuyExplorationData => *self matches Event::BuyExplorationData(record) && record.agrees(json),
            Kind::SellExplorationData => *self matches Event::SellExplorationData(record) && record.agrees(json),
            Kind::SAASignalsFound => *self matches Event::SAASignalsFound(record) && record.agrees(json),
            Kind::Scan => *self matches Event::Scan(record) && record.agrees(json),
            Kind::ScanBaryCentre => *self matches Event::ScanBaryCentre(record) && record.agrees(json),
        }
    }

    /// Decodes the record of a line of a known kind.
    pub fn decode_record(kind: Kind, json: &Json) -> (r: Result<Event, DecodeError>)
        ensures
            match r {
                Ok(event) => Self::record_verdict(kind, *json) is Accepted && event.carries(
                    kind,
                    *json,
                ),
                Err(e) => Self::record_verdict(kind, *json) == Verdict::Refused(e),
            },
    {
        match kind {
            Kind::Fileheader => Ok(Event::Fileheader(startup::Fileheader::decode(json)?)),
            Kind::Cargo => Ok(Event::Cargo(startup::Cargos::decode(json)?)),
            Kind::NewCommander => Ok(Event::NewCommander(startup::NewCommander::decode(json)?)),
            Kind::ClearSavedGame => Ok(Event::ClearSavedGame(startup::Commander::decode(json)?)),
            Kind::Commander => Ok(Event::Commander(startup::Commander::decode(json)?)),
            Kind::LoadGame => Ok(Event::LoadGame(startup::LoadGame::decode(json)?)),
            Kind::Materials => Ok(Event::Materials(startup::Materials::decode(json)?)),
            Kind::Location => Ok(Event::Location(travel::Location::decode(json)?)),
            Kind::Docked => Ok(Event::Docked(travel::Docked::decode(json)?)),
            Kind::DockingGranted => Ok(Event::DockingGranted(travel::DockingGranted::decode(json)?)),
            Kind::DockingRequested => Ok(Event::DockingRequested(travel::DockingRequested::decode(json)?)),
            Kind::DockingDenied => Ok(Event::DockingDenied(travel::DockingDenied::decode(json)?)),
            Kind::DockingCancelled => Ok(Event::DockingCancelled(travel::DockingCancelled::decode(json)?)),
            Kind::DockingTimeout => Ok(Event::DockingTimeout(travel::DockingTimeout::decode(json)?)),
            Kind::Liftoff => Ok(Event::Liftoff(travel::Liftoff::decode(json)?)),
            Kind::LeaveBody => Ok(Event::LeaveBody(travel::LeaveBody::decode(json)?)),
            Kind::ApproachBody => Ok(Event::ApproachBody(travel::ApproachBody::decode(json)?)),
            Kind::FsdTarget => Ok(Event::FsdTarget(travel::FsdTarget::decode(json)?)),
            Kind::FsdJump => Ok(Event::FsdJump(travel::FsdJump::decode(json)?)),
            Kind::NavRoute => Ok(Event::NavRoute(NavRoute::decode(json)?)),
            Kind::BuyExplorationData => Ok(Event::BuyExplorationData(exploration::BuyExplorationData::decode(json)?)),
            Kind::SellExplorationData => Ok(Event::SellExplorationData(exploration::SellExplorationData::decode(json)?)),
            Kind::SAASignalsFound => Ok(Event::SAASignalsFound(exploration::SAASignalsFound::decode(json)?)),
            Kind::Scan => Ok(Event::Scan(exploration::Scan::decode(json)?)),
            Kind::ScanBaryCentre => Ok(Event::ScanBaryCentre(exploration::ScanBaryCentre::decode(json)?)),
        }
    }
}

impl Decode for Event {
    open spec fn verdict(json: Json) -> Verdict {
        match Kind::of(json) {
            Ok(Some(kind)) => Self::record_verdict(kind, json),
            Ok(None) => Verdict::Accepted,
            Err(e) => Verdict::Refused(e),
        }
    }

    open spec fn agrees(&self, json: Json) -> bool {
        match Kind::of(json) {
            Ok(Some(kind)) => self.carries(kind, json),
            Ok(None) => *self is Other,
            Err(_) => false,
        }
    }

    fn decode(json: &Json) -> (r: Result<Event, DecodeError>) {
        match Kind::read(json)? {
            Some(kind) => Self::decode_record(kind, json),
            None => Ok(Event::Other),
        }
    }
}

/// A line with a tag that the table of known tags does not list decodes, and
/// to `Other`: whatever else the line holds, it is not an error.
pub proof fn lemma_unknown_tag_is_other(json: Json, tag: String)
    requires
        json.field("event"@) == Some(Json::String(tag)),
        forall|i: int| 0 <= i < KIND_SPELLINGS@.len() ==> (#[trigger] KIND_SPELLINGS@[i]).0@ != tag@,
    ensures
        Event::verdict(json) is Accepted,
        forall|event: Event| event.agrees(json) <==> event is Other,
{
    crate::alias::lemma_unlisted_name_refused::<Kind>(tag@);
}

/// A line without the member `event`, or with one that is no string, is
/// refused as ill-formed whatever else it holds.
pub proof fn lemma_missing_tag_is_refused(json: Json)
    requires
        !(json.field("event"@) matches Some(Json::String(_))),
    ensures
        Event::verdict(json) == Verdict::Refused(DecodeError::Structure),
{
}

} // verus!
