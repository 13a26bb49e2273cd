pub use crate::body::{Body, BodyType, Signal};
pub use crate::entry::incremental::exploration::ScanTarget;
pub use crate::faction::{
    Faction, FactionConflict, FactionConflictProgress, FactionConflictType, FactionInfo,
    Happiness, State, StateTrend, Status,
};
pub use crate::ship::JumpCost;
pub use crate::station::{
    DockingDeniedReason, EconomyShare, PadSize, Service, Station, StationType,
};
pub use crate::system::{Coordinate, Economy, Security, Star, System};
pub use crate::{Allegiance, Government};
