//! Intraday anomaly kinds.
use vstd::prelude::*;

pub mod types;

verus! {

/// Kind of an intraday anomaly.
#[derive(Debug, Clone, Copy, PartialEq, Eq, Structural)]
pub enum AnomalyType {
    /// Fast rise.
    Surge,
    /// Fast fall.
    Dive,
    /// Volume-ratio spike.
    VolumeSpike,
    /// Limit sealed.
    SealBoard,
    /// Limit broken.
    BreakBoard,
    /// Temporary suspension.
    TempSuspend,
}

} // verus!
