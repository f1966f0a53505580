//! Anomaly kinds as exchanged with the front end.
use vstd::prelude::*;

verus! {

/// Kind of an intraday anomaly.
#[derive(Debug, Clone, Copy, PartialEq, Eq, Structural)]
pub enum AnomalyType {
    Surge,
    Dive,
    VolumeSpike,
    SealBoard,
    BreakBoard,
    TempSuspend,
}

} // verus!
