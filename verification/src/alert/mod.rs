//! Alert rule kinds.
use vstd::prelude::*;

verus! {

/// Kind of an alert rule.
#[derive(Debug, Clone, Copy, PartialEq, Eq, Structural)]
pub enum AlertRuleType {
    PriceAbove,
    PriceBelow,
    ChangePercentAbove,
    ChangePercentBelow,
    VolumeRatioAbove,
    NewHigh,
    NewLow,
    LimitUp,
    LimitDown,
    Anomaly,
    TempSuspend,
}

} // verus!
