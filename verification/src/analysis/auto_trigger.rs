//! Automatic analysis triggers: anomaly types, trigger configuration, and the timing and
//! idempotence decisions of the post-market and anomaly triggers.
use vstd::prelude::*;
use crate::text::{eq_str, to_chars};
use vstd::string::StringExecFns;

verus! {

/// What started an analysis.
#[derive(Debug, PartialEq, Eq)]
pub enum TriggerType {
    /// Post-market analysis (15:30).
    AutoPostMarket,
    /// A market anomaly.
    Anomaly { anomaly_type: String },
    /// A user request.
    Manual,
}

/// Market anomalies that may trigger an analysis.
#[derive(Debug, Clone, Copy, PartialEq, Eq, Structural)]
pub enum AnomalyType {
    LimitUpSealed,
    LimitDownSealed,
    LimitUpBroken,
    LimitDownBroken,
    VolumeRatioSpike,
}

/// The wire name of each anomaly type.
pub open spec fn anomaly_name(a: AnomalyType) -> Seq<char> {
    match a {
        AnomalyType::LimitUpSealed => "limit_up_sealed"@,
        AnomalyType::LimitDownSealed => "limit_down_sealed"@,
        AnomalyType::LimitUpBroken => "limit_up_broken"@,
        AnomalyType::LimitDownBroken => "limit_down_broken"@,
        AnomalyType::VolumeRatioSpike => "volume_ratio_spike"@,
    }
}

/// The anomaly type with wire name `s`, if any.
pub open spec fn anomaly_from_name(s: Seq<char>) -> Option<AnomalyType> {
    if s == "limit_up_sealed"@ {
        Some(AnomalyType::LimitUpSealed)
    } else if s == "limit_down_sealed"@ {
        Some(AnomalyType::LimitDownSealed)
    } else if s == "limit_up_broken"@ {
        Some(AnomalyType::LimitUpBroken)
    } else if s == "limit_down_broken"@ {
        Some(AnomalyType::LimitDownBroken)
    } else if s == "volume_ratio_spike"@ {
        Some(AnomalyType::VolumeRatioSpike)
    } else {
        None
    }
}

/// Sealed limit-ups and volume spikes are worth an analysis.
pub open spec fn anomaly_worth_analysis(a: AnomalyType) -> bool {
    a == AnomalyType::LimitUpSealed || a == AnomalyType::VolumeRatioSpike
}

impl AnomalyType {
    /// The wire name.
    pub fn as_str(&self) -> (r: &'static str)
        ensures
            r@ == anomaly_name(*self),
    {
        match self {
            Self::LimitUpSealed => "limit_up_sealed",
            Self::LimitDownSealed => "limit_down_sealed",
            Self::LimitUpBroken => "limit_up_broken",
            Self::LimitDownBroken => "limit_down_broken",
            Self::VolumeRatioSpike => "volume_ratio_spike",
        }
    }

    /// Parses a wire name.
    pub fn from_str(s: &str) -> (r: Option<Self>)
        ensures
            r == anomaly_from_name(s@),
    {
        let v = to_chars(s);
        if eq_str(&v, "limit_up_sealed") {
            Some(Self::LimitUpSealed)
        } else if eq_str(&v, "limit_down_sealed") {
            Some(Self::LimitDownSealed)
        } else if eq_str(&v, "limit_up_broken") {
            Some(Self::LimitUpBroken)
        } else if eq_str(&v, "limit_down_broken") {
            Some(Self::LimitDownBroken)
        } else if eq_str(&v, "volume_ratio_spike") {
            Some(Self::VolumeRatioSpike)
        } else {
            None
        }
    }

    /// Whether the anomaly is worth an analysis.
    pub fn should_trigger_analysis(&self) -> (r: bool)
        ensures
            r == anomaly_worth_analysis(*self),
    {
        match self {
            Self::LimitUpSealed | Self::VolumeRatioSpike => true,
            _ => false,
        }
    }
}

/// Parsing an anomaly type's wire name gives back that type.
pub proof fn lemma_anomaly_name_round_trip(a: AnomalyType)
    ensures
        anomaly_from_name(anomaly_name(a)) == Some(a),
{
    reveal_strlit("limit_up_sealed");
    reveal_strlit("limit_down_sealed");
    reveal_strlit("limit_up_broken");
    reveal_strlit("limit_down_broken");
    reveal_strlit("volume_ratio_spike");
    let n = anomaly_name(a);
    if a != AnomalyType::LimitUpSealed {
        assert(n.len() != "limit_up_sealed"@.len() || n[9] != "limit_up_sealed"@[9]);
    }
    if a != AnomalyType::LimitDownSealed {
        assert(n.len() != "limit_down_sealed"@.len() || n[11] != "limit_down_sealed"@[11]);
    }
    if a != AnomalyType::LimitUpBroken {
        assert(n.len() != "limit_up_broken"@.len() || n[9] != "limit_up_broken"@[9]);
    }
    if a != AnomalyType::LimitDownBroken {
        assert(n.len() != "limit_down_broken"@.len() || n[11] != "limit_down_broken"@[11]);
    }
}

/// Whether an anomaly reported by wire name warrants an analysis: it names a known type
/// that is worth one.
pub fn anomaly_warrants_analysis(anomaly_type: &str) -> (r: bool)
    ensures
        r == match anomaly_from_name(anomaly_type@) {
            Some(a) => anomaly_worth_analysis(a),
            None => false,
        },
{
    match AnomalyType::from_str(anomaly_type) {
        Some(a) => a.should_trigger_analysis(),
        None => false,
    }
}

/// It is 15:30 or later.
pub open spec fn at_or_after_close_review(hour: u32, minute: u32) -> bool {
    hour > 15 || (hour == 15 && minute >= 30)
}

/// The trigger already ran on `today`.
pub open spec fn already_triggered(today: Seq<char>, last: Option<String>) -> bool {
    match last {
        Some(l) => l@ == today,
        None => false,
    }
}

fn same_day(today: &str, last: &Option<String>) -> (r: bool)
    ensures
        r == already_triggered(today@, *last),
{
    match last {
        Some(l) => {
            let lv = to_chars(l.as_str());
            eq_str(&lv, today)
        },
        None => false,
    }
}

/// Whether the post-market analysis is due: a trading day, 15:30 or later, and not yet run
/// today.
pub fn after_hours_analysis_due(
    is_trading_day: bool,
    hour: u32,
    minute: u32,
    today: &str,
    last_trigger_date: &Option<String>,
) -> (r: bool)
    ensures
        r == (is_trading_day && at_or_after_close_review(hour, minute) && !already_triggered(
            today@,
            *last_trigger_date,
        )),
{
    if !is_trading_day {
        return false;
    }
    if hour < 15 || (hour == 15 && minute < 30) {
        return false;
    }
    !same_day(today, last_trigger_date)
}

/// Whether the scheduler should trigger now: a trading day, between 15:30 and 18:00, and not
/// yet triggered today.
pub fn should_trigger_at(
    is_trading_day: bool,
    hour: u32,
    minute: u32,
    today: &str,
    last_trigger_date: &Option<String>,
) -> (r: bool)
    ensures
        r == (is_trading_day && at_or_after_close_review(hour, minute) && hour < 18
            && !already_triggered(today@, *last_trigger_date)),
{
    if !is_trading_day {
        return false;
    }
    if hour < 15 || hour >= 18 {
        return false;
    }
    if hour == 15 && minute < 30 {
        return false;
    }
    !same_day(today, last_trigger_date)
}

/// Configuration of the automatic triggers.
#[derive(Debug)]
pub struct AutoTriggerConfig {
    pub enable_post_market: bool,
    pub post_market_hour: u32,
    pub post_market_minute: u32,
    pub enable_anomaly_trigger: bool,
    pub anomaly_types: Vec<String>,
    pub max_daily_analysis: u32,
}

impl Default for AutoTriggerConfig {
    /// Both triggers on, post-market at 15:30, sealed limit-ups and volume spikes, at most 50
    /// analyses a day.
    fn default() -> (r: Self)
        ensures
            r.enable_post_market,
            r.post_market_hour == 15,
            r.post_market_minute == 30,
            r.enable_anomaly_trigger,
            r.anomaly_types@.len() == 2,
            r.anomaly_types@[0]@ == anomaly_name(AnomalyType::LimitUpSealed),
            r.anomaly_types@[1]@ == anomaly_name(AnomalyType::VolumeRatioSpike),
            r.max_daily_analysis == 50,
    {
        let mut anomaly_types: Vec<String> = Vec::new();
        anomaly_types.push(String::from_str(AnomalyType::LimitUpSealed.as_str()));
        anomaly_types.push(String::from_str(AnomalyType::VolumeRatioSpike.as_str()));
        AutoTriggerConfig {
            enable_post_market: true,
            post_market_hour: 15,
            post_market_minute: 30,
            enable_anomaly_trigger: true,
            anomaly_types,
            max_daily_analysis: 50,
        }
    }
}

} // verus!
