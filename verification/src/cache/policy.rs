//! K-line cache time-to-live policy by period.
use vstd::prelude::*;
use crate::text::{eq_str, str_is, to_chars};

verus! {

/// Cache time-to-live of one K-line period.
#[derive(Debug, Clone, Copy)]
pub struct CachePolicy {
    pub period: &'static str,
    pub ttl_secs: i64,
}

/// Time-to-live in seconds of each period's cache; one day for periods not listed.
pub open spec fn ttl_of(period: Seq<char>) -> i64 {
    if period == "1m"@ {
        60
    } else if period == "5m"@ || period == "15m"@ || period == "30m"@ {
        300
    } else if period == "60m"@ {
        600
    } else if period == "day"@ {
        86400
    } else if period == "week"@ {
        604800
    } else if period == "month"@ {
        2592000
    } else {
        86400
    }
}

/// The cache time-to-live of a period.
pub fn get_ttl(period: &str) -> (r: i64)
    ensures
        r == ttl_of(period@),
{
    let p = to_chars(period);
    if eq_str(&p, "1m") {
        60
    } else if eq_str(&p, "5m") || eq_str(&p, "15m") || eq_str(&p, "30m") {
        300
    } else if eq_str(&p, "60m") {
        600
    } else if eq_str(&p, "day") {
        86400
    } else if eq_str(&p, "week") {
        604800
    } else if eq_str(&p, "month") {
        2592000
    } else {
        86400
    }
}

/// The time-to-live of a period, shortened to five minutes for daily bars while the market
/// trades.
pub fn get_ttl_with_market_status(period: &str, is_trading: bool) -> (r: i64)
    ensures
        r == if is_trading && period@ == "day"@ {
            300
        } else {
            ttl_of(period@)
        },
{
    if is_trading && str_is(period, "day") {
        300
    } else {
        get_ttl(period)
    }
}


/// The cache lifetimes: one minute for 1-minute bars, five minutes for 5-, 15- and
/// 30-minute bars, ten minutes for hourly bars, a day for daily bars, a week for weekly
/// bars, thirty days for monthly bars, and a day for any other period.
pub proof fn lemma_ttl_table(period: Seq<char>)
    ensures
        ttl_of("1m"@) == 60,
        ttl_of("5m"@) == 300,
        ttl_of("15m"@) == 300,
        ttl_of("30m"@) == 300,
        ttl_of("60m"@) == 600,
        ttl_of("day"@) == 86400,
        ttl_of("week"@) == 604800,
        ttl_of("month"@) == 2592000,
        period != "1m"@ && period != "5m"@ && period != "15m"@ && period != "30m"@ && period != "60m"@
            && period != "week"@ && period != "month"@ ==> ttl_of(period) == 86400,
        60 <= ttl_of(period) <= 2592000,
{
    reveal_strlit("1m");
    reveal_strlit("5m");
    reveal_strlit("15m");
    reveal_strlit("30m");
    reveal_strlit("60m");
    reveal_strlit("day");
    reveal_strlit("week");
    reveal_strlit("month");
    assert("5m"@[0] != "1m"@[0]);
    assert("15m"@.len() != "1m"@.len());
    assert("15m"@.len() != "5m"@.len());
    assert("30m"@.len() != "1m"@.len());
    assert("30m"@.len() != "5m"@.len());
    assert("30m"@[0] != "15m"@[0]);
    assert("60m"@.len() != "1m"@.len());
    assert("60m"@.len() != "5m"@.len());
    assert("60m"@[0] != "15m"@[0]);
    assert("60m"@[0] != "30m"@[0]);
    assert("day"@.len() != "1m"@.len());
    assert("day"@.len() != "5m"@.len());
    assert("day"@[0] != "15m"@[0]);
    assert("day"@[0] != "30m"@[0]);
    assert("day"@[0] != "60m"@[0]);
    assert("week"@.len() != "1m"@.len());
    assert("week"@.len() != "5m"@.len());
    assert("week"@.len() != "15m"@.len());
    assert("week"@.len() != "30m"@.len());
    assert("week"@.len() != "60m"@.len());
    assert("week"@.len() != "day"@.len());
    assert("month"@.len() != "1m"@.len());
    assert("month"@.len() != "5m"@.len());
    assert("month"@.len() != "15m"@.len());
    assert("month"@.len() != "30m"@.len());
    assert("month"@.len() != "60m"@.len());
    assert("month"@.len() != "day"@.len());
    assert("month"@.len() != "week"@.len());
}

} // verus!
