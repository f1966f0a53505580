//! Price-limit engine: limit rates by board and date, limit prices rounded to the cent,
//! and effective trading time.
use vstd::prelude::*;
use crate::text::{contains_seq, contains_str, to_chars};
use crate::limit::board_type::{BoardType, board_of_code};

pub mod board_type;

verus! {

/// A calendar date.
#[derive(Debug, Clone, Copy, PartialEq, Eq, Structural)]
pub struct TradeDate {
    pub year: i32,
    pub month: u32,
    pub day: u32,
}

/// `a` is an earlier date than `b`.
pub open spec fn date_before(a: TradeDate, b: TradeDate) -> bool {
    a.year < b.year || (a.year == b.year && (a.month < b.month || (a.month == b.month && a.day
        < b.day)))
}

/// The date ChiNext moved from a 10% to a 20% limit.
pub open spec fn chinext_switch_date() -> TradeDate {
    TradeDate { year: 2020, month: 8, day: 24 }
}

/// A stock name marks special treatment when it contains `ST`.
pub open spec fn is_st_name(name: Seq<char>) -> bool {
    contains_seq(name, "ST"@)
}

/// The price-limit rate (percent) of a stock on a date: 5 for ST; 30 on the BSE; 20 on
/// STAR; ChiNext 10 before 2020-08-24 and 20 from then on; 10 on the main boards.
pub open spec fn limit_rate_on(code: Seq<char>, name: Seq<char>, date: TradeDate) -> u32 {
    if is_st_name(name) {
        5
    } else {
        match board_of_code(code) {
            BoardType::BSE => 30,
            BoardType::StarMarket => 20,
            BoardType::ChiNext => if date_before(date, chinext_switch_date()) {
                10
            } else {
                20
            },
            _ => 10,
        }
    }
}

/// The price-limit rate of a stock on a date, in percent.
pub fn get_limit_rate_percent(code: &str, name: &str, date: TradeDate) -> (r: u32)
    ensures
        r == limit_rate_on(code@, name@, date),
{
    let n = to_chars(name);
    if contains_str(&n, "ST") {
        return 5;
    }
    match BoardType::from_code(code) {
        BoardType::BSE => 30,
        BoardType::StarMarket => 20,
        BoardType::ChiNext => {
            let before = date.year < 2020 || (date.year == 2020 && (date.month < 8 || (date.month
                == 8 && date.day < 24)));
            if before {
                10
            } else {
                20
            }
        },
        _ => 10,
    }
}

/// The limit-up price in cents: the previous close raised by the rate, rounded up to the cent.
pub fn limit_up_price_cents(pre_close_cents: u32, rate_percent: u32) -> (r: u64)
    ensures
        r as int * 100 >= pre_close_cents as int * (100 + rate_percent as int),
        (r as int - 1) * 100 < pre_close_cents as int * (100 + rate_percent as int),
        r >= pre_close_cents,
{
    let p = pre_close_cents as u128;
    let m = 100 + rate_percent as u128;
    proof {
        assert(p * m <= (u32::MAX as int) * (u32::MAX as int + 100)) by (nonlinear_arith)
            requires
                p <= u32::MAX,
                m <= u32::MAX as int + 100,
        ;
    }
    let num: u128 = p * m;
    let q = (num + 99) / 100;
    proof {
        assert(num >= pre_close_cents as int * 100) by (nonlinear_arith)
            requires
                num == pre_close_cents as int * (100 + rate_percent as int),
                rate_percent >= 0,
        ;
        assert(q <= u64::MAX) by (nonlinear_arith)
            requires
                num == pre_close_cents as int * (100 + rate_percent as int),
                pre_close_cents <= u32::MAX,
                rate_percent <= u32::MAX,
                q == (num + 99) / 100,
        ;
    }
    q as u64
}

/// The limit-down price in cents: the previous close lowered by the rate, rounded down to
/// the cent (negative when the rate exceeds 100%).
pub fn limit_down_price_cents(pre_close_cents: u32, rate_percent: u32) -> (r: i64)
    ensures
        r as int * 100 <= pre_close_cents as int * (100 - rate_percent as int),
        (r as int + 1) * 100 > pre_close_cents as int * (100 - rate_percent as int),
        r <= pre_close_cents,
{
    let p = pre_close_cents as i128;
    let m = 100 - rate_percent as i128;
    proof {
        assert(-(u32::MAX as int) * (u32::MAX as int) <= p * m <= (u32::MAX as int) * 100) by (nonlinear_arith)
            requires
                0 <= p <= u32::MAX,
                100 - u32::MAX <= m <= 100,
        ;
    }
    let num: i128 = p * m;
    proof {
        assert(num <= pre_close_cents as int * 100) by (nonlinear_arith)
            requires
                num == pre_close_cents as int * (100 - rate_percent as int),
                rate_percent >= 0,
                pre_close_cents >= 0,
        ;
        assert(num >= -(u32::MAX as int) * (u32::MAX as int)) by (nonlinear_arith)
            requires
                num == pre_close_cents as int * (100 - rate_percent as int),
                0 <= pre_close_cents <= u32::MAX,
                0 <= rate_percent <= u32::MAX,
        ;
    }
    let q: i128 = if num >= 0 {
        num / 100
    } else {
        -((-num + 99) / 100)
    };
    q as i64
}

/// Start of the lunch break, in seconds after midnight (11:30).
pub open spec fn morning_close_secs() -> int {
    41400
}

/// End of the lunch break, in seconds after midnight (13:00).
pub open spec fn afternoon_open_secs() -> int {
    46800
}

/// Trading seconds from `start` to `end` (seconds after midnight): the lunch break
/// (90 minutes) is left out when the span crosses it.
pub fn effective_trading_seconds(start_secs: i64, end_secs: i64) -> (r: i64)
    requires
        0 <= start_secs < 86400,
        0 <= end_secs < 86400,
    ensures
        r == if start_secs < morning_close_secs() && end_secs > afternoon_open_secs() {
            end_secs - start_secs - 5400
        } else {
            end_secs - start_secs
        },
{
    let total = end_secs - start_secs;
    if start_secs < 41400 && end_secs > 46800 {
        total - 5400
    } else {
        total
    }
}


/// Which board a code is on and the daily limit it gets, by the code's leading characters:
/// `300` and `301` are ChiNext (20% from 2020-08-24, 10% before), `688` is STAR (20%), a
/// leading `8` or `4` is the Beijing exchange (30%), any other leading `6` is the Shanghai
/// main board (10%), and every other code is the Shenzhen main board (10%). A name holding
/// `ST` caps the limit at 5% whatever the board.
pub proof fn lemma_limit_rate_by_prefix(c: Seq<char>, name: Seq<char>, date: TradeDate)
    ensures
        c.len() >= 3 && c[0] == '3' && c[1] == '0' && (c[2] == '0' || c[2] == '1') ==> {
            &&& board_of_code(c) == BoardType::ChiNext
            &&& !contains_seq(name, "ST"@) && !date_before(date, TradeDate { year: 2020, month: 8, day: 24 })
                ==> limit_rate_on(c, name, date) == 20
            &&& !contains_seq(name, "ST"@) && date_before(date, TradeDate { year: 2020, month: 8, day: 24 })
                ==> limit_rate_on(c, name, date) == 10
        },
        c.len() >= 3 && c[0] == '6' && c[1] == '8' && c[2] == '8' ==> board_of_code(c)
            == BoardType::StarMarket && (!contains_seq(name, "ST"@) ==> limit_rate_on(c, name, date) == 20),
        c.len() >= 1 && (c[0] == '8' || c[0] == '4') ==> board_of_code(c) == BoardType::BSE && (
        !contains_seq(name, "ST"@) ==> limit_rate_on(c, name, date) == 30),
        c.len() >= 1 && c[0] == '6' && !(c.len() >= 3 && c[1] == '8' && c[2] == '8') ==> board_of_code(c)
            == BoardType::MainBoardSH && (!contains_seq(name, "ST"@) ==> limit_rate_on(c, name, date) == 10),
        (c.len() == 0 || (c[0] != '3' && c[0] != '6' && c[0] != '8' && c[0] != '4')) ==> board_of_code(c)
            == BoardType::MainBoardSZ && (!contains_seq(name, "ST"@) ==> limit_rate_on(c, name, date) == 10),
        contains_seq(name, "ST"@) ==> limit_rate_on(c, name, date) == 5,
{
}

} // verus!
