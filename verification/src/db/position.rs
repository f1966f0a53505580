//! Position arithmetic in exact decimals: market value, profit and loss, rates and the
//! portfolio summary.
use vstd::prelude::*;
use crate::decimal::{
    checked_add, checked_div, checked_mul, checked_sub, decimal_checked_add,
    decimal_checked_div, decimal_checked_mul, decimal_checked_sub, decimal_text,
    decimal_to_string, exact_difference, exact_product, fits96, round_dp, rounded, Dec,
};

verus! {

/// Some step of a decimal computation overflowed the 96-bit range of `Decimal`.
#[derive(Debug, Clone, Copy, PartialEq, Eq, Structural)]
pub struct DecimalOverflow;

/// The number 100 (scale 0).
pub open spec fn hundred() -> Dec {
    Dec::exact(100, 0)
}

fn hundred_exec() -> (r: Dec)
    ensures
        r == hundred(),
        r.wf(),
{
    Dec::from_int(100)
}

/// The product `qty * price` is computed without overflow: the mantissas' product fits
/// 96 bits.
pub open spec fn product_in_range(qty: Dec, price: Dec) -> bool {
    fits96(qty.mantissa * price.mantissa)
}

/// Market value = quantity × price.
pub fn market_value(qty: Dec, price: Dec) -> (r: Dec)
    requires
        qty.wf(),
        price.wf(),
        product_in_range(qty, price),
    ensures
        Some(r) == decimal_checked_mul(qty, price),
        exact_product(qty, price) is Some ==> Some(r) == exact_product(qty, price),
        r.wf(),
{
    match checked_mul(qty, price) {
        Some(v) => v,
        None => Dec::zero(),
    }
}

/// `qty * (a - b)` is computed without overflow: the difference is exact and its product
/// with the quantity fits 96 bits.
pub open spec fn spread_in_range(qty: Dec, a: Dec, b: Dec) -> bool {
    &&& exact_difference(a, b) is Some
    &&& product_in_range(qty, exact_difference(a, b)->0)
}

/// `qty * (a - b)`, computed as `rust_decimal` does.
fn spread_value(qty: Dec, a: Dec, b: Dec) -> (r: Dec)
    requires
        qty.wf(),
        a.wf(),
        b.wf(),
        spread_in_range(qty, a, b),
    ensures
        Some(r) == decimal_checked_mul(qty, exact_difference(a, b)->0),
        exact_product(qty, exact_difference(a, b)->0) is Some ==> Some(r) == exact_product(
            qty,
            exact_difference(a, b)->0,
        ),
        r.wf(),
{
    let d = match checked_sub(a, b) {
        Some(d) => d,
        None => Dec::zero(),
    };
    match checked_mul(qty, d) {
        Some(v) => v,
        None => Dec::zero(),
    }
}

/// Floating profit = quantity × (price − cost).
pub fn float_pnl(qty: Dec, price: Dec, cost: Dec) -> (r: Dec)
    requires
        qty.wf(),
        price.wf(),
        cost.wf(),
        spread_in_range(qty, price, cost),
    ensures
        Some(r) == decimal_checked_mul(qty, exact_difference(price, cost)->0),
        exact_product(qty, exact_difference(price, cost)->0) is Some ==> Some(r) == exact_product(
            qty,
            exact_difference(price, cost)->0,
        ),
        r.wf(),
{
    spread_value(qty, price, cost)
}

/// Today's profit = quantity × (price − previous close).
pub fn today_pnl(qty: Dec, price: Dec, prev_close: Dec) -> (r: Dec)
    requires
        qty.wf(),
        price.wf(),
        prev_close.wf(),
        spread_in_range(qty, price, prev_close),
    ensures
        Some(r) == decimal_checked_mul(qty, exact_difference(price, prev_close)->0),
        exact_product(qty, exact_difference(price, prev_close)->0) is Some ==> Some(r) == exact_product(
            qty,
            exact_difference(price, prev_close)->0,
        ),
        r.wf(),
{
    spread_value(qty, price, prev_close)
}

/// `(a op b)` where `op` may overflow: `Err` on overflow.
pub open spec fn or_overflow(r: Option<Dec>) -> Result<Dec, DecimalOverflow> {
    match r {
        Some(v) => Ok(v),
        None => Err(DecimalOverflow),
    }
}

/// `n / d × 100` as `rust_decimal` computes it; `Err` when a step overflows.
pub open spec fn percent_of(n: Dec, d: Dec) -> Result<Dec, DecimalOverflow> {
    match decimal_checked_div(n, d) {
        Some(q) => or_overflow(decimal_checked_mul(q, hundred())),
        None => Err(DecimalOverflow),
    }
}

fn percent_of_exec(n: Dec, d: Dec) -> (r: Result<Dec, DecimalOverflow>)
    requires
        n.wf(),
        d.wf(),
    ensures
        r == percent_of(n, d),
        r is Ok ==> r->Ok_0.wf(),
{
    match checked_div(n, d) {
        Some(q) => match checked_mul(q, hundred_exec()) {
            Some(v) => Ok(v),
            None => Err(DecimalOverflow),
        },
        None => Err(DecimalOverflow),
    }
}

/// The outcome of the profit rate: `Ok(None)` for a zero cost, otherwise
/// `(price − cost) / cost × 100`; `Err` when a step overflows.
pub open spec fn pnl_rate_outcome(price: Dec, cost: Dec) -> Result<Option<Dec>, DecimalOverflow> {
    if cost.mantissa == 0 {
        Ok(None)
    } else {
        match decimal_checked_sub(price, cost) {
            Some(d) => match percent_of(d, cost) {
                Ok(v) => Ok(Some(v)),
                Err(e) => Err(e),
            },
            None => Err(DecimalOverflow),
        }
    }
}

/// Profit rate (%) = (price − cost) / cost × 100, or `Err` where a step overflows.
pub fn try_pnl_rate(price: Dec, cost: Dec) -> (r: Result<Option<Dec>, DecimalOverflow>)
    requires
        price.wf(),
        cost.wf(),
    ensures
        r == pnl_rate_outcome(price, cost),
        r matches Ok(Some(v)) ==> v.wf(),
{
    if cost.is_zero() {
        return Ok(None);
    }
    match checked_sub(price, cost) {
        Some(d) => match percent_of_exec(d, cost) {
            Ok(v) => Ok(Some(v)),
            Err(e) => Err(e),
        },
        None => Err(DecimalOverflow),
    }
}

/// Profit rate (%) = (price − cost) / cost × 100; `None` when the cost is zero.
pub fn pnl_rate(price: Dec, cost: Dec) -> (r: Option<Dec>)
    requires
        price.wf(),
        cost.wf(),
        pnl_rate_outcome(price, cost) is Ok,
    ensures
        pnl_rate_outcome(price, cost) == Ok::<Option<Dec>, DecimalOverflow>(r),
        r is None <==> cost.mantissa == 0,
{
    match try_pnl_rate(price, cost) {
        Ok(r) => r,
        Err(_) => None,
    }
}

/// The outcome of the position ratio: `Ok(None)` for a zero total, otherwise
/// `market_value / total_value × 100`; `Err` when a step overflows.
pub open spec fn position_ratio_outcome(market_value: Dec, total_value: Dec) -> Result<Option<Dec>, DecimalOverflow> {
    if total_value.mantissa == 0 {
        Ok(None)
    } else {
        match percent_of(market_value, total_value) {
            Ok(v) => Ok(Some(v)),
            Err(e) => Err(e),
        }
    }
}

/// Position ratio (%) = market value / total value × 100, or `Err` where a step overflows.
pub fn try_position_ratio(market_value: Dec, total_value: Dec) -> (r: Result<Option<Dec>, DecimalOverflow>)
    requires
        market_value.wf(),
        total_value.wf(),
    ensures
        r == position_ratio_outcome(market_value, total_value),
{
    if total_value.is_zero() {
        return Ok(None);
    }
    match percent_of_exec(market_value, total_value) {
        Ok(v) => Ok(Some(v)),
        Err(e) => Err(e),
    }
}

/// Position ratio (%) = market value / total value × 100; `None` when the total is zero.
pub fn position_ratio(market_value: Dec, total_value: Dec) -> (r: Option<Dec>)
    requires
        market_value.wf(),
        total_value.wf(),
        position_ratio_outcome(market_value, total_value) is Ok,
    ensures
        position_ratio_outcome(market_value, total_value) == Ok::<Option<Dec>, DecimalOverflow>(r),
        r is None <==> total_value.mantissa == 0,
{
    match try_position_ratio(market_value, total_value) {
        Ok(r) => r,
        Err(_) => None,
    }
}

/// A position with its quote, for the summary.
#[derive(Debug)]
pub struct PositionQuote {
    pub secid: String,
    pub cost_price: Dec,
    pub quantity: Dec,
    pub current_price: Dec,
    pub prev_close: Dec,
}

impl PositionQuote {
    /// All four numbers are well-formed decimals.
    pub open spec fn wf(&self) -> bool {
        &&& self.cost_price.wf()
        &&& self.quantity.wf()
        &&& self.current_price.wf()
        &&& self.prev_close.wf()
    }
}

/// The portfolio summary, as text: money to 2 fractional digits, rates (%) to 4.
#[derive(Debug)]
pub struct PortfolioSummary {
    pub total_market_value: String,
    pub total_float_pnl: String,
    pub total_pnl_rate: String,
    pub total_today_pnl: String,
    pub today_pnl_rate: String,
    pub benchmark_change: Option<String>,
    pub excess_return: Option<String>,
}

/// The figures behind a summary, before rounding.
#[derive(Debug, Clone, Copy, PartialEq, Eq, Structural)]
pub struct SummaryFigures {
    pub market_value: Dec,
    pub float_pnl: Dec,
    pub pnl_rate: Dec,
    pub today_pnl: Dec,
    pub today_pnl_rate: Dec,
    pub excess_return: Option<Dec>,
}

/// `a + b` of two optional results (`None` when either is missing or the sum overflows).
pub open spec fn add_opt(a: Option<Dec>, b: Option<Dec>) -> Option<Dec> {
    match (a, b) {
        (Some(x), Some(y)) => decimal_checked_add(x, y),
        _ => None,
    }
}

/// `q * (a - b)` as the summary computes it (`None` on overflow).
pub open spec fn spread_opt(q: Dec, a: Dec, b: Dec) -> Option<Dec> {
    match decimal_checked_sub(a, b) {
        Some(d) => decimal_checked_mul(q, d),
        None => None,
    }
}

/// The running totals (cost, market value, floating profit, today's profit) over the first
/// `n` positions, each added in turn to totals that start at zero; `Err` when a step
/// overflows.
pub open spec fn totals_after(ps: Seq<PositionQuote>, n: nat) -> Result<(Dec, Dec, Dec, Dec), DecimalOverflow>
    decreases n,
{
    if n == 0 || n > ps.len() {
        Ok((Dec::exact(0, 0), Dec::exact(0, 0), Dec::exact(0, 0), Dec::exact(0, 0)))
    } else {
        match totals_after(ps, (n - 1) as nat) {
            Err(e) => Err(e),
            Ok(t) => {
                let p = ps[n - 1];
                let cost = add_opt(Some(t.0), decimal_checked_mul(p.quantity, p.cost_price));
                let mv = add_opt(Some(t.1), decimal_checked_mul(p.quantity, p.current_price));
                let fl = add_opt(Some(t.2), spread_opt(p.quantity, p.current_price, p.cost_price));
                let td = add_opt(Some(t.3), spread_opt(p.quantity, p.current_price, p.prev_close));
                if cost is Some && mv is Some && fl is Some && td is Some {
                    Ok((cost->0, mv->0, fl->0, td->0))
                } else {
                    Err(DecimalOverflow)
                }
            },
        }
    }
}

/// `n / d × 100`, or zero when `d` is zero.
pub open spec fn rate_or_zero(n: Dec, d: Dec) -> Result<Dec, DecimalOverflow> {
    if d.mantissa == 0 {
        Ok(Dec::exact(0, 0))
    } else {
        percent_of(n, d)
    }
}

/// The summary figures of the positions against an optional benchmark change: total
/// market value and floating profit, the total profit rate `(value − cost) / cost × 100`
/// (zero for a zero cost), today's profit and its rate against yesterday's value
/// `today / (value − today) × 100` (zero when that is zero), and the excess return over the
/// benchmark. `Err` when a step overflows.
pub open spec fn summary_figures(ps: Seq<PositionQuote>, bc: Option<Dec>) -> Result<SummaryFigures, DecimalOverflow> {
    match totals_after(ps, ps.len()) {
        Err(e) => Err(e),
        Ok(t) => {
            let (cost, mv, fl, td) = t;
            let rate = if cost.mantissa == 0 {
                Ok(Dec::exact(0, 0))
            } else {
                match decimal_checked_sub(mv, cost) {
                    Some(d) => percent_of(d, cost),
                    None => Err(DecimalOverflow),
                }
            };
            match (rate, decimal_checked_sub(mv, td)) {
                (Ok(rate), Some(yesterday)) => match rate_or_zero(td, yesterday) {
                    Ok(trate) => {
                        let excess = match bc {
                            Some(b) => decimal_checked_sub(rate, b),
                            None => None,
                        };
                        if bc is Some && excess is None {
                            Err(DecimalOverflow)
                        } else {
                            Ok(
                                SummaryFigures {
                                    market_value: mv,
                                    float_pnl: fl,
                                    pnl_rate: rate,
                                    today_pnl: td,
                                    today_pnl_rate: trate,
                                    excess_return: excess,
                                },
                            )
                        }
                    },
                    Err(e) => Err(e),
                },
                _ => Err(DecimalOverflow),
            }
        },
    }
}

/// The text of `d` rounded to `dp` fractional digits.
pub open spec fn text_at(d: Dec, dp: nat) -> Seq<char> {
    decimal_text(rounded(d, dp))
}

/// `s` is the text of an optional number rounded to `dp` digits.
pub open spec fn opt_text_at(s: Option<String>, d: Option<Dec>, dp: nat) -> bool {
    match d {
        Some(x) => s is Some && s->0@ == text_at(x, dp),
        None => s is None,
    }
}

/// `s` shows the figures `f` and the benchmark change `bc`.
pub open spec fn summary_shows(s: PortfolioSummary, f: SummaryFigures, bc: Option<Dec>) -> bool {
    &&& s.total_market_value@ == text_at(f.market_value, 2)
    &&& s.total_float_pnl@ == text_at(f.float_pnl, 2)
    &&& s.total_pnl_rate@ == text_at(f.pnl_rate, 4)
    &&& s.total_today_pnl@ == text_at(f.today_pnl, 2)
    &&& s.today_pnl_rate@ == text_at(f.today_pnl_rate, 4)
    &&& opt_text_at(s.benchmark_change, bc, 4)
    &&& opt_text_at(s.excess_return, f.excess_return, 4)
}

/// An overflow in the totals stays an overflow as more positions are added.
proof fn lemma_totals_overflow_persists(ps: Seq<PositionQuote>, n: nat, m: nat)
    requires
        totals_after(ps, n) is Err,
        n <= m <= ps.len(),
    ensures
        totals_after(ps, m) is Err,
    decreases m - n,
{
    if n < m {
        lemma_totals_overflow_persists(ps, n, (m - 1) as nat);
        assert(totals_after(ps, m) is Err);
    }
}

fn text_at_exec(d: Dec, dp: u32) -> (r: String)
    requires
        d.wf(),
    ensures
        r@ == text_at(d, dp as nat),
{
    decimal_to_string(round_dp(d, dp))
}

/// Sums the positions into a summary; `Err` where a step of the decimal arithmetic
/// overflows.
pub fn try_summarize(positions: &[PositionQuote], benchmark_change: Option<Dec>) -> (r: Result<PortfolioSummary, DecimalOverflow>)
    requires
        forall|i: int| 0 <= i < positions@.len() ==> (#[trigger] positions@[i]).wf(),
        benchmark_change matches Some(b) ==> b.wf(),
    ensures
        match r {
            Ok(s) => summary_figures(positions@, benchmark_change) is Ok && summary_shows(
                s,
                summary_figures(positions@, benchmark_change)->Ok_0,
                benchmark_change,
            ),
            Err(_) => summary_figures(positions@, benchmark_change) is Err,
        },
{
    let ghost ps = positions@;
    let mut cost = Dec::zero();
    let mut mv = Dec::zero();
    let mut fl = Dec::zero();
    let mut td = Dec::zero();
    let mut i: usize = 0;
    while i < positions.len()
        invariant
            ps == positions@,
            i <= ps.len(),
            forall|j: int| 0 <= j < ps.len() ==> (#[trigger] ps[j]).wf(),
            totals_after(ps, i as nat) == Ok::<(Dec, Dec, Dec, Dec), DecimalOverflow>((cost, mv, fl, td)),
            cost.wf(),
            mv.wf(),
            fl.wf(),
            td.wf(),
        decreases ps.len() - i,
    {
        let p = &positions[i];
        assert(p.wf());
        let step_cost = checked_mul(p.quantity, p.cost_price);
        let step_mv = checked_mul(p.quantity, p.current_price);
        let step_fl = match checked_sub(p.current_price, p.cost_price) {
            Some(d) => checked_mul(p.quantity, d),
            None => None,
        };
        let step_td = match checked_sub(p.current_price, p.prev_close) {
            Some(d) => checked_mul(p.quantity, d),
            None => None,
        };
        let new_cost = match step_cost {
            Some(x) => checked_add(cost, x),
            None => None,
        };
        let new_mv = match step_mv {
            Some(x) => checked_add(mv, x),
            None => None,
        };
        let new_fl = match step_fl {
            Some(x) => checked_add(fl, x),
            None => None,
        };
        let new_td = match step_td {
            Some(x) => checked_add(td, x),
            None => None,
        };
        assert(totals_after(ps, (i + 1) as nat) == {
            if new_cost is Some && new_mv is Some && new_fl is Some && new_td is Some {
                Ok((new_cost->0, new_mv->0, new_fl->0, new_td->0))
            } else {
                Err(DecimalOverflow)
            }
        });
        match (new_cost, new_mv, new_fl, new_td) {
            (Some(a), Some(b), Some(c), Some(d)) => {
                cost = a;
                mv = b;
                fl = c;
                td = d;
            },
            _ => {
                proof {
                    lemma_totals_overflow_persists(ps, (i + 1) as nat, ps.len());
                }
                return Err(DecimalOverflow);
            },
        }
        i = i + 1;
    }
    let zero = Dec::zero();
    let rate = if cost.is_zero() {
        zero
    } else {
        let d = match checked_sub(mv, cost) {
            Some(d) => d,
            None => return Err(DecimalOverflow),
        };
        match percent_of_exec(d, cost) {
            Ok(v) => v,
            Err(e) => return Err(e),
        }
    };
    let yesterday = match checked_sub(mv, td) {
        Some(y) => y,
        None => return Err(DecimalOverflow),
    };
    let trate = if yesterday.is_zero() {
        zero
    } else {
        match percent_of_exec(td, yesterday) {
            Ok(v) => v,
            Err(e) => return Err(e),
        }
    };
    let excess = match benchmark_change {
        Some(b) => match checked_sub(rate, b) {
            Some(e) => Some(e),
            None => return Err(DecimalOverflow),
        },
        None => None,
    };
    let bc_text = match benchmark_change {
        Some(b) => Some(text_at_exec(b, 4)),
        None => None,
    };
    let excess_text = match excess {
        Some(e) => Some(text_at_exec(e, 4)),
        None => None,
    };
    Ok(
        PortfolioSummary {
            total_market_value: text_at_exec(mv, 2),
            total_float_pnl: text_at_exec(fl, 2),
            total_pnl_rate: text_at_exec(rate, 4),
            total_today_pnl: text_at_exec(td, 2),
            today_pnl_rate: text_at_exec(trate, 4),
            benchmark_change: bc_text,
            excess_return: excess_text,
        },
    )
}

/// Sums the positions into a summary (see [`summary_figures`]).
pub fn summarize(positions: &[PositionQuote], benchmark_change: Option<Dec>) -> (r: PortfolioSummary)
    requires
        forall|i: int| 0 <= i < positions@.len() ==> (#[trigger] positions@[i]).wf(),
        benchmark_change matches Some(b) ==> b.wf(),
        summary_figures(positions@, benchmark_change) is Ok,
    ensures
        summary_shows(r, summary_figures(positions@, benchmark_change)->Ok_0, benchmark_change),
{
    match try_summarize(positions, benchmark_change) {
        Ok(s) => s,
        Err(_) => {
            proof {
                assert(false);
            }
            PortfolioSummary {
                total_market_value: String::new(),
                total_float_pnl: String::new(),
                total_pnl_rate: String::new(),
                total_today_pnl: String::new(),
                today_pnl_rate: String::new(),
                benchmark_change: None,
                excess_return: None,
            }
        },
    }
}

} // verus!
