//! PEG valuation: PEG = PE / growth, its five-level rating, the growth ratio behind CAGR
//! and the years it takes growth to digest a PE.
use vstd::prelude::*;
use crate::db::position::{hundred, or_overflow, DecimalOverflow};
use crate::decimal::{
    at_most, checked_div, checked_mul, checked_sub, decimal_checked_div, decimal_checked_mul,
    decimal_checked_sub, lemma_at_most_at_most, lemma_at_most_less_than, less_than, round_dp, rounded, Dec,
};

verus! {

/// PEG rating.
#[derive(Debug, Clone, Copy, PartialEq, Eq, Structural)]
pub enum PegRating {
    /// PEG < 0.5
    ExtremelyUndervalued,
    /// 0.5 <= PEG < 0.8
    Undervalued,
    /// 0.8 <= PEG <= 1.2
    Fair,
    /// 1.2 < PEG <= 1.5
    Overvalued,
    /// PEG > 1.5
    ExtremelyOvervalued,
}

/// The decimal `m / 10` (one fractional digit).
pub open spec fn tenths(m: int) -> Dec {
    Dec::exact(m, 1)
}

fn tenths_exec(m: i64) -> (r: Dec)
    requires
        0 <= m < 1000,
    ensures
        r == tenths(m as int),
        r.wf(),
{
    Dec { mantissa: m as i128, scale: 1, negative: false }
}

/// The rating of a PEG value: below 0.5, below 0.8, up to 1.2, up to 1.5, above.
pub open spec fn peg_rating_of(peg: Dec) -> PegRating {
    if peg.less_than(tenths(5)) {
        PegRating::ExtremelyUndervalued
    } else if peg.less_than(tenths(8)) {
        PegRating::Undervalued
    } else if !tenths(12).less_than(peg) {
        PegRating::Fair
    } else if !tenths(15).less_than(peg) {
        PegRating::Overvalued
    } else {
        PegRating::ExtremelyOvervalued
    }
}

impl PegRating {
    /// Rates a PEG value.
    pub fn from_peg(peg: Dec) -> (r: PegRating)
        requires
            peg.wf(),
        ensures
            r == peg_rating_of(peg),
    {
        if less_than(peg, tenths_exec(5)) {
            PegRating::ExtremelyUndervalued
        } else if less_than(peg, tenths_exec(8)) {
            PegRating::Undervalued
        } else if at_most(peg, tenths_exec(12)) {
            PegRating::Fair
        } else if at_most(peg, tenths_exec(15)) {
            PegRating::Overvalued
        } else {
            PegRating::ExtremelyOvervalued
        }
    }

    /// The rating's label.
    pub fn display(&self) -> (r: &'static str)
        ensures
            r@ == match *self {
                PegRating::ExtremelyUndervalued => "严重低估"@,
                PegRating::Undervalued => "低估"@,
                PegRating::Fair => "合理"@,
                PegRating::Overvalued => "高估"@,
                PegRating::ExtremelyOvervalued => "严重高估"@,
            },
    {
        match self {
            PegRating::ExtremelyUndervalued => "严重低估",
            PegRating::Undervalued => "低估",
            PegRating::Fair => "合理",
            PegRating::Overvalued => "高估",
            PegRating::ExtremelyOvervalued => "严重高估",
        }
    }

    /// The rating's score out of 100 (95, 75, 50, 30, 10 from cheapest to dearest).
    pub fn score_points(&self) -> (r: u32)
        ensures
            r == match *self {
                PegRating::ExtremelyUndervalued => 95u32,
                PegRating::Undervalued => 75u32,
                PegRating::Fair => 50u32,
                PegRating::Overvalued => 30u32,
                PegRating::ExtremelyOvervalued => 10u32,
            },
    {
        match self {
            PegRating::ExtremelyUndervalued => 95,
            PegRating::Undervalued => 75,
            PegRating::Fair => 50,
            PegRating::Overvalued => 30,
            PegRating::ExtremelyOvervalued => 10,
        }
    }
}

/// The outcome of PEG = PE / CAGR, rounded to 4 fractional digits: `Ok(None)` when the
/// growth is not positive, `Err` when the division overflows.
pub open spec fn peg_outcome(pe: Dec, cagr: Dec) -> Result<Option<Dec>, DecimalOverflow> {
    if !Dec::exact(0, 0).less_than(cagr) {
        Ok(None)
    } else {
        match or_overflow(decimal_checked_div(pe, cagr)) {
            Ok(v) => Ok(Some(rounded(v, 4))),
            Err(e) => Err(e),
        }
    }
}

/// The outcome of the PE digestion years `PE × (1 − retention) / (growth / 100)`:
/// `Ok(None)` when the growth is not positive, `Err` when a step overflows.
pub open spec fn digestion_outcome(pe: Dec, retention: Dec, growth: Dec) -> Result<Option<Dec>, DecimalOverflow> {
    if !Dec::exact(0, 0).less_than(growth) {
        Ok(None)
    } else {
        match decimal_checked_sub(Dec::exact(1, 0), retention) {
            Some(kept) => match decimal_checked_mul(pe, kept) {
                Some(num) => match decimal_checked_div(growth, hundred()) {
                    Some(g) => match decimal_checked_div(num, g) {
                        Some(v) => Ok(Some(v)),
                        None => Err(DecimalOverflow),
                    },
                    None => Err(DecimalOverflow),
                },
                None => Err(DecimalOverflow),
            },
            None => Err(DecimalOverflow),
        }
    }
}

/// The outcome of the CAGR growth ratio `end / begin`: `Ok(None)` unless all three inputs
/// are positive, `Err` when the division overflows.
pub open spec fn growth_ratio_outcome(begin: Dec, end: Dec, years: Dec) -> Result<Option<Dec>, DecimalOverflow> {
    if !Dec::exact(0, 0).less_than(begin) || !Dec::exact(0, 0).less_than(end) || !Dec::exact(
        0,
        0,
    ).less_than(years) {
        Ok(None)
    } else {
        match or_overflow(decimal_checked_div(end, begin)) {
            Ok(v) => Ok(Some(v)),
            Err(e) => Err(e),
        }
    }
}

/// PEG calculations.
pub struct PegCalculator;

impl PegCalculator {
    /// PEG = PE / CAGR (%) to 4 fractional digits, or `Err` when the division overflows.
    pub fn try_calc_peg(pe: Dec, cagr: Dec) -> (r: Result<Option<Dec>, DecimalOverflow>)
        requires
            pe.wf(),
            cagr.wf(),
        ensures
            r == peg_outcome(pe, cagr),
            r matches Ok(Some(v)) ==> v.wf(),
    {
        if at_most(cagr, Dec::zero()) {
            return Ok(None);
        }
        match checked_div(pe, cagr) {
            Some(v) => Ok(Some(round_dp(v, 4))),
            None => Err(DecimalOverflow),
        }
    }

    /// PEG = PE / CAGR (%) to 4 fractional digits; `None` when the growth is not positive (PEG means nothing then).
    pub fn calc_peg(pe: Dec, cagr: Dec) -> (r: Option<Dec>)
        requires
            pe.wf(),
            cagr.wf(),
            peg_outcome(pe, cagr) is Ok,
        ensures
            peg_outcome(pe, cagr) == Ok::<Option<Dec>, DecimalOverflow>(r),
            r is None <==> !Dec::exact(0, 0).less_than(cagr),
            r matches Some(v) ==> v.wf(),
    {
        match Self::try_calc_peg(pe, cagr) {
            Ok(r) => r,
            Err(_) => None,
        }
    }

    /// The ratio `end / begin` behind the compound annual growth rate
    /// `(end / begin)^(1 / years) − 1`, or `Err` when the division overflows.
    pub fn try_cagr_ratio(begin: Dec, end: Dec, years: Dec) -> (r: Result<Option<Dec>, DecimalOverflow>)
        requires
            begin.wf(),
            end.wf(),
            years.wf(),
        ensures
            r == growth_ratio_outcome(begin, end, years),
            r matches Ok(Some(v)) ==> v.wf(),
    {
        let zero = Dec::zero();
        if at_most(begin, zero) || at_most(end, zero) || at_most(years, zero) {
            return Ok(None);
        }
        match checked_div(end, begin) {
            Some(v) => Ok(Some(v)),
            None => Err(DecimalOverflow),
        }
    }

    /// PE digestion years = PE × (1 − retention ratio) / (growth % / 100), or `Err` when a
    /// step overflows.
    pub fn try_pe_digestion_years(pe: Dec, retention_ratio: Dec, growth_rate: Dec) -> (r: Result<Option<Dec>, DecimalOverflow>)
        requires
            pe.wf(),
            retention_ratio.wf(),
            growth_rate.wf(),
        ensures
            r == digestion_outcome(pe, retention_ratio, growth_rate),
    {
        if at_most(growth_rate, Dec::zero()) {
            return Ok(None);
        }
        let kept = match checked_sub(Dec::from_int(1), retention_ratio) {
            Some(k) => k,
            None => return Err(DecimalOverflow),
        };
        let num = match checked_mul(pe, kept) {
            Some(n) => n,
            None => return Err(DecimalOverflow),
        };
        let g = match checked_div(growth_rate, Dec::from_int(100)) {
            Some(g) => g,
            None => return Err(DecimalOverflow),
        };
        match checked_div(num, g) {
            Some(v) => Ok(Some(v)),
            None => Err(DecimalOverflow),
        }
    }

    /// PE digestion years = PE × (1 − retention ratio) / (growth % / 100); `None` when the
    /// growth is not positive.
    pub fn pe_digestion_years(pe: Dec, retention_ratio: Dec, growth_rate: Dec) -> (r: Option<Dec>)
        requires
            pe.wf(),
            retention_ratio.wf(),
            growth_rate.wf(),
            digestion_outcome(pe, retention_ratio, growth_rate) is Ok,
        ensures
            digestion_outcome(pe, retention_ratio, growth_rate) == Ok::<Option<Dec>, DecimalOverflow>(r),
            r is None <==> !Dec::exact(0, 0).less_than(growth_rate),
    {
        match Self::try_pe_digestion_years(pe, retention_ratio, growth_rate) {
            Ok(r) => r,
            Err(_) => None,
        }
    }
}

/// The position of a rating from cheapest (0) to dearest (4).
pub open spec fn peg_rating_rank(r: PegRating) -> int {
    match r {
        PegRating::ExtremelyUndervalued => 0,
        PegRating::Undervalued => 1,
        PegRating::Fair => 2,
        PegRating::Overvalued => 3,
        PegRating::ExtremelyOvervalued => 4,
    }
}

/// The PEG rating is monotone: a PEG no larger than another never gets a dearer rating.
pub proof fn lemma_peg_rating_monotone(a: Dec, b: Dec)
    requires
        !b.less_than(a),
    ensures
        peg_rating_rank(peg_rating_of(a)) <= peg_rating_rank(peg_rating_of(b)),
{
    if b.less_than(tenths(5)) {
        lemma_at_most_less_than(a, b, tenths(5));
    } else if b.less_than(tenths(8)) {
        lemma_at_most_less_than(a, b, tenths(8));
    } else if !tenths(12).less_than(b) {
        lemma_at_most_at_most(a, b, tenths(12));
    } else if !tenths(15).less_than(b) {
        lemma_at_most_at_most(a, b, tenths(15));
    }
}

} // verus!
