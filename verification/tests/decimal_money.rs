use rust_decimal::Decimal;
use std::str::FromStr;
use tickpulse::analysis::peg::{PegCalculator, PegRating};
use tickpulse::db::position::{
    float_pnl, market_value, pnl_rate, position_ratio, summarize, today_pnl, try_pnl_rate,
    try_summarize, DecimalOverflow, PositionQuote,
};
use tickpulse::decimal::Dec;

fn of(x: Decimal) -> Dec {
    Dec { mantissa: x.mantissa(), scale: x.scale(), negative: x.is_sign_negative() }
}

fn d(s: &str) -> Dec {
    of(Decimal::from_str(s).unwrap())
}

fn whole(n: i64) -> Dec {
    of(Decimal::from(n))
}

fn back(x: Dec) -> Decimal {
    let mut r = Decimal::from_i128_with_scale(x.mantissa, x.scale);
    r.set_sign_negative(x.negative);
    r
}

#[test]
fn test_market_value() {
    let qty = whole(1000);
    let price = d("25.50");
    let mv = market_value(qty, price);
    assert_eq!(back(mv), Decimal::from_str("25500").unwrap());
}

#[test]
fn test_float_pnl() {
    let qty = whole(500);
    let price = d("30.00");
    let cost = d("25.00");
    let pnl = float_pnl(qty, price, cost);
    assert_eq!(back(pnl), Decimal::from_str("2500").unwrap());
}

#[test]
fn test_pnl_rate() {
    let price = d("30.00");
    let cost = d("25.00");
    let rate = pnl_rate(price, cost).unwrap();
    assert_eq!(back(rate), Decimal::from_str("20.0000").unwrap());
}

#[test]
fn test_pnl_rate_zero_cost() {
    let price = d("30.00");
    let cost = of(Decimal::ZERO);
    assert!(pnl_rate(price, cost).is_none());
}

#[test]
fn test_today_pnl() {
    let qty = whole(1000);
    let price = d("10.50");
    let prev_close = d("10.00");
    let pnl = today_pnl(qty, price, prev_close);
    assert_eq!(back(pnl), Decimal::from_str("500").unwrap());
}

#[test]
fn test_position_ratio() {
    let mv = d("25000");
    let total = d("100000");
    let ratio = position_ratio(mv, total).unwrap();
    assert_eq!(back(ratio), Decimal::from_str("25.0000").unwrap());
}

#[test]
fn test_summarize() {
    let positions = vec![
        PositionQuote {
            secid: "1.600519".to_string(),
            cost_price: d("1800.00"),
            quantity: whole(10),
            current_price: d("1850.00"),
            prev_close: d("1840.00"),
        },
        PositionQuote {
            secid: "0.000001".to_string(),
            cost_price: d("12.00"),
            quantity: whole(1000),
            current_price: d("12.50"),
            prev_close: d("12.30"),
        },
    ];
    let summary = summarize(&positions, Some(d("1.5")));
    assert_eq!(summary.total_market_value, "31000.00");
    assert_eq!(summary.total_float_pnl, "1000.00");
    assert!(summary.excess_return.is_some());
}

#[test]
fn summary_figures_in_full() {
    let positions = vec![
        PositionQuote {
            secid: "1.600519".to_string(),
            cost_price: d("1800.00"),
            quantity: whole(10),
            current_price: d("1850.00"),
            prev_close: d("1840.00"),
        },
        PositionQuote {
            secid: "0.000001".to_string(),
            cost_price: d("12.00"),
            quantity: whole(1000),
            current_price: d("12.50"),
            prev_close: d("12.30"),
        },
    ];
    let s = summarize(&positions, Some(d("1.5")));
    // cost 18000 + 12000 = 30000, value 31000: rate 1000 / 30000 = 3.3333..%
    assert_eq!(s.total_pnl_rate, "3.3333");
    // today 100 + 200 = 300 against yesterday 30700
    assert_eq!(s.total_today_pnl, "300.00");
    assert_eq!(s.today_pnl_rate, "0.9772");
    assert_eq!(s.benchmark_change.as_deref(), Some("1.5"));
    assert_eq!(s.excess_return.as_deref(), Some("1.8333"));
}

#[test]
fn summary_of_nothing_is_zero() {
    let s = summarize(&[], None);
    assert_eq!(s.total_market_value, "0");
    assert_eq!(s.total_float_pnl, "0");
    assert_eq!(s.total_pnl_rate, "0");
    assert_eq!(s.today_pnl_rate, "0");
    assert!(s.benchmark_change.is_none());
    assert!(s.excess_return.is_none());
}

#[test]
fn summary_rounds_half_to_even() {
    let positions = vec![PositionQuote {
        secid: "x".to_string(),
        cost_price: d("1.005"),
        quantity: whole(1),
        current_price: d("1.000"),
        prev_close: d("1.000"),
    }];
    let s = summarize(&positions, None);
    // 1.000 stays with 3 digits -> rounded to 2 gives 1.00
    assert_eq!(s.total_market_value, "1.00");
    // -0.005 rounds half to even to zero, which prints without a sign
    assert_eq!(s.total_float_pnl, "0.00");
    // -0.015 rounds half to even to -0.02
    let positions = vec![PositionQuote {
        secid: "y".to_string(),
        cost_price: d("1.015"),
        quantity: whole(1),
        current_price: d("1.000"),
        prev_close: d("1.000"),
    }];
    assert_eq!(summarize(&positions, None).total_float_pnl, "-0.02");
}

#[test]
fn summary_overflow_is_reported() {
    let huge = of(Decimal::MAX);
    let positions = vec![
        PositionQuote {
            secid: "a".to_string(),
            cost_price: huge,
            quantity: whole(1),
            current_price: huge,
            prev_close: huge,
        },
        PositionQuote {
            secid: "b".to_string(),
            cost_price: huge,
            quantity: whole(1),
            current_price: huge,
            prev_close: huge,
        },
    ];
    assert_eq!(try_summarize(&positions, None).err(), Some(DecimalOverflow));
    assert_eq!(try_pnl_rate(huge, d("0.0000000001")), Err(DecimalOverflow));
}

#[test]
fn test_calc_peg() {
    let pe = whole(20);
    let cagr = d("15.0");
    let peg = PegCalculator::calc_peg(pe, cagr).unwrap();
    assert_eq!(back(peg), Decimal::from_str("1.3333").unwrap().round_dp(4));
}

#[test]
fn test_calc_peg_zero_growth() {
    let pe = whole(20);
    let cagr = of(Decimal::ZERO);
    assert!(PegCalculator::calc_peg(pe, cagr).is_none());
}

#[test]
fn calc_peg_negative_growth() {
    assert!(PegCalculator::calc_peg(whole(20), d("-3.5")).is_none());
}

#[test]
fn test_peg_rating_boundaries() {
    assert_eq!(PegRating::from_peg(d("0.3")), PegRating::ExtremelyUndervalued);
    assert_eq!(PegRating::from_peg(d("0.7")), PegRating::Undervalued);
    assert_eq!(PegRating::from_peg(d("1.0")), PegRating::Fair);
    assert_eq!(PegRating::from_peg(d("1.3")), PegRating::Overvalued);
    assert_eq!(PegRating::from_peg(d("2.0")), PegRating::ExtremelyOvervalued);
}

#[test]
fn peg_rating_edges() {
    assert_eq!(PegRating::from_peg(d("0.5")), PegRating::Undervalued);
    assert_eq!(PegRating::from_peg(d("0.49999")), PegRating::ExtremelyUndervalued);
    assert_eq!(PegRating::from_peg(d("0.80")), PegRating::Fair);
    assert_eq!(PegRating::from_peg(d("1.200")), PegRating::Fair);
    assert_eq!(PegRating::from_peg(d("1.2001")), PegRating::Overvalued);
    assert_eq!(PegRating::from_peg(d("1.5")), PegRating::Overvalued);
    assert_eq!(PegRating::from_peg(d("1.50001")), PegRating::ExtremelyOvervalued);
    assert_eq!(PegRating::from_peg(d("-1")), PegRating::ExtremelyUndervalued);
}

#[test]
fn peg_rating_labels_and_scores() {
    assert_eq!(PegRating::Fair.display(), "合理");
    assert_eq!(PegRating::ExtremelyOvervalued.display(), "严重高估");
    assert_eq!(PegRating::ExtremelyUndervalued.score_points(), 95);
    assert_eq!(PegRating::Overvalued.score_points(), 30);
}

#[test]
fn cagr_ratio_and_guards() {
    let r = PegCalculator::try_cagr_ratio(whole(100), whole(200), whole(5)).unwrap().unwrap();
    assert_eq!(back(r), Decimal::from(2));
    assert_eq!(PegCalculator::try_cagr_ratio(whole(0), whole(200), whole(5)), Ok(None));
    assert_eq!(PegCalculator::try_cagr_ratio(whole(100), whole(-1), whole(5)), Ok(None));
    assert_eq!(PegCalculator::try_cagr_ratio(whole(100), whole(200), whole(0)), Ok(None));
}

#[test]
fn pe_digestion_years_formula() {
    // 20 * (1 - 0.4) / (15 / 100) = 12 / 0.15 = 80
    let y = PegCalculator::pe_digestion_years(whole(20), d("0.4"), whole(15)).unwrap();
    assert_eq!(back(y), Decimal::from(80));
    assert!(PegCalculator::pe_digestion_years(whole(20), d("0.4"), whole(0)).is_none());
}
