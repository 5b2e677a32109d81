use flowsurface::chart::{autoscale_on_price_axis_reset, toggle_autoscale, Autoscale};
use flowsurface::chart::scale::timeseries::calc_time_step as calc_time_step_tf;
use flowsurface::chart::study::{Action, ChartStudy, Message};
use flowsurface::charts::indicators::{
    CandlestickIndicator, FootprintIndicator, HeatmapIndicator as ChartsHeatmapIndicator,
    Indicator as ChartsIndicator,
};
use flowsurface::charts::scales::timeseries::calc_time_step;
use flowsurface::charts::ChartBasis;
use flowsurface::data::chart::kline::FootprintStudy;
use flowsurface::exchanges::adapter::MarketType;
use flowsurface::exchanges::Timeframe;

#[test]
fn time_step_for_one_minute_klines() {
    // a 4 hour range fitting 5 labels: one hour steps (240/60 = 4 < 5,
    // 240/30 = 8 >= 5 picks 30 minutes)
    let (step, first) = calc_time_step(1_000_000, 1_000_000 + 4 * 3_600_000, 5, 60_000);
    assert_eq!(step, 30 * 60_000);
    assert_eq!(first, 0);
    let (step2, first2) = calc_time_step_tf(1_000_000, 1_000_000 + 4 * 3_600_000, 5, Timeframe::M1);
    assert_eq!((step2, first2), (step, first));
}

#[test]
fn time_step_falls_back_to_largest_fitting_step() {
    // cannot fit 100 labels: the last step no longer than the range
    let (step, first) = calc_time_step(7_200_000, 7_200_000 + 600_000, 100, 60_000);
    assert_eq!(step, 60_000);
    assert_eq!(first, 7_200_000);
}

#[test]
fn time_step_sub_minute_and_three_minute_variants() {
    let (step, _) = calc_time_step(0, 1_000, 3, 100);
    assert_eq!(step, 200);
    // both label step tables hold a six hour step for three minute klines
    let (a, _) = calc_time_step(0, 6 * 3_600_000, 1, 180_000);
    let (b, _) = calc_time_step_tf(0, 6 * 3_600_000, 1, Timeframe::M3);
    assert_eq!(a, 360 * 60_000);
    assert_eq!(b, 360 * 60_000);
}

#[test]
fn first_label_is_aligned() {
    let (step, first) = calc_time_step(1_234_567, 1_234_567 + 3_600_000, 4, 300_000);
    assert!(first <= 1_234_567 && 1_234_567 < first + step);
    assert_eq!(first % step, 0);
}

#[test]
fn chart_basis_labels() {
    assert!(ChartBasis::Time(60_000).is_time());
    assert!(!ChartBasis::Tick(100).is_time());
    assert_eq!(ChartBasis::Time(900_000).label(), "15m");
    assert_eq!(ChartBasis::Time(250).label(), "250ms");
    assert_eq!(ChartBasis::Tick(100).label(), "100T");
}

#[test]
fn study_card_toggles() {
    let mut s = ChartStudy::new();
    let npoc = FootprintStudy::NPoC { lookback: 80 };
    assert_eq!(s.update(Message::CardToggled(npoc)), Action::Nothing);
    assert_eq!(s.expanded_card, Some(npoc));
    // same study with other settings collapses the card
    s.update(Message::CardToggled(FootprintStudy::NPoC { lookback: 10 }));
    assert_eq!(s.expanded_card, None);
    let imb = FootprintStudy::Imbalance { threshold: 200, color_scale: None, ignore_zeros: true };
    s.update(Message::CardToggled(npoc));
    s.update(Message::CardToggled(imb));
    assert_eq!(s.expanded_card, Some(imb));
    assert_eq!(s.update(Message::StudyToggled(npoc, true)), Action::ToggleStudy(npoc, true));
    assert_eq!(s.update(Message::StudyValueChanged(imb)), Action::ConfigureStudy(imb));
    assert_eq!(s.expanded_card, Some(imb));
}

#[test]
fn charts_indicators_by_market() {
    assert_eq!(
        CandlestickIndicator::get_available(Some(MarketType::Spot)),
        &[CandlestickIndicator::Volume]
    );
    assert_eq!(CandlestickIndicator::get_available(None).len(), 2);
    assert_eq!(ChartsHeatmapIndicator::get_available(Some(MarketType::LinearPerps)).len(), 1);
    let enabled = FootprintIndicator::get_enabled(
        &[FootprintIndicator::OpenInterest, FootprintIndicator::Volume],
        Some(MarketType::Spot),
    );
    assert_eq!(enabled, vec![FootprintIndicator::Volume]);
    let enabled = FootprintIndicator::get_enabled(
        &[FootprintIndicator::OpenInterest, FootprintIndicator::Volume],
        Some(MarketType::LinearPerps),
    );
    assert_eq!(enabled, vec![FootprintIndicator::Volume, FootprintIndicator::OpenInterest]);
}

#[test]
fn three_minute_klines_use_six_hour_step() {
    assert_eq!(calc_time_step(0, 43_200_000, 2, 180_000), (21_600_000, 0));
    assert_eq!(calc_time_step_tf(0, 43_200_000, 2, Timeframe::M3), (21_600_000, 0));
}

#[test]
fn autoscale_toggle_cycle() {
    let a = toggle_autoscale(None, true);
    assert_eq!(a, Some(Autoscale::CenterLatest));
    let b = toggle_autoscale(a, true);
    assert_eq!(b, Some(Autoscale::FitToVisible));
    assert_eq!(toggle_autoscale(b, true), None);
    assert_eq!(toggle_autoscale(Some(Autoscale::CenterLatest), false), None);
    assert_eq!(autoscale_on_price_axis_reset(true), Autoscale::FitToVisible);
    assert_eq!(autoscale_on_price_axis_reset(false), Autoscale::CenterLatest);
}
