use transcriberbin::controller::TranscriberBin;
use transcriberbin::latency::{added_latency, reported_min_latency};
use transcriberbin::settings::{Cea608Mode, Fraction, Settings};

#[test]
fn defaults() {
    let s = Settings::default();
    assert!(!s.passthrough);
    assert_eq!(s.latency_ms, 4000);
    assert_eq!(s.accumulate_ms, 0);
    assert_eq!(s.mode, Cea608Mode::RollUp2);
    assert!(Cea608Mode::RollUp4.is_rollup());
    assert!(!Cea608Mode::PaintOn.is_rollup());
}

#[test]
fn bypass_adds_full_budget() {
    let mut bin = TranscriberBin::new();
    bin.constructed(Some(1));
    bin.video_sink_event(Some(Fraction::new(25, 1)));
    bin.set_passthrough(true);
    assert_eq!(bin.src_query_latency(Some(20_000_000)), Some(4_020_000_000));
    assert_eq!(bin.src_query_latency(None), None);
}

#[test]
fn unknown_framerate_adds_full_budget() {
    let mut bin = TranscriberBin::new();
    bin.set_accumulate_time(500);
    assert_eq!(bin.src_query_latency(Some(0)), Some(4_500_000_000));
}

#[test]
fn rolling_style_adds_nothing_when_enriched() {
    let mut bin = TranscriberBin::new();
    bin.constructed(Some(1));
    bin.set_accumulate_time(500);
    bin.video_sink_event(Some(Fraction::new(25, 1)));
    assert_eq!(bin.src_query_latency(Some(33_000_000)), Some(33_000_000));
    bin.set_mode(Cea608Mode::PopOn);
    assert_eq!(bin.src_query_latency(Some(33_000_000)), Some(533_000_000));
}

#[test]
fn latency_formula() {
    let mut s = Settings::default();
    s.passthrough = true;
    s.accumulate_ms = 0;
    assert_eq!(added_latency(&s, true), 4_000_000_000);
    assert_eq!(reported_min_latency(7, &s, true), Some(4_000_000_007));
    assert_eq!(reported_min_latency(u64::MAX - 1, &s, true), None);
    // The largest value stands for "no time": a sum reaching it is refused.
    assert_eq!(reported_min_latency(u64::MAX - 4_000_000_000, &s, true), None);
    assert_eq!(
        reported_min_latency(u64::MAX - 4_000_000_001, &s, true),
        Some(u64::MAX - 1)
    );
    s.passthrough = false;
    s.accumulate_ms = 500;
    s.mode = Cea608Mode::RollUp2;
    assert_eq!(reported_min_latency(7, &s, true), Some(7));
    s.mode = Cea608Mode::PaintOn;
    assert_eq!(reported_min_latency(7, &s, true), Some(500_000_007));
    s.latency_ms = u32::MAX;
    s.accumulate_ms = u32::MAX;
    assert_eq!(added_latency(&s, false), 2 * (u32::MAX as u64) * 1_000_000);
}
