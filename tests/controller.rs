use transcriberbin::controller::TranscriberBin;
use transcriberbin::model::{Action, ControlError, Lifecycle};
use transcriberbin::settings::{Cea608Mode, Fraction};

const TRANSCRIBER: u64 = 7;

fn enable() -> Vec<Action> {
    vec![
        Action::LinkSplitter,
        Action::LinkCombiner,
        Action::UnlockSubgraph,
        Action::SyncSubgraph,
    ]
}

fn built() -> TranscriberBin {
    let mut bin = TranscriberBin::new();
    bin.constructed(Some(TRANSCRIBER));
    bin
}

fn enriched() -> TranscriberBin {
    let mut bin = built();
    bin.video_sink_event(Some(Fraction::new(25, 1)));
    assert!(bin.is_attached());
    bin
}

#[test]
fn first_caps_sets_up_and_attaches() {
    let mut bin = built();
    let acts = bin.video_sink_event(Some(Fraction::new(25, 1)));
    let mut expected = vec![
        Action::ConfigureCapsFilter { framerate: Fraction::new(25, 1) },
        Action::ConfigureQueues { max_size_time_ns: 4_000_000_000 },
        Action::SetTranscriberLatency { latency_ms: 4000 },
    ];
    expected.extend(enable());
    expected.push(Action::SetCaptionMode { mode: Cea608Mode::RollUp2, accumulate_ns: 0 });
    assert_eq!(acts, expected);
    assert!(bin.is_attached());
    assert!(bin.framerate_known());
}

#[test]
fn toggle_to_current_mode_does_nothing() {
    let mut bin = enriched();
    assert_eq!(bin.set_passthrough(false), vec![]);
    assert!(bin.is_attached());
    bin.set_passthrough(true);
    bin.disable_transcription_bin();
    assert_eq!(bin.set_passthrough(true), vec![]);
    assert!(!bin.is_attached());
    assert!(!bin.is_tearing_down());
}

#[test]
fn disable_goes_through_quiescence_point() {
    let mut bin = enriched();
    assert_eq!(bin.set_passthrough(true), vec![Action::InstallDrainProbe]);
    assert!(bin.is_tearing_down());
    assert!(bin.is_attached());
    assert_eq!(
        bin.disable_transcription_bin(),
        vec![
            Action::UnlinkSplitter,
            Action::UnlinkCombiner,
            Action::LockSubgraph,
            Action::SetSubgraphInert,
        ]
    );
    assert!(!bin.is_attached());
    assert!(!bin.is_tearing_down());
    assert_eq!(bin.set_passthrough(false), enable());
    assert!(bin.is_attached());
}

#[test]
fn rapid_toggles_settle_on_last_request() {
    let mut bin = enriched();
    assert_eq!(bin.set_passthrough(true), vec![Action::InstallDrainProbe]);
    assert_eq!(bin.set_passthrough(false), vec![]);
    assert_eq!(bin.set_passthrough(true), vec![Action::InstallDrainProbe]);
    bin.disable_transcription_bin();
    assert!(!bin.is_attached());
    assert_eq!(bin.set_passthrough(false), enable());
    bin.disable_transcription_bin();
    assert!(!bin.is_tearing_down());
    assert!(bin.is_attached());
    assert!(!bin.settings.passthrough);
}

#[test]
fn enable_requested_during_teardown_is_applied_by_callback() {
    let mut bin = built();
    assert_eq!(bin.set_passthrough(true), vec![Action::InstallDrainProbe]);
    assert_eq!(bin.set_passthrough(false), vec![]);
    let acts = bin.video_sink_event(Some(Fraction::new(25, 1)));
    assert_eq!(
        acts,
        vec![
            Action::ConfigureCapsFilter { framerate: Fraction::new(25, 1) },
            Action::ConfigureQueues { max_size_time_ns: 4_000_000_000 },
            Action::SetTranscriberLatency { latency_ms: 4000 },
        ]
    );
    // Still tearing down: the request and the style wait for the callback.
    assert!(!bin.is_attached());
    assert!(bin.is_tearing_down());
    let mut expected = enable();
    expected.push(Action::SetCaptionMode { mode: Cea608Mode::RollUp2, accumulate_ns: 0 });
    assert_eq!(bin.disable_transcription_bin(), expected);
    assert!(bin.is_attached());
    assert!(!bin.is_tearing_down());
}

#[test]
fn toggles_before_caps_settle_on_last_request() {
    let mut bin = TranscriberBin::new();
    bin.constructed(Some(1));
    assert_eq!(bin.set_passthrough(true), vec![Action::InstallDrainProbe]);
    assert_eq!(bin.set_passthrough(false), vec![]);
    assert_eq!(bin.disable_transcription_bin(), enable());
    assert!(bin.is_attached());
    assert!(!bin.is_tearing_down());
    assert!(!bin.framerate_known());
}

#[test]
fn enable_before_caps_attaches_at_once() {
    let mut bin = built();
    assert_eq!(bin.set_passthrough(true), vec![Action::InstallDrainProbe]);
    assert_eq!(
        bin.disable_transcription_bin(),
        vec![Action::LockSubgraph, Action::SetSubgraphInert]
    );
    assert!(!bin.is_attached());
    assert_eq!(bin.set_passthrough(false), enable());
    assert!(bin.is_attached());
}

#[test]
fn enable_before_caps_does_not_configure_caps_filter() {
    let mut bin = built();
    let mut acts = bin.set_passthrough(true);
    acts.extend(bin.disable_transcription_bin());
    acts.extend(bin.set_passthrough(false));
    assert!(!acts
        .iter()
        .any(|a| matches!(a, Action::ConfigureCapsFilter { .. })));
    assert!(bin.is_attached());
    let acts = bin.video_sink_event(None);
    assert_eq!(acts[0], Action::ConfigureCapsFilter { framerate: Fraction::new(30, 1) });
    let n = acts
        .iter()
        .filter(|a| matches!(a, Action::ConfigureCapsFilter { .. }))
        .count();
    assert_eq!(n, 1);
    // Already attached: the first format does not link a second time.
    assert!(!acts.contains(&Action::LinkSplitter));
    assert!(bin.is_attached());
    assert_eq!(bin.video_sink_event(Some(Fraction::new(60, 1))), vec![]);
}

#[test]
fn hot_swap_before_caps_then_enable_links() {
    let mut bin = built();
    bin.set_passthrough(true);
    bin.disable_transcription_bin();
    assert_eq!(
        bin.set_transcriber(9, Lifecycle::Null),
        Ok(vec![Action::ReplaceTranscriber { old: TRANSCRIBER, new: 9 }])
    );
    assert_eq!(bin.set_passthrough(false), enable());
    assert!(bin.is_attached());
    assert_eq!(bin.transcriber(), Some(9));
}

#[test]
fn style_written_during_teardown_is_applied_by_callback() {
    let mut bin = enriched();
    bin.set_passthrough(true);
    assert_eq!(bin.set_mode(Cea608Mode::PopOn), vec![]);
    assert_eq!(bin.set_passthrough(false), vec![]);
    assert_eq!(
        bin.disable_transcription_bin(),
        vec![Action::SetCaptionMode { mode: Cea608Mode::PopOn, accumulate_ns: 0 }]
    );
    assert!(bin.is_attached());
}

#[test]
fn transcriber_error_falls_back_to_passthrough() {
    let mut bin = enriched();
    assert_eq!(
        bin.handle_error(TRANSCRIBER),
        vec![Action::NotifyPassthrough, Action::ScheduleFallback]
    );
    assert!(bin.settings.passthrough);
    assert_eq!(
        bin.disable_transcription_bin(),
        vec![
            Action::UnlinkSplitter,
            Action::UnlinkCombiner,
            Action::LockSubgraph,
            Action::SetSubgraphInert,
        ]
    );
    assert!(!bin.is_attached());
    assert!(!bin.is_tearing_down());
}

#[test]
fn other_errors_are_forwarded() {
    let mut bin = enriched();
    assert_eq!(bin.handle_error(TRANSCRIBER + 1), vec![Action::ForwardMessage]);
    assert!(!bin.settings.passthrough);
    let mut none = TranscriberBin::new();
    assert_eq!(none.handle_error(TRANSCRIBER), vec![Action::ForwardMessage]);
}

#[test]
fn hot_swap_when_not_live() {
    let mut bin = built();
    bin.set_passthrough(true);
    bin.disable_transcription_bin();
    bin.video_sink_event(Some(Fraction::new(25, 1)));
    assert_eq!(
        bin.set_transcriber(9, Lifecycle::Ready),
        Ok(vec![Action::ReplaceTranscriber { old: TRANSCRIBER, new: 9 }])
    );
    assert_eq!(bin.transcriber(), Some(9));
    assert_eq!(bin.set_passthrough(false), enable());
    assert_eq!(bin.set_transcriber(9, Lifecycle::Null), Ok(vec![]));
}

#[test]
fn hot_swap_while_live_is_refused() {
    let mut bin = enriched();
    assert_eq!(bin.set_transcriber(9, Lifecycle::Playing), Err(ControlError::Live));
    assert_eq!(bin.set_transcriber(9, Lifecycle::Paused), Err(ControlError::Live));
    assert_eq!(bin.transcriber(), Some(TRANSCRIBER));
}

#[test]
fn failed_relink_drops_state() {
    let mut bin = enriched();
    bin.invalidate();
    assert_eq!(bin.transcriber(), None);
    assert_eq!(bin.change_state_ready_to_paused(), Err(ControlError::NoState));
    assert_eq!(bin.set_transcriber(9, Lifecycle::Ready), Err(ControlError::NoState));
    assert_eq!(bin.set_passthrough(true), vec![]);
}

#[test]
fn failed_build_leaves_no_state() {
    let mut bin = TranscriberBin::new();
    bin.constructed(None);
    assert_eq!(bin.change_state_ready_to_paused(), Err(ControlError::NoState));
    assert_eq!(bin.video_sink_event(None), vec![]);
}

#[test]
fn ready_to_paused_repeats_setup_without_relinking() {
    let mut bin = built();
    assert_eq!(bin.change_state_ready_to_paused(), Ok(vec![]));
    let mut bin = enriched();
    let acts = bin.change_state_ready_to_paused().unwrap();
    assert_eq!(
        acts,
        vec![
            Action::ConfigureCapsFilter { framerate: Fraction::new(25, 1) },
            Action::ConfigureQueues { max_size_time_ns: 4_000_000_000 },
            Action::SetTranscriberLatency { latency_ms: 4000 },
            Action::SetCaptionMode { mode: Cea608Mode::RollUp2, accumulate_ns: 0 },
        ]
    );
}

#[test]
fn mode_change_sets_accumulation_budget() {
    let mut bin = enriched();
    assert_eq!(bin.set_accumulate_time(500), vec![Action::SetCaptionMode {
        mode: Cea608Mode::RollUp2,
        accumulate_ns: 0,
    }]);
    assert_eq!(bin.set_mode(Cea608Mode::PopOn), vec![Action::SetCaptionMode {
        mode: Cea608Mode::PopOn,
        accumulate_ns: 500_000_000,
    }]);
    assert_eq!(bin.set_mode(Cea608Mode::PopOn), vec![]);
    bin.set_passthrough(true);
    assert_eq!(bin.set_mode(Cea608Mode::RollUp3), vec![]);
    let acts = bin.disable_transcription_bin();
    assert_eq!(
        acts[acts.len() - 1],
        Action::SetCaptionMode { mode: Cea608Mode::RollUp3, accumulate_ns: 0 }
    );
}

#[test]
fn latency_setting_feeds_queue_size() {
    let mut bin = built();
    bin.set_latency(1000);
    bin.set_accumulate_time(250);
    let acts = bin.video_sink_event(Some(Fraction::new(25, 1)));
    assert_eq!(acts[1], Action::ConfigureQueues { max_size_time_ns: 1_250_000_000 });
    assert_eq!(acts[2], Action::SetTranscriberLatency { latency_ms: 1000 });
}
