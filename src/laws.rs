use vstd::prelude::*;
use crate::model::{
    Action, ControlError, ControllerView, Lifecycle, NodeId, StateView, enable_actions,
    detach_actions,
};
use crate::latency::spec_reported_min_latency;
use crate::settings::{Cea608Mode, Fraction, Settings, spec_fallback_framerate};

verus! {

/// Events that decide whether captions flow: a write of the passthrough
/// setting, or a quiescence callback firing.
pub enum ControlEvent {
    Toggle(bool),
    Drain,
}

pub open spec fn step(v: ControllerView, e: ControlEvent) -> ControllerView {
    match e {
        ControlEvent::Toggle(p) => v.set_passthrough(p).0,
        ControlEvent::Drain => v.drain().0,
    }
}

pub open spec fn step_actions(v: ControllerView, e: ControlEvent) -> Seq<Action> {
    match e {
        ControlEvent::Toggle(p) => v.set_passthrough(p).1,
        ControlEvent::Drain => v.drain().1,
    }
}

/// The controller after `events`, in order.
pub open spec fn run(v: ControllerView, events: Seq<ControlEvent>) -> ControllerView
    decreases events.len(),
{
    if events.len() == 0 {
        v
    } else {
        step(run(v, events.drop_last()), events.last())
    }
}

/// Every command issued along `events`, in order.
pub open spec fn run_actions(v: ControllerView, events: Seq<ControlEvent>) -> Seq<Action>
    decreases events.len(),
{
    if events.len() == 0 {
        seq![]
    } else {
        run_actions(v, events.drop_last()) + step_actions(
            run(v, events.drop_last()),
            events.last(),
        )
    }
}

/// The passthrough value last written along `events`, else `current`.
pub open spec fn last_request(events: Seq<ControlEvent>, current: bool) -> bool
    decreases events.len(),
{
    if events.len() == 0 {
        current
    } else {
        match events.last() {
            ControlEvent::Toggle(p) => p,
            ControlEvent::Drain => last_request(events.drop_last(), current),
        }
    }
}

/// `n` quiescence callbacks firing.
pub open spec fn drains(n: nat) -> Seq<ControlEvent> {
    Seq::new(n, |i: int| ControlEvent::Drain)
}

pub open spec fn no_caps_config(acts: Seq<Action>) -> bool {
    forall|i: int| 0 <= i < acts.len() ==> !(#[trigger] acts[i] is ConfigureCapsFilter)
}

/// Some toggle along `events` asks for the opposite of `p`.
pub open spec fn toggles_away(events: Seq<ControlEvent>, p: bool) -> bool {
    exists|i: int| 0 <= i < events.len() && #[trigger] events[i] == ControlEvent::Toggle(!p)
}

/// A single step keeps the controller well formed, keeps its state and
/// frame rate, and leaves the passthrough setting as written; a write that
/// changes the setting puts the mode in place.
pub proof fn lemma_step(v: ControllerView, e: ControlEvent)
    requires
        v.wf(),
    ensures
        step(v, e).wf(),
        step(v, e).state is Some <==> v.state is Some,
        step(v, e).framerate_known() == v.framerate_known(),
        v.state is Some ==> step(v, e).state->0.framerate == v.state->0.framerate,
        step(v, e).settings.passthrough == match e {
            ControlEvent::Toggle(p) => p,
            ControlEvent::Drain => v.settings.passthrough,
        },
        v.state is Some && v.state->0.mode_applied ==> step(v, e).state->0.mode_applied,
        v.state is Some && e == ControlEvent::Toggle(!v.settings.passthrough)
            ==> step(v, e).state->0.mode_applied,
        !v.framerate_known() ==> no_caps_config(step_actions(v, e)),
{
    let acts = step_actions(v, e);
    if !v.framerate_known() {
        assert forall|i: int| 0 <= i < acts.len() implies !(#[trigger] acts[i] is ConfigureCapsFilter) by {
            if e is Drain && v.state is Some {
                let s = v.state->0;
                let wiring = if v.settings.passthrough {
                    detach_actions(s.attached)
                } else if !s.attached {
                    enable_actions()
                } else {
                    seq![]
                };
                let style = if s.style_pending {
                    seq![v.drain().0.caption_mode_action()]
                } else {
                    seq![]
                };
                assert(acts == wiring + style);
                if i < wiring.len() {
                    assert(acts[i] == wiring[i]);
                } else {
                    assert(acts[i] == style[i - wiring.len()]);
                }
            }
        }
    }
}

/// Any run of toggles and callbacks keeps the controller well formed and
/// the passthrough setting at the last value written; once a toggle has
/// asked for the other mode, the mode is in place.
pub proof fn lemma_run(v: ControllerView, events: Seq<ControlEvent>)
    requires
        v.wf(),
    ensures
        run(v, events).wf(),
        run(v, events).state is Some <==> v.state is Some,
        run(v, events).framerate_known() == v.framerate_known(),
        v.state is Some ==> run(v, events).state->0.framerate == v.state->0.framerate,
        run(v, events).settings.passthrough == last_request(events, v.settings.passthrough),
        !toggles_away(events, v.settings.passthrough) ==> run(v, events).settings.passthrough
            == v.settings.passthrough,
        v.state is Some && (v.state->0.mode_applied || toggles_away(events, v.settings.passthrough))
            ==> run(v, events).state->0.mode_applied,
        !v.framerate_known() ==> no_caps_config(run_actions(v, events)),
    decreases events.len(),
{
    if events.len() > 0 {
        let p = v.settings.passthrough;
        let prev = events.drop_last();
        let e = events.last();
        lemma_run(v, prev);
        lemma_step(run(v, prev), e);
        if !toggles_away(events, p) {
            assert forall|i: int| 0 <= i < prev.len() implies #[trigger] prev[i] != ControlEvent::Toggle(!p) by {
                assert(prev[i] == events[i]);
            }
            assert(e == events[events.len() - 1]);
            assert(e != ControlEvent::Toggle(!p));
        }
        if v.state is Some && toggles_away(events, p) && !v.state->0.mode_applied {
            let i = choose|i: int| 0 <= i < events.len() && #[trigger] events[i] == ControlEvent::Toggle(!p);
            if i < prev.len() {
                assert(prev[i] == events[i]);
            } else if !toggles_away(prev, p) {
                assert(e == ControlEvent::Toggle(!p));
            }
        }
        let a = run_actions(v, prev);
        let b = step_actions(run(v, prev), e);
        if !v.framerate_known() {
            assert forall|i: int| 0 <= i < (a + b).len() implies !(#[trigger] (a + b)[i] is ConfigureCapsFilter) by {
                if i < a.len() {
                    assert((a + b)[i] == a[i]);
                } else {
                    assert((a + b)[i] == b[i - a.len()]);
                }
            }
        }
    }
}

/// Once `n` callbacks fire on a controller with at least `n` pending, `n`
/// fewer are pending and the passthrough setting is unchanged.
pub proof fn lemma_drains(w: ControllerView, n: nat)
    requires
        w.wf(),
        w.state is Some,
        n <= w.state->0.pending_drains,
    ensures
        run(w, drains(n)).wf(),
        run(w, drains(n)).state is Some,
        run(w, drains(n)).state->0.pending_drains == w.state->0.pending_drains - n,
        run(w, drains(n)).settings.passthrough == w.settings.passthrough,
    decreases n,
{
    if n > 0 {
        assert(drains(n).drop_last() =~= drains((n - 1) as nat));
        lemma_drains(w, (n - 1) as nat);
        lemma_step(run(w, drains((n - 1) as nat)), ControlEvent::Drain);
    }
}

/// Toggles issued in any order, with callbacks firing in between or not,
/// settle on the last request: once every pending callback has fired, no
/// detach is pending and captions flow exactly when they were last asked
/// for. The one exception is a controller whose configured mode waits for
/// the first video format and that no toggle asked to change: it stays
/// detached until that format.
pub proof fn lemma_toggles_settle(v: ControllerView, events: Seq<ControlEvent>)
    requires
        v.wf(),
        v.state is Some,
    ensures
        ({
            let w = run(v, events);
            let u = run(w, drains(w.state->0.pending_drains));
            &&& u.wf()
            &&& u.state is Some
            &&& !u.state->0.tearing_down
            &&& u.state->0.pending_drains == 0
            &&& u.settings.passthrough == last_request(events, v.settings.passthrough)
            &&& (v.state->0.mode_applied || toggles_away(events, v.settings.passthrough))
                ==> u.state->0.attached == !last_request(events, v.settings.passthrough)
            &&& !u.state->0.mode_applied ==> !u.state->0.attached
        }),
{
    lemma_run(v, events);
    let w = run(v, events);
    lemma_drains(w, w.state->0.pending_drains);
    lemma_run(w, drains(w.state->0.pending_drains));
}

/// Before the video format is known, no toggle or callback configures the
/// caption format; the first observation configures it exactly once, with
/// the observed or the fallback frame rate, and a later one not again.
pub proof fn lemma_caps_filter_once(
    v: ControllerView,
    events: Seq<ControlEvent>,
    first: Option<Fraction>,
    later: Option<Fraction>,
)
    requires
        v.wf(),
        v.state is Some,
        v.state->0.framerate is None,
    ensures
        no_caps_config(run_actions(v, events)),
        ({
            let w = run(v, events);
            let (x, acts) = w.caps(first);
            let fr = match first {
                Some(f) => f,
                None => spec_fallback_framerate(),
            };
            &&& acts.len() > 0
            &&& acts[0] == (Action::ConfigureCapsFilter { framerate: fr })
            &&& no_caps_config(acts.drop_first())
            &&& x.wf()
            &&& x.caps(later).1.len() == 0
        }),
{
    lemma_run(v, events);
    let w = run(v, events);
    let (x, acts) = w.caps(first);
    let tail = acts.drop_first();
    assert forall|i: int| 0 <= i < tail.len() implies !(#[trigger] tail[i] is ConfigureCapsFilter) by {
        assert(tail[i] == acts[i + 1]);
    }
}

/// An error of the transcriber while captions flow steadily turns them off
/// and announces it; the one pending callback then detaches the captioning
/// subgraph and drives it to the inert phase.
pub proof fn lemma_error_falls_back(v: ControllerView)
    requires
        v.wf(),
        v.state is Some,
        v.state->0.attached,
        v.state->0.pending_drains == 0,
    ensures
        ({
            let (x, a) = v.error(v.state->0.transcriber);
            let (y, b) = x.drain();
            &&& x.settings.passthrough
            &&& a == seq![Action::NotifyPassthrough, Action::ScheduleFallback]
            &&& x.state->0.pending_drains == 1
            &&& b == detach_actions(true)
            &&& y.settings.passthrough
            &&& !y.state->0.attached
            &&& !y.state->0.tearing_down
            &&& y.state->0.pending_drains == 0
            &&& y.wf()
        }),
{
    let (x, a) = v.error(v.state->0.transcriber);
    assert(x.drain().1 =~= detach_actions(true));
}

/// Replacing the transcriber while the graph is not live succeeds and keeps
/// the controller well formed; a later enable from steady bypass links the
/// captioning subgraph, which now holds the new node. While live the
/// replacement is refused and nothing changes.
pub proof fn lemma_hot_swap(v: ControllerView, new: NodeId, phase: Lifecycle)
    requires
        v.wf(),
        v.state is Some,
        new != v.state->0.transcriber,
    ensures
        phase.spec_is_live() ==> v.replace_transcriber(new, phase) == (v, Err::<Seq<Action>, ControlError>(ControlError::Live)),
        !phase.spec_is_live() ==> ({
            let (x, r) = v.replace_transcriber(new, phase);
            &&& r == Ok::<Seq<Action>, ControlError>(
                seq![Action::ReplaceTranscriber { old: v.state->0.transcriber, new }],
            )
            &&& x.wf()
            &&& x.state->0.transcriber == new
            &&& (v.settings.passthrough && !v.state->0.tearing_down ==> {
                let (y, acts) = x.set_passthrough(false);
                &&& acts == enable_actions()
                &&& y.state->0.attached
                &&& y.state->0.transcriber == new
            })
        }),
{
}

/// Every operation of the controller keeps it well formed: captions flow
/// exactly as requested whenever the frame rate is known and no detach is
/// pending, and a pending detach always has a callback to complete it.
pub proof fn lemma_operations_keep_wf(
    v: ControllerView,
    passthrough: bool,
    framerate: Option<Fraction>,
    mode: Cea608Mode,
    accumulate_ms: u32,
    latency_ms: u32,
    source: NodeId,
    new: NodeId,
    phase: Lifecycle,
)
    requires
        v.wf(),
    ensures
        v.set_passthrough(passthrough).0.wf(),
        v.drain().0.wf(),
        v.caps(framerate).0.wf(),
        v.ready_to_paused().0.wf(),
        v.set_mode(mode).0.wf(),
        v.set_accumulate(accumulate_ms).0.wf(),
        v.with_settings(Settings { latency_ms, ..v.settings }).wf(),
        v.error(source).0.wf(),
        v.replace_transcriber(new, phase).0.wf(),
        (ControllerView { settings: v.settings, state: None }).wf(),
{
}

/// How the captioning subgraph stands in the graph: fed by a splitter port,
/// feeding the combiner's caption input, and kept out of the parent's
/// lifecycle.
pub struct Wiring {
    pub splitter_linked: bool,
    pub combiner_linked: bool,
    pub locked: bool,
}

/// The wiring of a steady mode: all linked and following the parent when
/// captions flow, nothing linked and locked out otherwise.
pub open spec fn wiring_of(attached: bool) -> Wiring {
    Wiring { splitter_linked: attached, combiner_linked: attached, locked: !attached }
}

pub open spec fn apply(w: Wiring, a: Action) -> Wiring {
    match a {
        Action::LinkSplitter => Wiring { splitter_linked: true, ..w },
        Action::LinkCombiner => Wiring { combiner_linked: true, ..w },
        Action::UnlockSubgraph => Wiring { locked: false, ..w },
        Action::UnlinkSplitter => Wiring { splitter_linked: false, ..w },
        Action::UnlinkCombiner => Wiring { combiner_linked: false, ..w },
        Action::LockSubgraph => Wiring { locked: true, ..w },
        _ => w,
    }
}

/// The wiring after carrying out `acts` in order.
pub open spec fn apply_all(w: Wiring, acts: Seq<Action>) -> Wiring
    decreases acts.len(),
{
    if acts.len() == 0 {
        w
    } else {
        apply(apply_all(w, acts.drop_last()), acts.last())
    }
}

proof fn lemma_apply_append(w: Wiring, a: Seq<Action>, b: Seq<Action>)
    ensures
        apply_all(w, a + b) == apply_all(apply_all(w, a), b),
    decreases b.len(),
{
    if b.len() > 0 {
        assert((a + b).drop_last() =~= a + b.drop_last());
        lemma_apply_append(w, a, b.drop_last());
    }
}

proof fn lemma_apply_neutral(w: Wiring, acts: Seq<Action>)
    requires
        forall|i: int|
            0 <= i < acts.len() ==> apply(w, #[trigger] acts[i]) == w,
    ensures
        apply_all(w, acts) == w,
    decreases acts.len(),
{
    if acts.len() > 0 {
        lemma_apply_neutral(w, acts.drop_last());
    }
}

proof fn lemma_enable_wiring(w: Wiring)
    ensures
        apply_all(w, enable_actions()) == wiring_of(true),
{
    let e = enable_actions();
    reveal_with_fuel(apply_all, 5);
    assert(e.drop_last().drop_last().drop_last().drop_last() =~= seq![]);
    assert(e.drop_last().drop_last().drop_last() =~= seq![Action::LinkSplitter]);
    assert(e.drop_last().drop_last() =~= seq![Action::LinkSplitter, Action::LinkCombiner]);
    assert(e.drop_last() =~= seq![
        Action::LinkSplitter,
        Action::LinkCombiner,
        Action::UnlockSubgraph,
    ]);
}

proof fn lemma_detach_wiring(attached: bool)
    ensures
        apply_all(wiring_of(attached), detach_actions(attached)) == wiring_of(false),
{
    let d = detach_actions(attached);
    reveal_with_fuel(apply_all, 5);
    if attached {
        assert(d.drop_last().drop_last().drop_last().drop_last() =~= seq![]);
        assert(d.drop_last().drop_last().drop_last() =~= seq![Action::UnlinkSplitter]);
        assert(d.drop_last().drop_last() =~= seq![Action::UnlinkSplitter, Action::UnlinkCombiner]);
        assert(d.drop_last() =~= seq![
            Action::UnlinkSplitter,
            Action::UnlinkCombiner,
            Action::LockSubgraph,
        ]);
    } else {
        assert(d.drop_last().drop_last() =~= seq![]);
        assert(d.drop_last() =~= seq![Action::LockSubgraph]);
    }
}

/// Commands that touch no link and no lock leave the wiring as it is.
proof fn lemma_style_neutral(w: Wiring, acts: Seq<Action>)
    requires
        forall|i: int| 0 <= i < acts.len() ==> (#[trigger] acts[i] is SetCaptionMode
            || acts[i] is ConfigureCapsFilter || acts[i] is ConfigureQueues
            || acts[i] is SetTranscriberLatency || acts[i] is InstallDrainProbe),
    ensures
        apply_all(w, acts) == w,
{
    assert forall|i: int| 0 <= i < acts.len() implies apply(w, #[trigger] acts[i]) == w by {}
    lemma_apply_neutral(w, acts);
}

/// Carrying out the commands of a step, from the wiring of the mode before
/// it, gives the wiring of the mode after it: the commands realise the
/// decision, and the combiner's caption input is fed only by the captioning
/// subgraph, and only while it is attached.
pub proof fn lemma_commands_realise_mode(v: ControllerView, e: ControlEvent)
    requires
        v.wf(),
        v.state is Some,
    ensures
        step(v, e).state is Some,
        apply_all(wiring_of(v.state->0.attached), step_actions(v, e)) == wiring_of(
            step(v, e).state->0.attached,
        ),
{
    let s = v.state->0;
    let w = wiring_of(s.attached);
    match e {
        ControlEvent::Toggle(p) => {
            let acts = step_actions(v, e);
            if acts == enable_actions() {
                lemma_enable_wiring(w);
            } else {
                lemma_style_neutral(w, acts);
            }
        },
        ControlEvent::Drain => {
            let wiring = if v.settings.passthrough {
                detach_actions(s.attached)
            } else if !s.attached {
                enable_actions()
            } else {
                seq![]
            };
            let style = if s.style_pending {
                seq![v.drain().0.caption_mode_action()]
            } else {
                seq![]
            };
            assert(step_actions(v, e) == wiring + style);
            lemma_apply_append(w, wiring, style);
            if v.settings.passthrough {
                lemma_detach_wiring(s.attached);
            } else if !s.attached {
                lemma_enable_wiring(w);
            } else {
                lemma_style_neutral(w, wiring);
            }
            lemma_style_neutral(apply_all(w, wiring), style);
        },
    }
}

/// Observing the video format, or going from ready to paused, also leaves
/// the wiring of the mode decided.
pub proof fn lemma_setup_realises_mode(v: ControllerView, framerate: Option<Fraction>)
    requires
        v.wf(),
        v.state is Some,
    ensures
        apply_all(wiring_of(v.state->0.attached), v.caps(framerate).1) == wiring_of(
            v.caps(framerate).0.state->0.attached,
        ),
        v.ready_to_paused().1 is Ok,
        apply_all(wiring_of(v.state->0.attached), v.ready_to_paused().1->Ok_0) == wiring_of(
            v.ready_to_paused().0.state->0.attached,
        ),
{
    if v.state->0.framerate is Some {
        lemma_setup_wiring(v);
    } else {
        let fr = match framerate {
            Some(f) => f,
            None => spec_fallback_framerate(),
        };
        let u = v.with_state(StateView { framerate: Some(fr), ..v.state->0 });
        lemma_setup_wiring(u);
    }
}

proof fn lemma_setup_wiring(v: ControllerView)
    requires
        v.state is Some,
        v.state->0.framerate is Some,
    ensures
        apply_all(wiring_of(v.state->0.attached), v.setup().1) == wiring_of(
            v.setup().0.state->0.attached,
        ),
{
    let s = v.state->0;
    let w = wiring_of(s.attached);
    let head = seq![
        Action::ConfigureCapsFilter { framerate: s.framerate->0 },
        Action::ConfigureQueues { max_size_time_ns: v.settings.spec_max_size_time() as u64 },
        Action::SetTranscriberLatency { latency_ms: v.settings.latency_ms },
    ];
    lemma_style_neutral(w, head);
    if !v.settings.passthrough && !s.attached && !s.tearing_down {
        let x = v.with_state(StateView { attached: true, mode_applied: true, ..s });
        assert(v.setup().1 == head + enable_actions() + x.cc_mode_actions());
        lemma_apply_append(w, head, enable_actions());
        lemma_enable_wiring(w);
        lemma_apply_append(w, head + enable_actions(), x.cc_mode_actions());
        lemma_style_neutral(wiring_of(true), x.cc_mode_actions());
    } else {
        let x = v.with_state(StateView { mode_applied: true, ..s });
        assert(v.setup().1 == head + x.restyle().1);
        lemma_apply_append(w, head, x.restyle().1);
        lemma_style_neutral(w, x.restyle().1);
    }
}

/// With state present and no detach pending, enabling captions attaches the
/// captioning subgraph at once, whether or not the video format is known.
pub proof fn lemma_enable_attaches(v: ControllerView)
    requires
        v.wf(),
        v.state is Some,
        !v.state->0.tearing_down,
        !v.state->0.attached,
    ensures
        v.update(false).1 == enable_actions(),
        v.update(false).0.state->0.attached,
        v.settings.passthrough ==> v.set_passthrough(false).1 == enable_actions()
            && v.set_passthrough(false).0.state->0.attached && v.set_passthrough(false).0.wf(),
{
}

/// In bypass, with a maximum latency of 4000 ms and no accumulation, the
/// reported minimum is the upstream minimum plus 4000 ms, wherever that sum
/// is a valid clock time.
pub proof fn lemma_bypass_latency(upstream_min: u64, settings: Settings, framerate_known: bool)
    requires
        settings.passthrough,
        settings.latency_ms == 4000,
        settings.accumulate_ms == 0,
        upstream_min + 4_000_000_000 < u64::MAX,
    ensures
        spec_reported_min_latency(upstream_min, settings, framerate_known) == Some(
            (upstream_min + 4_000_000_000) as u64,
        ),
{
}

/// With captions requested and the frame rate known, a roll-up style adds
/// no latency, whatever the accumulation cut-off.
pub proof fn lemma_rolling_latency(upstream_min: u64, settings: Settings)
    requires
        !settings.passthrough,
        settings.mode.spec_is_rollup(),
        upstream_min < u64::MAX,
    ensures
        spec_reported_min_latency(upstream_min, settings, true) == Some(upstream_min),
{
}

} // verus!
