use vstd::prelude::*;
use crate::latency::{reported_min_latency, spec_reported_min_latency};
use crate::model::{Action, ControlError, ControllerView, Lifecycle, NodeId, StateView, enable_actions};
use crate::settings::{Cea608Mode, Fraction, Settings};

verus! {

/// Handles of the built graph and what the controller knows of it.
pub struct State {
    pub framerate: Option<Fraction>,
    pub tearing_down: bool,
    pub attached: bool,
    pub transcriber: NodeId,
    pub pending_drains: Ghost<nat>,
    pub mode_applied: bool,
    pub style_pending: bool,
}

impl View for State {
    type V = StateView;

    open spec fn view(&self) -> StateView {
        StateView {
            framerate: self.framerate,
            tearing_down: self.tearing_down,
            attached: self.attached,
            transcriber: self.transcriber,
            pending_drains: self.pending_drains@,
            mode_applied: self.mode_applied,
            style_pending: self.style_pending,
        }
    }
}

/// The mode controller of the bin: settings and, once the graph is built,
/// its state. Each operation returns the graph commands to carry out.
pub struct TranscriberBin {
    pub settings: Settings,
    pub state: Option<State>,
}

impl View for TranscriberBin {
    type V = ControllerView;

    open spec fn view(&self) -> ControllerView {
        ControllerView {
            settings: self.settings,
            state: match self.state {
                Some(s) => Some(s@),
                None => None,
            },
        }
    }
}

fn push_enable(acts: &mut Vec<Action>)
    ensures
        final(acts)@ == old(acts)@ + enable_actions(),
{
    acts.push(Action::LinkSplitter);
    acts.push(Action::LinkCombiner);
    acts.push(Action::UnlockSubgraph);
    acts.push(Action::SyncSubgraph);
    assert(acts@ =~= old(acts)@ + enable_actions());
}

impl TranscriberBin {
    /// A controller with default settings and no graph yet.
    pub fn new() -> (r: TranscriberBin)
        ensures
            r@ == (ControllerView { settings: Settings::spec_default(), state: None }),
            r@.wf(),
    {
        TranscriberBin { settings: Settings::default(), state: None }
    }

    /// Records the outcome of building the graph: its transcriber where the
    /// build succeeded, `None` where it failed, which leaves the controller
    /// without state for good.
    pub fn constructed(&mut self, transcriber: Option<NodeId>)
        ensures
            final(self).settings == old(self).settings,
            final(self)@.wf(),
            transcriber is None ==> final(self)@.state is None,
            transcriber is Some ==> final(self)@.state == Some(
                StateView {
                    framerate: None,
                    tearing_down: false,
                    attached: false,
                    transcriber: transcriber->0,
                    pending_drains: 0,
                    mode_applied: false,
                    style_pending: false,
                },
            ),
    {
        self.state = match transcriber {
            Some(t) => Some(
                State {
                    framerate: None,
                    tearing_down: false,
                    attached: false,
                    transcriber: t,
                    pending_drains: Ghost(0),
                    mode_applied: false,
                    style_pending: false,
                },
            ),
            None => None,
        };
    }

    /// Whether the frame rate is known, that is whether the video format has
    /// been observed.
    pub fn framerate_known(&self) -> (r: bool)
        ensures
            r == self@.framerate_known(),
    {
        match &self.state {
            Some(s) => s.framerate.is_some(),
            None => false,
        }
    }

    /// The current transcriber, where the graph is built.
    pub fn transcriber(&self) -> (r: Option<NodeId>)
        ensures
            r == (match self@.state {
                Some(s) => Some(s.transcriber),
                None => None,
            }),
    {
        match &self.state {
            Some(s) => Some(s.transcriber),
            None => None,
        }
    }

    /// Whether the captioning subgraph is linked into the data flow.
    pub fn is_attached(&self) -> (r: bool)
        ensures
            r == (self@.state is Some && self@.state->0.attached),
    {
        match &self.state {
            Some(s) => s.attached,
            None => false,
        }
    }

    /// Whether a detach waits for its quiescence point.
    pub fn is_tearing_down(&self) -> (r: bool)
        ensures
            r == (self@.state is Some && self@.state->0.tearing_down),
    {
        match &self.state {
            Some(s) => s.tearing_down,
            None => false,
        }
    }

    /// Encoder style and accumulation budget, unless a detach is pending.
    pub fn setup_cc_mode(&self) -> (r: Vec<Action>)
        ensures
            r@ == self@.cc_mode_actions(),
    {
        let mut acts: Vec<Action> = Vec::new();
        match &self.state {
            Some(s) => {
                if !s.tearing_down {
                    let accumulate_ns = self.settings.accumulate_budget();
                    acts.push(Action::SetCaptionMode { mode: self.settings.mode, accumulate_ns });
                }
            },
            None => {},
        }
        assert(acts@ =~= self@.cc_mode_actions());
        acts
    }

    /// Applies the caption style now or, while a detach is pending, marks it
    /// for the quiescence callback.
    pub fn restyle(&mut self) -> (r: Vec<Action>)
        ensures
            (final(self)@, r@) == old(self)@.restyle(),
    {
        match &mut self.state {
            Some(s) => {
                if s.tearing_down {
                    s.style_pending = true;
                    return Vec::new();
                }
            },
            None => {},
        }
        self.setup_cc_mode()
    }

    /// Enables captions, or installs the callback that will disable them.
    pub fn block_and_update(&mut self, passthrough: bool) -> (r: Vec<Action>)
        ensures
            (final(self)@, r@) == old(self)@.update(passthrough),
    {
        let mut acts: Vec<Action> = Vec::new();
        match &mut self.state {
            None => {},
            Some(s) => {
                if passthrough {
                    s.tearing_down = true;
                    s.pending_drains = Ghost(s.pending_drains@ + 1);
                    s.mode_applied = true;
                    acts.push(Action::InstallDrainProbe);
                } else if s.tearing_down || s.attached {
                } else {
                    s.attached = true;
                    s.mode_applied = true;
                    push_enable(&mut acts);
                }
            },
        }
        assert(acts@ =~= old(self)@.update(passthrough).1);
        acts
    }

    /// Writes the passthrough setting; a change enables captions or
    /// schedules their removal, and writing the current value changes nothing.
    pub fn set_passthrough(&mut self, passthrough: bool) -> (r: Vec<Action>)
        ensures
            (final(self)@, r@) == old(self)@.set_passthrough(passthrough),
            old(self).settings.passthrough == passthrough ==> r@.len() == 0
                && final(self)@ == old(self)@,
    {
        let old_passthrough = self.settings.passthrough;
        self.settings.passthrough = passthrough;
        if old_passthrough != passthrough {
            self.block_and_update(passthrough)
        } else {
            Vec::new()
        }
    }

    /// Runs at the quiescence point of the captioning input: detaches the
    /// captioning subgraph if captions are still off, else makes sure it is
    /// attached; then applies a caption style written while it waited.
    pub fn disable_transcription_bin(&mut self) -> (r: Vec<Action>)
        ensures
            (final(self)@, r@) == old(self)@.drain(),
    {
        let passthrough = self.settings.passthrough;
        let mode = self.settings.mode;
        let accumulate_ns = self.settings.accumulate_budget();
        let mut acts: Vec<Action> = Vec::new();
        match &mut self.state {
            None => {},
            Some(s) => {
                s.mode_applied = true;
                s.tearing_down = false;
                s.pending_drains = Ghost(
                    if s.pending_drains@ > 0 {
                        (s.pending_drains@ - 1) as nat
                    } else {
                        0
                    },
                );
                if passthrough {
                    if s.attached {
                        acts.push(Action::UnlinkSplitter);
                        acts.push(Action::UnlinkCombiner);
                    }
                    acts.push(Action::LockSubgraph);
                    acts.push(Action::SetSubgraphInert);
                    s.attached = false;
                } else if !s.attached {
                    s.attached = true;
                    push_enable(&mut acts);
                }
                if s.style_pending {
                    s.style_pending = false;
                    acts.push(Action::SetCaptionMode { mode, accumulate_ns });
                }
            },
        }
        assert(acts@ =~= old(self)@.drain().1);
        acts
    }
    /// Configuration that follows the frame rate and the settings; attaches
    /// captions where they are requested and neither attached nor being
    /// detached.
    pub fn setup_transcription(&mut self) -> (r: Vec<Action>)
        requires
            old(self)@.framerate_known(),
        ensures
            (final(self)@, r@) == old(self)@.setup(),
    {
        let mut acts: Vec<Action> = Vec::new();
        let max_size_time_ns = self.settings.max_size_time();
        let latency_ms = self.settings.latency_ms;
        let passthrough = self.settings.passthrough;
        match &mut self.state {
            None => {},
            Some(s) => {
                match s.framerate {
                    Some(framerate) => {
                        acts.push(Action::ConfigureCapsFilter { framerate });
                    },
                    None => {},
                }
                acts.push(Action::ConfigureQueues { max_size_time_ns });
                acts.push(Action::SetTranscriberLatency { latency_ms });
                s.mode_applied = true;
                if !passthrough && !s.attached && !s.tearing_down {
                    s.attached = true;
                    push_enable(&mut acts);
                }
            },
        }
        let mut cc = self.restyle();
        acts.append(&mut cc);
        assert(acts@ =~= old(self)@.setup().1);
        acts
    }

    /// A video format was observed, with `framerate` if it gives one. The
    /// first observation sets up transcription; later ones only record the
    /// frame rate.
    pub fn video_sink_event(&mut self, framerate: Option<Fraction>) -> (r: Vec<Action>)
        ensures
            (final(self)@, r@) == old(self)@.caps(framerate),
    {
        match &mut self.state {
            None => Vec::new(),
            Some(s) => {
                let had_framerate = s.framerate.is_some();
                s.framerate = match framerate {
                    Some(f) => Some(f),
                    None => Some(Fraction::fallback()),
                };
                if had_framerate {
                    Vec::new()
                } else {
                    self.setup_transcription()
                }
            },
        }
    }

    /// The graph goes from ready to paused: refused without state; where the
    /// frame rate is known, the configuration is applied again.
    pub fn change_state_ready_to_paused(&mut self) -> (r: Result<Vec<Action>, ControlError>)
        ensures
            final(self)@ == old(self)@.ready_to_paused().0,
            match (r, old(self)@.ready_to_paused().1) {
                (Ok(a), Ok(b)) => a@ == b,
                (Err(e), Err(f)) => e == f,
                _ => false,
            },
    {
        if self.state.is_none() {
            return Err(ControlError::NoState);
        }
        if self.framerate_known() {
            Ok(self.setup_transcription())
        } else {
            Ok(Vec::new())
        }
    }

    /// Writes the captioning style; a change is applied to the encoder and
    /// the text wrapper, after the pending detach if there is one.
    pub fn set_mode(&mut self, mode: Cea608Mode) -> (r: Vec<Action>)
        ensures
            (final(self)@, r@) == old(self)@.set_mode(mode),
    {
        let old_mode = self.settings.mode;
        self.settings.mode = mode;
        if old_mode != mode {
            self.restyle()
        } else {
            Vec::new()
        }
    }

    /// Writes the accumulation cut-off, in milliseconds; a change is applied
    /// to the text wrapper, after the pending detach if there is one.
    pub fn set_accumulate_time(&mut self, accumulate_ms: u32) -> (r: Vec<Action>)
        ensures
            (final(self)@, r@) == old(self)@.set_accumulate(accumulate_ms),
    {
        let old_accumulate = self.settings.accumulate_ms;
        self.settings.accumulate_ms = accumulate_ms;
        if old_accumulate != accumulate_ms {
            self.restyle()
        } else {
            Vec::new()
        }
    }

    /// Writes the maximum latency of the transcriber, in milliseconds.
    pub fn set_latency(&mut self, latency_ms: u32)
        ensures
            final(self)@ == old(self)@.with_settings(
                Settings { latency_ms, ..old(self).settings },
            ),
    {
        self.settings.latency_ms = latency_ms;
    }

    /// An error was posted on the bus by the node `source`. One from the
    /// transcriber turns captions off, announces it, and has the detach
    /// scheduled from another context; others go to the parent.
    pub fn handle_error(&mut self, source: NodeId) -> (r: Vec<Action>)
        ensures
            (final(self)@, r@) == old(self)@.error(source),
    {
        let mut acts: Vec<Action> = Vec::new();
        let from_transcriber = match &self.state {
            Some(s) => s.transcriber == source,
            None => false,
        };
        if from_transcriber {
            self.settings.passthrough = true;
            match &mut self.state {
                Some(s) => {
                    s.tearing_down = true;
                    s.pending_drains = Ghost(s.pending_drains@ + 1);
                    s.mode_applied = true;
                },
                None => {},
            }
            acts.push(Action::NotifyPassthrough);
            acts.push(Action::ScheduleFallback);
        } else {
            acts.push(Action::ForwardMessage);
        }
        assert(acts@ =~= old(self)@.error(source).1);
        acts
    }

    /// Puts the node `new` in the transcriber's place. Refused without state
    /// and while the graph is live.
    pub fn set_transcriber(&mut self, new: NodeId, phase: Lifecycle)
        -> (r: Result<Vec<Action>, ControlError>)
        ensures
            final(self)@ == old(self)@.replace_transcriber(new, phase).0,
            match (r, old(self)@.replace_transcriber(new, phase).1) {
                (Ok(a), Ok(b)) => a@ == b,
                (Err(e), Err(f)) => e == f,
                _ => false,
            },
    {
        let live = phase.is_live();
        match &mut self.state {
            None => Err(ControlError::NoState),
            Some(s) => {
                if live {
                    Err(ControlError::Live)
                } else if s.transcriber == new {
                    Ok(Vec::new())
                } else {
                    let old_transcriber = s.transcriber;
                    s.transcriber = new;
                    let mut acts: Vec<Action> = Vec::new();
                    acts.push(Action::ReplaceTranscriber { old: old_transcriber, new });
                    assert(acts@ =~= seq![Action::ReplaceTranscriber { old: old_transcriber, new }]);
                    Ok(acts)
                }
            },
        }
    }

    /// Carrying out commands failed, a relink of the transcriber for one: the
    /// graph may be half linked, so the state is dropped and every later
    /// operation finds none.
    pub fn invalidate(&mut self)
        ensures
            final(self)@ == (ControllerView { settings: old(self).settings, state: None }),
    {
        self.state = None;
    }

    /// Answers a latency query given the upstream minimum, in nanoseconds,
    /// where upstream answered: that minimum plus the added latency, or
    /// `None` where upstream did not answer or the sum is no valid clock time.
    pub fn src_query_latency(&self, upstream_min: Option<u64>) -> (r: Option<u64>)
        ensures
            r == match upstream_min {
                None => None,
                Some(m) => spec_reported_min_latency(m, self.settings, self@.framerate_known()),
            },
    {
        match upstream_min {
            None => None,
            Some(m) => {
                let known = self.framerate_known();
                reported_min_latency(m, &self.settings, known)
            },
        }
    }
}

} // verus!
