use vstd::prelude::*;
use crate::settings::{Cea608Mode, Fraction, Settings, spec_fallback_framerate};

verus! {

/// Handle of a node of the graph; the graph owns the node, the controller
/// only refers to it.
pub type NodeId = u64;

/// Lifecycle phase of the graph, mirrored from the parent pipeline.
#[derive(Clone, Copy, Debug, PartialEq, Eq, Structural)]
pub enum Lifecycle {
    Null,
    Ready,
    Paused,
    Playing,
}

impl Lifecycle {
    /// Data may flow: topology may only change at a quiescence point.
    pub open spec fn spec_is_live(self) -> bool {
        self is Paused || self is Playing
    }

    pub fn is_live(&self) -> (r: bool)
        ensures
            r == self.spec_is_live(),
    {
        match self {
            Lifecycle::Paused | Lifecycle::Playing => true,
            _ => false,
        }
    }
}

/// Why an operation of the controller was refused.
#[derive(Clone, Copy, Debug, PartialEq, Eq, Structural)]
pub enum ControlError {
    /// Construction of the graph failed, or a relink invalidated it.
    NoState,
    /// The operation needs the graph not to be live.
    Live,
}

/// A command to the graph runtime, decided by the controller and carried out
/// by its host in the order given.
#[derive(Clone, Copy, Debug, PartialEq, Eq, Structural)]
pub enum Action {
    /// Constrain the captioning output to the caption format at this frame rate.
    ConfigureCapsFilter { framerate: Fraction },
    /// Let both passthrough queues hold this much time, in nanoseconds.
    ConfigureQueues { max_size_time_ns: u64 },
    /// Tell the transcriber how much latency it may add, in milliseconds.
    SetTranscriberLatency { latency_ms: u32 },
    /// Request an output port of the audio splitter and link it to the
    /// captioning input.
    LinkSplitter,
    /// Link the captioning output to the combiner's caption input.
    LinkCombiner,
    /// Let the captioning subgraph follow the parent's lifecycle again.
    UnlockSubgraph,
    /// Bring the captioning subgraph to the parent's lifecycle phase.
    SyncSubgraph,
    /// Install a one-shot quiescence callback on the captioning input.
    InstallDrainProbe,
    /// From a context other than the current one, install the one-shot
    /// quiescence callback on the captioning input.
    ScheduleFallback,
    /// Unlink the splitter port feeding the captioning input and release it.
    UnlinkSplitter,
    /// Unlink the combiner's caption input and release it.
    UnlinkCombiner,
    /// Take the captioning subgraph out of the parent's lifecycle.
    LockSubgraph,
    /// Drive the captioning subgraph to the inert phase.
    SetSubgraphInert,
    /// Set the encoder's style and the text wrapper's accumulation budget.
    SetCaptionMode { mode: Cea608Mode, accumulate_ns: u64 },
    /// Announce that the passthrough setting changed.
    NotifyPassthrough,
    /// Hand a bus message on to the parent's handling.
    ForwardMessage,
    /// Unlink, remove and make inert the old transcriber; add, synchronise and
    /// link the new one in its place.
    ReplaceTranscriber { old: NodeId, new: NodeId },
}

/// What the controller knows of the graph once it is built.
pub struct StateView {
    /// Frame rate of the video, known after its format is first observed.
    pub framerate: Option<Fraction>,
    /// A detach of the captioning subgraph waits for a quiescence point.
    pub tearing_down: bool,
    /// The captioning subgraph is linked between splitter and combiner.
    pub attached: bool,
    /// The node that transcribes.
    pub transcriber: NodeId,
    /// Quiescence callbacks installed that have not fired yet.
    pub pending_drains: nat,
    /// The configured mode has been put in place once: at the first video
    /// format, or by a write that changed it. Until then captions stay
    /// detached.
    pub mode_applied: bool,
    /// A caption style was written while a detach was pending, and waits
    /// for the quiescence callback to be applied.
    pub style_pending: bool,
}

/// The controller as a mathematical value.
pub struct ControllerView {
    pub settings: Settings,
    pub state: Option<StateView>,
}

pub open spec fn enable_actions() -> Seq<Action> {
    seq![Action::LinkSplitter, Action::LinkCombiner, Action::UnlockSubgraph, Action::SyncSubgraph]
}

pub open spec fn detach_actions(attached: bool) -> Seq<Action> {
    if attached {
        seq![
            Action::UnlinkSplitter,
            Action::UnlinkCombiner,
            Action::LockSubgraph,
            Action::SetSubgraphInert,
        ]
    } else {
        seq![Action::LockSubgraph, Action::SetSubgraphInert]
    }
}

impl ControllerView {
    pub open spec fn framerate_known(self) -> bool {
        self.state is Some && self.state->0.framerate is Some
    }

    /// Steady states: once the mode has been applied, captions flow exactly
    /// when they are requested whenever no detach is pending; a pending
    /// detach always has a callback to complete it; and a style waits only
    /// for such a callback.
    pub open spec fn wf(self) -> bool {
        match self.state {
            None => true,
            Some(s) => {
                &&& (s.tearing_down ==> s.pending_drains > 0 && s.mode_applied)
                &&& (s.style_pending ==> s.tearing_down)
                &&& (!s.mode_applied ==> !s.attached)
                &&& (s.mode_applied && !s.tearing_down ==> s.attached == !self.settings.passthrough)
            },
        }
    }

    pub open spec fn with_settings(self, settings: Settings) -> ControllerView {
        ControllerView { settings, state: self.state }
    }

    pub open spec fn with_state(self, s: StateView) -> ControllerView {
        ControllerView { settings: self.settings, state: Some(s) }
    }

    pub open spec fn caption_mode_action(self) -> Action {
        Action::SetCaptionMode {
            mode: self.settings.mode,
            accumulate_ns: self.settings.spec_accumulate_budget() as u64,
        }
    }

    /// Caption style applied to the encoder and text wrapper, unless a
    /// detach is pending.
    pub open spec fn cc_mode_actions(self) -> Seq<Action> {
        match self.state {
            Some(s) if !s.tearing_down => seq![self.caption_mode_action()],
            _ => seq![],
        }
    }

    /// Applies the caption style now, or, while a detach is pending, leaves
    /// it to the quiescence callback.
    pub open spec fn restyle(self) -> (ControllerView, Seq<Action>) {
        match self.state {
            Some(s) if s.tearing_down => (
                self.with_state(StateView { style_pending: true, ..s }),
                seq![],
            ),
            _ => (self, self.cc_mode_actions()),
        }
    }

    /// Enables or schedules the disabling of captions, after the passthrough
    /// setting became `passthrough`.
    pub open spec fn update(self, passthrough: bool) -> (ControllerView, Seq<Action>) {
        match self.state {
            None => (self, seq![]),
            Some(s) => if passthrough {
                (
                    self.with_state(
                        StateView {
                            tearing_down: true,
                            pending_drains: s.pending_drains + 1,
                            mode_applied: true,
                            ..s
                        },
                    ),
                    seq![Action::InstallDrainProbe],
                )
            } else if s.tearing_down || s.attached {
                (self, seq![])
            } else {
                (
                    self.with_state(StateView { attached: true, mode_applied: true, ..s }),
                    enable_actions(),
                )
            },
        }
    }

    pub open spec fn set_passthrough(self, passthrough: bool) -> (ControllerView, Seq<Action>) {
        let v = self.with_settings(Settings { passthrough, ..self.settings });
        if self.settings.passthrough == passthrough {
            (v, seq![])
        } else {
            v.update(passthrough)
        }
    }

    /// The quiescence callback: completes a detach, or re-attaches where
    /// captions were requested again in the meantime; then applies a caption
    /// style written while it waited.
    pub open spec fn drain(self) -> (ControllerView, Seq<Action>) {
        match self.state {
            None => (self, seq![]),
            Some(s) => {
                let pending = if s.pending_drains > 0 {
                    (s.pending_drains - 1) as nat
                } else {
                    0
                };
                let attached = !self.settings.passthrough;
                let v = self.with_state(
                    StateView {
                        tearing_down: false,
                        pending_drains: pending,
                        mode_applied: true,
                        style_pending: false,
                        attached,
                        ..s
                    },
                );
                let wiring = if self.settings.passthrough {
                    detach_actions(s.attached)
                } else if !s.attached {
                    enable_actions()
                } else {
                    seq![]
                };
                let style = if s.style_pending {
                    seq![v.caption_mode_action()]
                } else {
                    seq![]
                };
                (v, wiring + style)
            },
        }
    }

    /// Configuration that follows the frame rate and the settings; attaches
    /// captions where they are requested and not yet attached.
    pub open spec fn setup(self) -> (ControllerView, Seq<Action>)
        recommends
            self.framerate_known(),
    {
        let s = self.state->0;
        let head = seq![
            Action::ConfigureCapsFilter { framerate: s.framerate->0 },
            Action::ConfigureQueues {
                max_size_time_ns: self.settings.spec_max_size_time() as u64,
            },
            Action::SetTranscriberLatency { latency_ms: self.settings.latency_ms },
        ];
        if !self.settings.passthrough && !s.attached && !s.tearing_down {
            let v = self.with_state(StateView { attached: true, mode_applied: true, ..s });
            (v, head + enable_actions() + v.cc_mode_actions())
        } else {
            let v = self.with_state(StateView { mode_applied: true, ..s });
            (v.restyle().0, head + v.restyle().1)
        }
    }

    /// A video format was observed, with `framerate` if it gives one.
    pub open spec fn caps(self, framerate: Option<Fraction>) -> (ControllerView, Seq<Action>) {
        match self.state {
            None => (self, seq![]),
            Some(s) => {
                let fr = match framerate {
                    Some(f) => f,
                    None => spec_fallback_framerate(),
                };
                let v = self.with_state(StateView { framerate: Some(fr), ..s });
                if s.framerate is Some {
                    (v, seq![])
                } else {
                    v.setup()
                }
            },
        }
    }

    /// The graph goes from ready to paused.
    pub open spec fn ready_to_paused(self) -> (ControllerView, Result<Seq<Action>, ControlError>) {
        match self.state {
            None => (self, Err(ControlError::NoState)),
            Some(s) => if s.framerate is Some {
                (self.setup().0, Ok(self.setup().1))
            } else {
                (self, Ok(seq![]))
            },
        }
    }

    pub open spec fn set_mode(self, mode: Cea608Mode) -> (ControllerView, Seq<Action>) {
        let v = self.with_settings(Settings { mode, ..self.settings });
        if self.settings.mode == mode {
            (v, seq![])
        } else {
            v.restyle()
        }
    }

    pub open spec fn set_accumulate(self, accumulate_ms: u32) -> (ControllerView, Seq<Action>) {
        let v = self.with_settings(Settings { accumulate_ms, ..self.settings });
        if self.settings.accumulate_ms == accumulate_ms {
            (v, seq![])
        } else {
            v.restyle()
        }
    }

    /// An error was posted on the bus by the node `source`. One from the
    /// transcriber turns captions off.
    pub open spec fn error(self, source: NodeId) -> (ControllerView, Seq<Action>) {
        match self.state {
            Some(s) if s.transcriber == source => {
                let v = self.with_settings(Settings { passthrough: true, ..self.settings });
                (
                    v.with_state(
                        StateView {
                            tearing_down: true,
                            pending_drains: s.pending_drains + 1,
                            mode_applied: true,
                            ..s
                        },
                    ),
                    seq![Action::NotifyPassthrough, Action::ScheduleFallback],
                )
            },
            _ => (self, seq![Action::ForwardMessage]),
        }
    }

    /// Puts the node `new` in the transcriber's place while the graph is in
    /// `phase`.
    pub open spec fn replace_transcriber(self, new: NodeId, phase: Lifecycle) -> (
        ControllerView,
        Result<Seq<Action>, ControlError>,
    ) {
        match self.state {
            None => (self, Err(ControlError::NoState)),
            Some(s) => if phase.spec_is_live() {
                (self, Err(ControlError::Live))
            } else if s.transcriber == new {
                (self, Ok(seq![]))
            } else {
                (
                    self.with_state(StateView { transcriber: new, ..s }),
                    Ok(seq![Action::ReplaceTranscriber { old: s.transcriber, new }]),
                )
            },
        }
    }
}

} // verus!
