//! The aim, launch and flight state machine, advanced once per frame.
use vstd::prelude::*;
use crate::config::{AimDelta, Config, Point};

verus! {

/// Where the arrow is in its one-way life: aimed, flying, then landed.
#[derive(Clone, Copy, Debug, PartialEq, Eq, Structural)]
pub enum Phase {
    /// Not yet released; remembers whether the button was down last frame, so
    /// that the release edge can be told from a button that is merely up.
    Aiming { button_was_down: bool },
    /// Released: the arrow flies under gravity.
    InFlight,
    /// The arrow fell below the launch line and the session has ended.
    Landed,
}

/// What the frame driver observed at the start of a frame.
#[derive(Clone, Copy, Debug, PartialEq, Eq, Structural)]
pub struct FrameInput {
    /// The pointer, in window space.
    pub pointer: Point,
    /// Whether the primary button is down now.
    pub button_down: bool,
    /// Whether the pause key is down now.
    pub pause_down: bool,
}

/// What the frame driver is to do to the arrow this frame.
#[derive(Clone, Copy, Debug, PartialEq, Eq, Structural)]
pub struct FrameAction {
    /// Whether the game is paused this frame.
    pub paused: bool,
    /// Turn the arrow to `atan2(dy, dx)` of this offset; `None` keeps the angle.
    pub aim: Option<AimDelta>,
    /// Launch: set the velocity from the current angle and the launch speed.
    pub launch: bool,
    /// Advance position and velocity by one time step under gravity.
    pub integrate: bool,
}

/// One frame as a whole: what was observed at its start, and whether the
/// arrow stood below the launch line once the actions were carried out.
#[derive(Clone, Copy, Debug, PartialEq, Eq, Structural)]
pub struct Frame {
    pub input: FrameInput,
    pub below_launch: bool,
}

impl Phase {
    /// The arrow has been let go (it flies or has landed).
    pub open spec fn released(self) -> bool {
        !(self is Aiming)
    }

    /// The session is over.
    pub open spec fn ended(self) -> bool {
        self is Landed
    }
}

/// This frame shows the release edge: the button was down and is now up.
pub open spec fn release_edge(phase: Phase, input: FrameInput) -> bool {
    phase matches Phase::Aiming { button_was_down } && button_was_down && !input.button_down
}

/// The phase after the update step of a frame.
pub open spec fn next_phase(phase: Phase, input: FrameInput) -> Phase {
    match phase {
        Phase::Aiming { button_was_down } => {
            if button_was_down && !input.button_down {
                Phase::InFlight
            } else {
                Phase::Aiming { button_was_down: input.button_down }
            }
        },
        _ => phase,
    }
}

/// The aim of a frame: while aiming with the button held and the pointer in
/// the aiming region, the offset from the pointer to the launch point.
pub open spec fn aim_of(config: Config, phase: Phase, input: FrameInput) -> Option<AimDelta> {
    if phase is Aiming && input.button_down && config.aims_from(input.pointer) {
        Some(config.delta_from(input.pointer))
    } else {
        None
    }
}

/// Everything the update step asks of the frame driver.
pub open spec fn action_of(config: Config, phase: Phase, input: FrameInput) -> FrameAction {
    FrameAction {
        paused: input.pause_down,
        aim: aim_of(config, phase, input),
        launch: release_edge(phase, input),
        integrate: phase is InFlight && !input.pause_down,
    }
}

/// The phase after the ground test: the first time the arrow is below the
/// launch line the session ends.
pub open spec fn ground_phase(phase: Phase, below_launch: bool) -> Phase {
    if below_launch {
        Phase::Landed
    } else {
        phase
    }
}

/// The ground test ends the session on this frame.
pub open spec fn ends_now(phase: Phase, below_launch: bool) -> bool {
    !phase.ended() && below_launch
}

/// The phase at the end of a whole frame.
pub open spec fn after_frame(phase: Phase, frame: Frame) -> Phase {
    ground_phase(next_phase(phase, frame.input), frame.below_launch)
}

/// The phase after a run of frames.
pub open spec fn run(phase: Phase, frames: Seq<Frame>) -> Phase
    decreases frames.len(),
{
    if frames.len() == 0 {
        phase
    } else {
        run(after_frame(phase, frames[0]), frames.drop_first())
    }
}

/// The phase at the start of frame `i` of a run.
pub open spec fn phase_before(phase: Phase, frames: Seq<Frame>, i: int) -> Phase {
    run(phase, frames.take(i))
}

/// The state of a session as the contracts see it.
pub struct SimState {
    pub config: Config,
    pub phase: Phase,
    pub paused: bool,
}

/// A session: the arrow's phase and the pause state, under fixed settings.
pub struct Simulation {
    config: Config,
    phase: Phase,
    paused: bool,
}

impl View for Simulation {
    type V = SimState;

    closed spec fn view(&self) -> SimState {
        SimState { config: self.config, phase: self.phase, paused: self.paused }
    }
}

impl Simulation {
    /// A new session: the arrow rests at the launch point, not released, the
    /// button taken as up and the game not paused.
    pub fn new(config: Config) -> (s: Simulation)
        ensures
            s@.config == config,
            s@.phase == (Phase::Aiming { button_was_down: false }),
            !s@.paused,
    {
        Simulation { config, phase: Phase::Aiming { button_was_down: false }, paused: false }
    }

    /// The update step of a frame: recompute the pause state from the key,
    /// aim while the button is held, launch on the release edge, and fly
    /// unless paused. Returns what the frame driver must do to the arrow.
    pub fn update(&mut self, input: FrameInput) -> (act: FrameAction)
        ensures
            act == action_of(old(self)@.config, old(self)@.phase, input),
            final(self)@.phase == next_phase(old(self)@.phase, input),
            final(self)@.paused == input.pause_down,
            final(self)@.config == old(self)@.config,
    {
        self.paused = input.pause_down;
        let mut act = FrameAction { paused: input.pause_down, aim: None, launch: false, integrate: false };
        match self.phase {
            Phase::Aiming { button_was_down } => {
                if input.button_down && self.config.is_aim_region(input.pointer) {
                    act.aim = Some(self.config.aim_delta(input.pointer));
                }
                if button_was_down && !input.button_down {
                    act.launch = true;
                    self.phase = Phase::InFlight;
                } else {
                    self.phase = Phase::Aiming { button_was_down: input.button_down };
                }
            },
            Phase::InFlight => {
                act.integrate = !input.pause_down;
            },
            Phase::Landed => {},
        }
        act
    }

    /// The ground test that closes a frame, whether paused or not: returns
    /// true, and ends the session, the first time the arrow is below the
    /// launch line.
    pub fn observe_ground(&mut self, below_launch: bool) -> (ends: bool)
        ensures
            ends == ends_now(old(self)@.phase, below_launch),
            final(self)@.phase == ground_phase(old(self)@.phase, below_launch),
            final(self)@.paused == old(self)@.paused,
            final(self)@.config == old(self)@.config,
    {
        let ends = below_launch && !matches!(self.phase, Phase::Landed);
        if below_launch {
            self.phase = Phase::Landed;
        }
        ends
    }

    /// The settings of this session.
    pub fn config(&self) -> (c: Config)
        ensures
            c == self@.config,
    {
        self.config
    }

    /// The current phase.
    pub fn phase(&self) -> (p: Phase)
        ensures
            p == self@.phase,
    {
        self.phase
    }

    /// Whether the arrow has been released.
    pub fn is_released(&self) -> (r: bool)
        ensures
            r == self@.phase.released(),
    {
        !matches!(self.phase, Phase::Aiming { .. })
    }

    /// Whether the last frame was paused.
    pub fn is_paused(&self) -> (r: bool)
        ensures
            r == self@.paused,
    {
        self.paused
    }

    /// Whether the session has ended.
    pub fn has_ended(&self) -> (r: bool)
        ensures
            r == self@.phase.ended(),
    {
        matches!(self.phase, Phase::Landed)
    }
}

} // verus!
