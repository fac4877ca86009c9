//! The simulation that a frame advances before it is drawn.
//!
//! The simulation is an entity-component world with two schedules of
//! systems, one for editing and one for playing. The world and the schedules
//! are the host's. The core keeps the mode and says, frame by frame, which
//! of the two schedules the host runs.

use vstd::prelude::*;

verus! {

/// Which of the two schedules a frame runs.
#[derive(Copy, Clone, Eq, PartialEq, Debug, Structural)]
pub enum Mode {
    Edit,
    Play,
}

/// The core's part of the simulation state: the mode in which the next
/// frame advances the simulation.
#[derive(Copy, Clone, Eq, PartialEq, Debug, Structural)]
pub struct EngineApp {
    pub mode: Mode,
}

impl EngineApp {
    /// A simulation in edit mode.
    pub fn new() -> (r: EngineApp)
        ensures
            r == (EngineApp { mode: Mode::Edit }),
    {
        EngineApp { mode: Mode::Edit }
    }

    /// The step by which the simulation advances now: the host runs the
    /// schedule of this mode on its world, once. The mode stays.
    pub fn update(&self) -> (step: Mode)
        ensures
            step == self.mode,
    {
        self.mode
    }
}

impl Default for EngineApp {
    fn default() -> (r: EngineApp)
        ensures
            r == (EngineApp { mode: Mode::Edit }),
    {
        EngineApp::new()
    }
}

/// Sets the mode in which the next frame advances the simulation.
pub fn set_mode(app: &mut EngineApp, mode: Mode)
    ensures
        *final(app) == (EngineApp { mode }),
{
    app.mode = mode;
}

} // verus!
