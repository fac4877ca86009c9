//! The engine as its host sees it: set up from options, mounted on a
//! canvas, started and stopped, fed with scenes, and stepped frame by frame.
//!
//! An [`Engine`] is the mode of the simulation together with the frame
//! scheduler. The host drives it from the callback of its frame clock; see
//! [`crate::frame`] for the steps of a frame.

use crate::frame::{
    ConfigError, EngineError, FramePlan, FrameScheduler, FrameTarget, MountPlan, SchedulerView,
};
use crate::payload::{instance_words, is_payload_of};
use crate::projector::is_projection;
use crate::scene::Scene;
use crate::sim::{set_mode, EngineApp, Mode};
use crate::surface::{AcquireError, SurfaceConfig};
use crate::types::Scalar;
use crate::wgpu_init::{DeviceInitError, SurfaceConfiguration};
use vstd::prelude::*;

verus! {

/// What the host asks of a new engine.
#[derive(Debug)]
pub struct EngineOptions {
    /// The identifier of the canvas to draw on.
    pub canvas_id: Option<String>,
    /// Where assets are fetched from.
    pub assets_base_url: Option<String>,
    /// Whether 2D drawing is wanted.
    pub enable_2d: bool,
    /// Whether 3D drawing is wanted.
    pub enable_3d: bool,
}

impl EngineOptions {
    /// Options that name no canvas and no place for assets, and want both
    /// 2D and 3D drawing.
    pub fn new() -> (r: EngineOptions)
        ensures
            r == (EngineOptions {
                canvas_id: None,
                assets_base_url: None,
                enable_2d: true,
                enable_3d: true,
            }),
    {
        EngineOptions { canvas_id: None, assets_base_url: None, enable_2d: true, enable_3d: true }
    }

    /// The same options, with this canvas.
    pub fn canvas_id(self, id: String) -> (r: EngineOptions)
        ensures
            r == (EngineOptions { canvas_id: Some(id), ..self }),
    {
        let mut options = self;
        options.canvas_id = Some(id);
        options
    }

    /// The same options, with this place for assets.
    pub fn assets_base_url(self, url: String) -> (r: EngineOptions)
        ensures
            r == (EngineOptions { assets_base_url: Some(url), ..self }),
    {
        let mut options = self;
        options.assets_base_url = Some(url);
        options
    }

    /// The same options, with 2D drawing wanted or not.
    pub fn enable_2d(self, v: bool) -> (r: EngineOptions)
        ensures
            r == (EngineOptions { enable_2d: v, ..self }),
    {
        let mut options = self;
        options.enable_2d = v;
        options
    }

    /// The same options, with 3D drawing wanted or not.
    pub fn enable_3d(self, v: bool) -> (r: EngineOptions)
        ensures
            r == (EngineOptions { enable_3d: v, ..self }),
    {
        let mut options = self;
        options.enable_3d = v;
        options
    }
}

/// What identifies the build of the engine: an identifier, the commit, and
/// the time of the build. It is attached when the engine is set up, for the
/// host to show, and has no effect on what the engine does.
#[derive(Debug)]
pub struct BuildInfo {
    pub id: String,
    pub sha: String,
    pub time: String,
}

/// The text that stands for a part of the build information that is not
/// known.
pub open spec fn unknown() -> Seq<char> {
    "unknown"@
}

fn or_unknown(part: Option<String>) -> (r: String)
    ensures
        r@ == (match part {
            Some(text) => text@,
            None => unknown(),
        }),
{
    match part {
        Some(text) => text,
        None => "unknown".to_owned(),
    }
}

impl BuildInfo {
    /// The build information from the parts that are known; each of the
    /// others reads `unknown`.
    pub fn new(id: Option<String>, sha: Option<String>, time: Option<String>) -> (r: BuildInfo)
        ensures
            r.id@ == (match id {
                Some(text) => text@,
                None => unknown(),
            }),
            r.sha@ == (match sha {
                Some(text) => text@,
                None => unknown(),
            }),
            r.time@ == (match time {
                Some(text) => text@,
                None => unknown(),
            }),
    {
        BuildInfo { id: or_unknown(id), sha: or_unknown(sha), time: or_unknown(time) }
    }

    /// The line that announces the build: `Ironhold build ID (SHA @ TIME)`.
    pub fn banner(&self) -> (r: String)
        ensures
            r@ == "Ironhold build "@ + self.id@ + " ("@ + self.sha@ + " @ "@ + self.time@ + ")"@,
    {
        let mut line = "Ironhold build ".to_owned();
        line.append(self.id.as_str());
        line.append(" (");
        line.append(self.sha.as_str());
        line.append(" @ ");
        line.append(self.time.as_str());
        line.append(")");
        line
    }
}

/// How the host's search for the canvas went.
#[derive(Clone, Copy, Debug, PartialEq, Eq, Structural)]
pub enum CanvasLookup {
    /// The canvas was found.
    Found,
    /// The host has no window.
    NoWindow,
    /// The window has no document.
    NoDocument,
    /// No element has the identifier.
    NotFound,
    /// The element with the identifier is no canvas.
    NotACanvas,
}

/// Whether an engine that is set up with `options` has a canvas, given how
/// the search for it went: options that name no canvas give an engine
/// without one, whatever the search says, and a search that failed gives no
/// engine.
pub open spec fn canvas_for(options: EngineOptions, lookup: CanvasLookup) -> Result<
    bool,
    ConfigError,
> {
    if options.canvas_id is None {
        Ok(false)
    } else {
        match lookup {
            CanvasLookup::Found => Ok(true),
            CanvasLookup::NoWindow => Err(ConfigError::NoWindow),
            CanvasLookup::NoDocument => Err(ConfigError::NoDocument),
            CanvasLookup::NotFound => Err(ConfigError::CanvasNotFound),
            CanvasLookup::NotACanvas => Err(ConfigError::BadCanvas),
        }
    }
}

/// What an [`Engine`] records: the options and the build information that
/// it was set up with, the mode of the simulation, and what the frame
/// scheduler records.
pub struct EngineView {
    pub options: EngineOptions,
    pub build: BuildInfo,
    pub mode: Mode,
    pub scheduler: SchedulerView,
}

impl EngineView {
    /// The engine with another scheduler; everything else stays.
    pub open spec fn with_scheduler(self, scheduler: SchedulerView) -> EngineView {
        EngineView { scheduler, ..self }
    }
}

/// A frame that failed for good after its step of the simulation.
#[derive(Debug)]
pub struct FrameFailure {
    /// The step of the simulation: the host runs the schedule of this mode
    /// on its world, once, as in a frame that does not fail.
    pub step: Mode,
    /// Why the frame failed.
    pub error: EngineError,
}

/// What the host does with a frame.
#[derive(Debug)]
pub enum FrameStep {
    /// The loop is not running: return without touching anything and ask
    /// for no other frame.
    Ignored,
    /// Carry out the plan and acquire the frame target.
    Frame(FramePlan),
    /// The frame failed for good. The loop was stopped: take the step of
    /// the simulation, report the failure and ask for no other frame.
    Failed(FrameFailure),
}

/// The engine: the mode of the simulation and the frame scheduler, with the
/// options and the build information that it was set up with.
pub struct Engine {
    app: EngineApp,
    scheduler: FrameScheduler,
    options: EngineOptions,
    build: BuildInfo,
}

impl View for Engine {
    type V = EngineView;

    closed spec fn view(&self) -> EngineView {
        EngineView {
            options: self.options,
            build: self.build,
            mode: self.app.mode,
            scheduler: self.scheduler@,
        }
    }
}

/// Sets an engine up from its options, given how the host's search for the
/// canvas went, what identifies the build, and the time on the host's clock.
///
/// The engine is in edit mode, not mounted and not running, and no scene is
/// loaded. Where the options name a canvas and the search for it failed, no
/// engine is made.
pub fn init(options: EngineOptions, lookup: CanvasLookup, build: BuildInfo, now: u64) -> (r: Result<
    Engine,
    EngineError,
>)
    ensures
        match canvas_for(options, lookup) {
            Ok(canvas) => r matches Ok(engine) && {
                &&& engine@ == (EngineView {
                    options,
                    build,
                    mode: Mode::Edit,
                    scheduler: SchedulerView::fresh(canvas, now),
                })
                &&& engine@.scheduler.wf()
            },
            Err(error) => r matches Err(EngineError::Config(reason)) && reason == error,
        },
{
    let canvas: bool = if options.canvas_id.is_none() {
        false
    } else {
        match lookup {
            CanvasLookup::Found => true,
            CanvasLookup::NoWindow => {
                return Err(EngineError::Config(ConfigError::NoWindow));
            },
            CanvasLookup::NoDocument => {
                return Err(EngineError::Config(ConfigError::NoDocument));
            },
            CanvasLookup::NotFound => {
                return Err(EngineError::Config(ConfigError::CanvasNotFound));
            },
            CanvasLookup::NotACanvas => {
                return Err(EngineError::Config(ConfigError::BadCanvas));
            },
        }
    };
    Ok(Engine { app: EngineApp::new(), scheduler: FrameScheduler::new(canvas, now), options, build })
}

impl Engine {
    /// The options that the engine was set up with.
    pub fn options(&self) -> (r: &EngineOptions)
        ensures
            *r == self@.options,
    {
        &self.options
    }

    /// What identifies the build.
    pub fn build(&self) -> (r: &BuildInfo)
        ensures
            *r == self@.build,
    {
        &self.build
    }

    /// The mode in which the next frame advances the simulation.
    pub fn mode(&self) -> (r: Mode)
        ensures
            r == self@.mode,
    {
        self.app.mode
    }

    /// The frame scheduler, for reading.
    pub fn scheduler(&self) -> (r: &FrameScheduler)
        ensures
            r@ == self@.scheduler,
    {
        &self.scheduler
    }

    /// Checks that the engine can be mounted: it fails where no canvas is
    /// bound.
    pub fn mount(&mut self) -> (r: Result<(), EngineError>)
        ensures
            *final(self) == *old(self),
            r is Ok <==> old(self)@.scheduler.canvas,
            r matches Err(error) ==> error == EngineError::Config(ConfigError::NoCanvasBound),
    {
        match self.scheduler.mount() {
            Ok(()) => Ok(()),
            Err(error) => Err(EngineError::Config(error)),
        }
    }

    /// Mounts the engine on its canvas, for which the host negotiated
    /// `device`. See [`FrameScheduler::mount_async`]. Options, build
    /// information and mode stay.
    pub fn mount_async<F: Fn(Scalar) -> Scalar>(
        &mut self,
        device: Result<SurfaceConfiguration, DeviceInitError>,
        to_radians: &F,
    ) -> (r: Result<MountPlan, EngineError>)
        requires
            forall|degrees: Scalar| call_requires(*to_radians, (degrees,)),
        ensures
            final(self)@ == old(self)@.with_scheduler(old(self)@.scheduler.mounted(device)),
            final(self)@.scheduler.wf(),
            !old(self)@.scheduler.canvas ==> {
                &&& *final(self) == *old(self)
                &&& r matches Err(EngineError::Config(ConfigError::NoCanvasBound))
            },
            old(self)@.scheduler.canvas ==> match device {
                Err(error) => r matches Err(EngineError::DeviceInit(reason)) && reason == error,
                Ok(configuration) => r matches Ok(plan) && {
                    &&& plan.configuration == (SurfaceConfiguration {
                        width: crate::surface::floored(configuration.width),
                        height: crate::surface::floored(configuration.height),
                        ..configuration
                    })
                    &&& is_projection(
                        match old(self)@.scheduler.scene {
                            Some(scene) => scene.entities@,
                            None => Seq::empty(),
                        },
                        plan.instances@,
                        *to_radians,
                    )
                },
            },
    {
        self.scheduler.mount_async(device, to_radians)
    }

    /// Fits the surface to a display of the given size. See
    /// [`FrameScheduler::reconfigure_surface`]. Options, build information
    /// and mode stay.
    pub fn reconfigure_surface(&mut self, width: u32, height: u32) -> (r: Option<SurfaceConfig>)
        ensures
            final(self)@ == old(self)@.with_scheduler(
                old(self)@.scheduler.reconfigured(width, height),
            ),
            final(self)@.scheduler.wf(),
            r == old(self)@.scheduler.surface.reconfigured(width, height).1,
    {
        self.scheduler.reconfigure_surface(width, height)
    }

    /// Starts the frame loop. See [`FrameScheduler::start`]. Options, build
    /// information and mode stay.
    pub fn start(&mut self) -> (r: Option<u64>)
        ensures
            final(self)@ == old(self)@.with_scheduler(old(self)@.scheduler.started().0),
            final(self)@.scheduler.wf(),
            r == old(self)@.scheduler.started().1,
            old(self)@.scheduler.state.running ==> *final(self) == *old(self),
    {
        self.scheduler.start()
    }

    /// Stops the frame loop. See [`FrameScheduler::stop`]. Options, build
    /// information and mode stay, and a second stop leaves the whole engine
    /// as the first one left it.
    pub fn stop(&mut self) -> (r: Option<u64>)
        ensures
            final(self)@ == old(self)@.with_scheduler(old(self)@.scheduler.stopped().0),
            final(self)@.scheduler.wf(),
            r == old(self)@.scheduler.stopped().1,
            !old(self)@.scheduler.state.running && old(self)@.scheduler.state.scheduling_handle
                is None ==> *final(self) == *old(self),
    {
        self.scheduler.stop()
    }

    /// The callback of the host's frame clock, fired at `timestamp`.
    ///
    /// Where the loop is not running the engine is not touched. Otherwise
    /// `timestamp` becomes the time of the last frame, and the frame goes on
    /// as [`Engine::tick`] says.
    pub fn on_frame<F: Fn(Scalar) -> Scalar>(&mut self, timestamp: u64, to_radians: &F) -> (r:
        FrameStep)
        requires
            forall|degrees: Scalar| call_requires(*to_radians, (degrees,)),
        ensures
            final(self)@.scheduler.wf(),
            !old(self)@.scheduler.state.running ==> {
                &&& *final(self) == *old(self)
                &&& r is Ignored
            },
            old(self)@.scheduler.state.running ==> {
                let called = old(self)@.scheduler.called_back(timestamp).0;
                &&& final(self)@ == old(self)@.with_scheduler(called.prepared())
                &&& r is Failed <==> !called.can_prepare()
                &&& !(r is Ignored)
                &&& r matches FrameStep::Frame(plan) ==> frame_plan_of(
                    old(self)@.mode,
                    called,
                    plan,
                    *to_radians,
                )
                &&& r matches FrameStep::Failed(failure) ==> failure == failed_frame(
                    old(self)@.mode,
                    called,
                )
            },
    {
        match self.scheduler.on_frame(timestamp) {
            None => FrameStep::Ignored,
            Some(elapsed) => match self.tick(elapsed, to_radians) {
                Ok(plan) => FrameStep::Frame(plan),
                Err(failure) => FrameStep::Failed(failure),
            },
        }
    }

    /// Plans one frame, `elapsed` after the last one, whether or not the
    /// loop is running.
    ///
    /// The plan names the step of the simulation, which is that of the
    /// current mode and which the host takes before anything else, and then
    /// the uploads of the frame. See [`FrameScheduler::prepare`]. Where the
    /// uploads cannot be prepared the loop has stopped, and the failure
    /// names the step all the same: the frame fails after its step.
    /// Options, build information and mode stay.
    pub fn tick<F: Fn(Scalar) -> Scalar>(&mut self, elapsed: i128, to_radians: &F) -> (r: Result<
        FramePlan,
        FrameFailure,
    >)
        requires
            forall|degrees: Scalar| call_requires(*to_radians, (degrees,)),
        ensures
            final(self)@ == old(self)@.with_scheduler(old(self)@.scheduler.prepared()),
            final(self)@.scheduler.wf(),
            r is Ok <==> old(self)@.scheduler.can_prepare(),
            r matches Ok(plan) ==> plan.step == old(self)@.mode,
            r matches Ok(plan) ==> frame_plan_of(
                old(self)@.mode,
                old(self)@.scheduler,
                plan,
                *to_radians,
            ),
            r matches Err(failure) ==> failure == failed_frame(
                old(self)@.mode,
                old(self)@.scheduler,
            ),
    {
        let step = self.app.update();
        match self.scheduler.prepare(step, to_radians) {
            Ok(plan) => Ok(plan),
            Err(error) => Err(FrameFailure { step, error }),
        }
    }

    /// Takes the report of an attempt to acquire the frame target. See
    /// [`FrameScheduler::acquire_frame_target`]. Options, build information
    /// and mode stay.
    pub fn acquire_frame_target(
        &mut self,
        attempt: Result<(), AcquireError>,
        width: u32,
        height: u32,
    ) -> (r: FrameTarget)
        ensures
            final(self)@ == old(self)@.with_scheduler(
                old(self)@.scheduler.acquired(attempt, width, height).0,
            ),
            final(self)@.scheduler.wf(),
            r.step == old(self)@.scheduler.acquired(attempt, width, height).1,
            r.step is Target ==> {
                &&& r.passes@.len() == 1
                &&& r.passes@[0].clear == crate::frame::sky()
                &&& r.passes@[0].commands@ == old(self)@.scheduler.pass_commands()
            },
            !(r.step is Target) ==> r.passes@.len() == 0,
            old(self)@.scheduler.phase != crate::frame::FramePhase::Prepared ==> *final(self)
                == *old(self),
    {
        self.scheduler.acquire_frame_target(attempt, width, height)
    }

    /// Takes the report that the device could not create an allocation. See
    /// [`FrameScheduler::report_allocation_failure`]. Options, build
    /// information and mode stay.
    pub fn report_allocation_failure(&mut self, needed_bytes: u64) -> (r: EngineError)
        ensures
            final(self)@ == old(self)@.with_scheduler(old(self)@.scheduler.allocation_failed()),
            final(self)@.scheduler.wf(),
            r == EngineError::CapacityAllocation(
                crate::buffer::CapacityAllocationError {
                    capacity_bytes: old(self)@.scheduler.instance_capacity() as u64,
                    needed_bytes,
                },
            ),
    {
        self.scheduler.report_allocation_failure(needed_bytes)
    }

    /// Ends the frame and says whether the host asks for another one. See
    /// [`FrameScheduler::finish_frame`]. Options, build information and mode
    /// stay.
    pub fn finish_frame(&mut self) -> (r: bool)
        ensures
            final(self)@ == old(self)@.with_scheduler(old(self)@.scheduler.finished().0),
            final(self)@.scheduler.wf(),
            r == old(self)@.scheduler.finished().1,
    {
        self.scheduler.finish_frame()
    }

    /// Takes the outcome of reading a scene text. A scene that was read
    /// replaces the loaded one as a whole, and nothing else changes. A
    /// failure is passed on, and the engine is left as it was.
    pub fn load_scene_from_ron(&mut self, parsed: Result<Scene, String>) -> (r: Result<
        (),
        EngineError,
    >)
        ensures
            final(self)@ == old(self)@.with_scheduler(old(self)@.scheduler.loaded(parsed)),
            final(self)@.scheduler.wf(),
            match parsed {
                Ok(_) => r is Ok,
                Err(why) => {
                    &&& *final(self) == *old(self)
                    &&& r == Err::<(), EngineError>(EngineError::SceneParse(why))
                },
            },
    {
        self.scheduler.load_scene(parsed)
    }

    /// Picks the mode in which the next frame advances the simulation: play
    /// or edit. Nothing else changes.
    pub fn set_play_mode(&mut self, play: bool)
        ensures
            final(self)@ == (EngineView {
                mode: if play {
                    Mode::Play
                } else {
                    Mode::Edit
                },
                ..old(self)@
            }),
    {
        set_mode(
            &mut self.app,
            if play {
                Mode::Play
            } else {
                Mode::Edit
            },
        );
    }
}

/// The failure of a frame in the given mode whose uploads the scheduler
/// cannot prepare: the step is that of the mode, and the instance buffer
/// could not grow to hold the instances of the scene.
pub open spec fn failed_frame(mode: Mode, scheduler: SchedulerView) -> FrameFailure {
    FrameFailure {
        step: mode,
        error: EngineError::CapacityAllocation(
            scheduler.pipeline.unwrap().refusal(
                crate::pipeline::payload_bytes(scheduler.instance_total(), 64),
            ),
        ),
    }
}

/// Whether `plan` is the plan of a frame in the given mode that is prepared
/// by a scheduler that is well-formed and can prepare it: the step of the
/// simulation is that of the mode, a target is acquired where the engine is
/// mounted, the commands are those of the upload, the instances are the
/// projection of the loaded scene, and the payload is their byte image.
pub open spec fn frame_plan_of<F: Fn(Scalar) -> Scalar>(
    mode: Mode,
    scheduler: SchedulerView,
    plan: FramePlan,
    to_radians: F,
) -> bool {
    &&& plan.step == mode
    &&& plan.acquire == scheduler.pipeline is Some
    &&& plan.commands@ == scheduler.upload_commands()
    &&& scheduler.pipeline is Some ==> is_projection(
        match scheduler.scene {
            Some(scene) => scene.entities@,
            None => Seq::empty(),
        },
        plan.instances@,
        to_radians,
    )
    &&& scheduler.pipeline is None ==> plan.instances@.len() == 0
    &&& is_payload_of(plan.payload@, instance_words(plan.instances@))
}

} // verus!
