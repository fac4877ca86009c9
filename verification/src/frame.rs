//! The frame scheduler: the cancellable frame loop and the order of the
//! steps of one frame.
//!
//! The scheduler owns the ledgers of everything a frame touches: the
//! surface, the quad pipeline, the loaded scene, and the state of the loop.
//! The host owns the GPU objects and the callback of its frame clock. For
//! each frame it asks the scheduler what to do, does it, and reports back:
//!
//! 1. [`FrameScheduler::on_frame`] when the callback fires: the guard.
//! 2. [`FrameScheduler::prepare`]: which step the simulation takes, and
//!    what to upload after it.
//! 3. [`FrameScheduler::acquire_frame_target`] after each attempt to
//!    acquire a frame target: what to draw, or how to recover.
//! 4. [`FrameScheduler::finish_frame`]: whether to ask for another frame.

use crate::buffer::{BufferCommand, CapacityAllocationError, ManagedBufferView};
use crate::payload::{instance_words, is_payload_of};
use crate::pipeline::{payload_bytes, quad_pass, PassCommand, QuadPipeline};
use crate::projector::{drawable, is_projection, scene_to_instances};
use crate::scene::Scene;
use crate::sim::Mode;
use crate::surface::{
    AcquireError, AcquireStep, SurfaceConfig, SurfaceManager, SurfaceManagerView, SurfaceState,
};
use crate::types::{InstanceData, Scalar};
use crate::wgpu_init::{DeviceInitError, SurfaceConfiguration};
use vstd::prelude::*;

verus! {

/// Why the engine could not be set up or mounted.
#[derive(Clone, Copy, Debug, PartialEq, Eq, Structural)]
pub enum ConfigError {
    /// The host has no window.
    NoWindow,
    /// The window has no document.
    NoDocument,
    /// No element has the identifier of the canvas.
    CanvasNotFound,
    /// The element with the identifier is no canvas.
    BadCanvas,
    /// The engine was set up without a canvas, or its canvas was used up by
    /// an earlier mount.
    NoCanvasBound,
}

/// The failures that the engine reports.
#[derive(Debug)]
pub enum EngineError {
    /// No drawable surface is bound. The caller may mend this and mount
    /// again.
    Config(ConfigError),
    /// The scene text could not be read; the text says why. The scene that
    /// was loaded before stays.
    SceneParse(String),
    /// No GPU device could be negotiated. The frame loop never starts.
    DeviceInit(DeviceInitError),
    /// A GPU buffer could not grow. The frame loop was stopped.
    CapacityAllocation(CapacityAllocationError),
}

/// The state of the frame loop.
#[derive(Clone, Copy, Debug, PartialEq, Eq, Structural)]
pub struct FrameLoopState {
    /// Whether frames are processed. An invocation of the callback that
    /// finds this `false` touches nothing.
    pub running: bool,
    /// The time of the last frame, on the host's frame clock.
    pub last_timestamp: u64,
    /// The ticket under which the host keeps the registered callback.
    pub scheduling_handle: Option<u64>,
}

/// How far the current frame has come.
#[derive(Clone, Copy, Debug, PartialEq, Eq, Structural)]
pub enum FramePhase {
    /// No frame is under way, or the current one is decided.
    Idle,
    /// The uploads of the frame were handed out; its frame target is still
    /// to be acquired.
    Prepared,
}

/// An 8-bit color with alpha.
#[derive(Clone, Copy, Debug, PartialEq, Eq, Structural)]
pub struct ClearColor {
    pub red: u8,
    pub green: u8,
    pub blue: u8,
    pub alpha: u8,
}

/// The color that a frame is cleared to before it is drawn: sky blue.
pub open spec fn sky() -> ClearColor {
    ClearColor { red: 135, green: 206, blue: 235, alpha: 255 }
}

/// The color that a frame is cleared to before it is drawn.
pub fn clear_color() -> (r: ClearColor)
    ensures
        r == sky(),
{
    ClearColor { red: 135, green: 206, blue: 235, alpha: 255 }
}

/// One render pass: the target is cleared to a color, and the commands are
/// encoded in their order.
#[derive(Debug)]
pub struct RenderPass {
    pub clear: ClearColor,
    pub commands: Vec<PassCommand>,
}

/// What the host does for a frame before it acquires the frame target: it
/// advances the simulation by one step, and then uploads.
#[derive(Debug)]
pub struct FramePlan {
    /// The step of the simulation: the host runs the schedule of this mode
    /// on its world, once, before anything is uploaded.
    pub step: Mode,
    /// Whether a frame target is to be acquired. It is not where the engine
    /// was never mounted.
    pub acquire: bool,
    /// The commands that make room for the payload and write it, in the
    /// order in which the host must execute them.
    pub commands: Vec<BufferCommand>,
    /// The instance records of the frame.
    pub instances: Vec<InstanceData>,
    /// The byte image of the instance records, which the write command of
    /// `commands` refers to.
    pub payload: Vec<u8>,
}

/// What the host does after reporting an acquisition attempt.
#[derive(Debug)]
pub struct FrameTarget {
    /// The step to take: draw, retry, skip, or stop.
    pub step: AcquireStep,
    /// The render passes to encode against the acquired target, to submit
    /// and to present: one for each active pipeline where the step is
    /// `Target`, none otherwise.
    pub passes: Vec<RenderPass>,
}

/// What the host creates when the engine is mounted.
#[derive(Debug)]
pub struct MountPlan {
    /// The configuration to submit to the surface.
    pub configuration: SurfaceConfiguration,
    /// The instance records of the scene that is loaded, if any.
    pub instances: Vec<InstanceData>,
}

/// What a [`FrameScheduler`] records.
pub struct SchedulerView {
    /// Whether a canvas is bound that no mount has used up.
    pub canvas: bool,
    pub surface: SurfaceManagerView,
    /// The instance buffer of the quad pipeline, once mounted.
    pub pipeline: Option<ManagedBufferView>,
    pub scene: Option<Scene>,
    pub state: FrameLoopState,
    /// The ticket that the next start hands out.
    pub next_handle: u64,
    pub phase: FramePhase,
}

/// The number of instances that a draw call covers for a buffer with
/// `records` records in use: all of them, as far as 32 bits count.
pub open spec fn draw_count(records: nat) -> u32 {
    if records <= u32::MAX {
        records as u32
    } else {
        u32::MAX
    }
}

impl SchedulerView {
    /// A scheduler that was never mounted and is not running, with or
    /// without a canvas, whose clock starts at `now`.
    pub open spec fn fresh(canvas: bool, now: u64) -> SchedulerView {
        SchedulerView {
            canvas,
            surface: SurfaceManagerView { state: SurfaceState::Unconfigured, config: None },
            pipeline: None,
            scene: None,
            state: FrameLoopState { running: false, last_timestamp: now, scheduling_handle: None },
            next_handle: 0,
            phase: FramePhase::Idle,
        }
    }

    /// What holds of every scheduler: the surface manager is well-formed, a
    /// surface that was configured has its pipeline, whose instance buffer
    /// is in order, a canvas that is still bound was never mounted, and a
    /// prepared frame has a pipeline to draw with.
    pub open spec fn wf(self) -> bool {
        &&& self.surface.wf()
        &&& self.pipeline matches Some(instances) ==> {
            &&& instances.record_size == 64
            &&& instances.bound
            &&& instances.logical_length * 64 <= instances.capacity_bytes
            &&& instances.capacity_bytes <= u64::MAX
            &&& instances.handle < 59
        }
        &&& !(self.surface.state is Unconfigured) ==> self.pipeline is Some
        &&& self.canvas ==> self.surface.state is Unconfigured
        &&& self.phase == FramePhase::Prepared ==> self.pipeline is Some
    }

    /// The number of instance records that the loaded scene projects to.
    pub open spec fn instance_total(self) -> nat {
        match self.scene {
            Some(scene) => drawable(scene.entities@).len(),
            None => 0,
        }
    }

    /// The scheduler after `start`, and the ticket handed out: a running
    /// loop is left alone.
    pub open spec fn started(self) -> (SchedulerView, Option<u64>) {
        if self.state.running {
            (self, None)
        } else {
            (
                SchedulerView {
                    state: FrameLoopState {
                        running: true,
                        scheduling_handle: Some(self.next_handle),
                        ..self.state
                    },
                    next_handle: if self.next_handle == u64::MAX {
                        0
                    } else {
                        (self.next_handle + 1) as u64
                    },
                    ..self
                },
                Some(self.next_handle),
            )
        }
    }

    /// The scheduler after `stop`, and the ticket released.
    pub open spec fn stopped(self) -> (SchedulerView, Option<u64>) {
        (
            SchedulerView {
                state: FrameLoopState { running: false, scheduling_handle: None, ..self.state },
                ..self
            },
            self.state.scheduling_handle,
        )
    }

    /// The scheduler after the callback fired at `timestamp`, and the time
    /// since the last frame: a loop that is not running is left alone.
    pub open spec fn called_back(self, timestamp: u64) -> (SchedulerView, Option<i128>) {
        if self.state.running {
            (
                SchedulerView {
                    state: FrameLoopState { last_timestamp: timestamp, ..self.state },
                    ..self
                },
                Some((timestamp - self.state.last_timestamp) as i128),
            )
        } else {
            (self, None)
        }
    }

    /// The scheduler after the outcome of reading a scene text was put
    /// before it: a scene that was read replaces the loaded one, a failure
    /// changes nothing.
    pub open spec fn loaded(self, parsed: Result<Scene, String>) -> SchedulerView {
        match parsed {
            Ok(scene) => SchedulerView { scene: Some(scene), ..self },
            Err(_) => self,
        }
    }

    /// Whether the uploads of a frame can be prepared: the instance buffer
    /// can make room for the instances of the scene.
    pub open spec fn can_prepare(self) -> bool {
        self.pipeline matches Some(instances) ==> self.scene is Some ==> instances.can_hold(
            64 * self.instance_total(),
        )
    }

    /// The scheduler after the uploads of a frame were prepared. Where the
    /// engine was never mounted nothing changes. Where no scene is loaded
    /// nothing is uploaded. Where the instance buffer cannot make room the
    /// loop stops.
    pub open spec fn prepared(self) -> SchedulerView {
        match self.pipeline {
            None => self,
            Some(instances) => if self.scene is None {
                SchedulerView { phase: FramePhase::Prepared, ..self }
            } else if instances.can_hold(64 * self.instance_total()) {
                SchedulerView {
                    pipeline: Some(instances.uploaded(64 * self.instance_total())),
                    phase: FramePhase::Prepared,
                    ..self
                }
            } else {
                SchedulerView {
                    state: FrameLoopState { running: false, ..self.state },
                    phase: FramePhase::Idle,
                    ..self
                }
            },
        }
    }

    /// The commands of the uploads of a frame.
    pub open spec fn upload_commands(self) -> Seq<BufferCommand> {
        match self.pipeline {
            Some(instances) if self.scene is Some => instances.upload_commands(
                64 * self.instance_total(),
            ),
            _ => Seq::empty(),
        }
    }

    /// The scheduler after the host reported an acquisition attempt, and the
    /// step that the host takes next. Without a prepared frame there is
    /// nothing to acquire a target for, and the report is passed over.
    /// Otherwise the surface manager decides; a target, a skip and a
    /// failure for good each end the frame, and a failure for good stops
    /// the loop.
    pub open spec fn acquired(self, attempt: Result<(), AcquireError>, width: u32, height: u32) -> (
        SchedulerView,
        AcquireStep,
    ) {
        if self.phase != FramePhase::Prepared {
            (self, AcquireStep::Skip)
        } else {
            let (surface, step) = self.surface.acquired(attempt, width, height);
            match step {
                AcquireStep::Retry(_) => (SchedulerView { surface, ..self }, step),
                AcquireStep::Fatal(_) => (
                    SchedulerView {
                        surface,
                        state: FrameLoopState { running: false, ..self.state },
                        phase: FramePhase::Idle,
                        ..self
                    },
                    step,
                ),
                _ => (SchedulerView { surface, phase: FramePhase::Idle, ..self }, step),
            }
        }
    }

    /// The scheduler after the host reported that the device could not
    /// create an allocation: the loop stops, and the frame is over.
    pub open spec fn allocation_failed(self) -> SchedulerView {
        SchedulerView {
            state: FrameLoopState { running: false, ..self.state },
            phase: FramePhase::Idle,
            ..self
        }
    }

    /// The capacity of the instance buffer, or zero before the mount.
    pub open spec fn instance_capacity(self) -> nat {
        match self.pipeline {
            Some(instances) => instances.capacity_bytes,
            None => 0,
        }
    }

    /// The commands of the one render pass of a frame.
    pub open spec fn pass_commands(self) -> Seq<PassCommand> {
        match self.pipeline {
            Some(instances) => quad_pass(instances, draw_count(instances.logical_length)),
            None => Seq::empty(),
        }
    }

    /// The scheduler after the frame was finished, and whether the host
    /// asks for another frame: it does while the loop is running.
    pub open spec fn finished(self) -> (SchedulerView, bool) {
        (SchedulerView { phase: FramePhase::Idle, ..self }, self.state.running)
    }
}

impl SchedulerView {
    /// The scheduler after a mount for which the host negotiated `device`.
    /// Without a canvas nothing changes. Otherwise the canvas is used up,
    /// and where a device was negotiated the surface is configured and the
    /// quad pipeline is created holding the instances of the loaded scene.
    pub open spec fn mounted(
        self,
        device: Result<SurfaceConfiguration, DeviceInitError>,
    ) -> SchedulerView {
        if !self.canvas {
            self
        } else {
            match device {
                Err(_) => SchedulerView { canvas: false, ..self },
                Ok(configuration) => SchedulerView {
                    canvas: false,
                    surface: self.surface.configured(
                        configuration.width,
                        configuration.height,
                        configuration.format,
                    ).0,
                    pipeline: Some(
                        ManagedBufferView {
                            capacity_bytes: 64 * self.instance_total(),
                            logical_length: self.instance_total(),
                            record_size: 64,
                            handle: 0,
                            bound: true,
                        },
                    ),
                    ..self
                },
            }
        }
    }

    /// The scheduler after its surface was fitted to a display of the given
    /// size.
    pub open spec fn reconfigured(self, width: u32, height: u32) -> SchedulerView {
        SchedulerView { surface: self.surface.reconfigured(width, height).0, ..self }
    }
}

/// Owns the state of the frame loop and sequences the steps of a frame.
#[derive(Debug)]
pub struct FrameScheduler {
    canvas: bool,
    surface: SurfaceManager,
    pipeline: Option<QuadPipeline>,
    current_scene: Option<Scene>,
    state: FrameLoopState,
    next_handle: u64,
    phase: FramePhase,
}

impl View for FrameScheduler {
    type V = SchedulerView;

    closed spec fn view(&self) -> SchedulerView {
        SchedulerView {
            canvas: self.canvas,
            surface: self.surface@,
            pipeline: match self.pipeline {
                Some(pipeline) => Some(pipeline@),
                None => None,
            },
            scene: self.current_scene,
            state: self.state,
            next_handle: self.next_handle,
            phase: self.phase,
        }
    }
}

impl FrameScheduler {
    #[verifier::type_invariant]
    closed spec fn inv(&self) -> bool {
        self@.wf()
    }

    /// A scheduler that was never mounted and is not running, with or
    /// without a canvas, whose clock starts at `now`.
    pub fn new(canvas: bool, now: u64) -> (r: FrameScheduler)
        ensures
            r@.wf(),
            r@ == SchedulerView::fresh(canvas, now),
    {
        FrameScheduler {
            canvas,
            surface: SurfaceManager::new(),
            pipeline: None,
            current_scene: None,
            state: FrameLoopState { running: false, last_timestamp: now, scheduling_handle: None },
            next_handle: 0,
            phase: FramePhase::Idle,
        }
    }

    /// The state of the frame loop.
    pub fn state(&self) -> (r: FrameLoopState)
        ensures
            r == self@.state,
            self@.wf(),
    {
        proof {
            use_type_invariant(self);
        }
        self.state
    }

    /// How far the current frame has come.
    pub fn phase(&self) -> (r: FramePhase)
        ensures
            r == self@.phase,
    {
        self.phase
    }

    /// Whether a canvas is bound that no mount has used up.
    pub fn has_canvas(&self) -> (r: bool)
        ensures
            r == self@.canvas,
    {
        self.canvas
    }

    /// The state of the presentation surface.
    pub fn surface_state(&self) -> (r: SurfaceState)
        ensures
            r == self@.surface.state,
    {
        self.surface.state()
    }

    /// The scene that is loaded, if any.
    pub fn current_scene(&self) -> (r: Option<&Scene>)
        ensures
            r == (match self@.scene {
                Some(scene) => Some(&scene),
                None => None,
            }),
    {
        self.current_scene.as_ref()
    }

    /// The quad pipeline, once mounted.
    pub fn pipeline(&self) -> (r: Option<&QuadPipeline>)
        ensures
            r matches Some(pipeline) ==> self@.pipeline == Some(pipeline@),
            r is None ==> self@.pipeline is None,
    {
        self.pipeline.as_ref()
    }

    /// Checks that a canvas is bound to mount the engine on.
    pub fn mount(&self) -> (r: Result<(), ConfigError>)
        ensures
            r == (if self@.canvas {
                Ok::<(), ConfigError>(())
            } else {
                Err::<(), ConfigError>(ConfigError::NoCanvasBound)
            }),
    {
        if self.canvas {
            Ok(())
        } else {
            Err(ConfigError::NoCanvasBound)
        }
    }

    /// Mounts the engine on its canvas, for which the host negotiated
    /// `device`.
    ///
    /// Without a canvas the mount fails and nothing changes. Otherwise the
    /// canvas is used up. Where no device was negotiated the mount fails
    /// with the reason. Where one was, the surface is configured with it,
    /// the quad pipeline is created holding the instances that the loaded
    /// scene projects to, and both are handed back for the host to create
    /// them on the GPU.
    pub fn mount_async<F: Fn(Scalar) -> Scalar>(
        &mut self,
        device: Result<SurfaceConfiguration, DeviceInitError>,
        to_radians: &F,
    ) -> (r: Result<MountPlan, EngineError>)
        requires
            forall|degrees: Scalar| call_requires(*to_radians, (degrees,)),
        ensures
            final(self)@.wf(),
            final(self)@ == old(self)@.mounted(device),
            !old(self)@.canvas ==> {
                &&& *final(self) == *old(self)
                &&& r matches Err(EngineError::Config(ConfigError::NoCanvasBound))
            },
            old(self)@.canvas ==> match device {
                Err(error) => r matches Err(EngineError::DeviceInit(reason)) && reason == error,
                Ok(configuration) => r matches Ok(plan) && {
                    &&& plan.configuration == (SurfaceConfiguration {
                        width: crate::surface::floored(configuration.width),
                        height: crate::surface::floored(configuration.height),
                        ..configuration
                    })
                    &&& is_projection(
                        match old(self)@.scene {
                            Some(scene) => scene.entities@,
                            None => Seq::empty(),
                        },
                        plan.instances@,
                        *to_radians,
                    )
                },
            },
    {
        proof {
            use_type_invariant(&*self);
        }
        if !self.canvas {
            return Err(EngineError::Config(ConfigError::NoCanvasBound));
        }
        self.canvas = false;
        let configuration: SurfaceConfiguration = match device {
            Ok(configuration) => configuration,
            Err(error) => {
                return Err(EngineError::DeviceInit(error));
            },
        };
        let instances: Vec<InstanceData> = match &self.current_scene {
            Some(scene) => scene_to_instances(scene, to_radians),
            None => {
                proof {
                    reveal(Seq::filter);
                }
                Vec::new()
            },
        };
        self.pipeline = Some(QuadPipeline::new(&instances));
        let mut surface = self.surface;
        let submitted = surface.configure(
            configuration.width,
            configuration.height,
            configuration.format,
        );
        self.surface = surface;
        let submitted: SurfaceConfig = submitted.unwrap();
        Ok(
            MountPlan {
                configuration: SurfaceConfiguration {
                    width: submitted.width,
                    height: submitted.height,
                    ..configuration
                },
                instances,
            },
        )
    }

    /// Fits the configuration of the surface to a display of the given size
    /// and hands back the configuration to submit, or `None` where the
    /// surface was never configured or failed for good. See
    /// [`SurfaceManager::reconfigure`].
    pub fn reconfigure_surface(&mut self, width: u32, height: u32) -> (r: Option<SurfaceConfig>)
        ensures
            final(self)@.wf(),
            final(self)@ == old(self)@.reconfigured(width, height),
            r == old(self)@.surface.reconfigured(width, height).1,
    {
        proof {
            use_type_invariant(&*self);
        }
        let mut surface = self.surface;
        let r = surface.reconfigure(width, height);
        self.surface = surface;
        r
    }

    /// Starts the frame loop. Where it is running nothing changes and
    /// `None` is returned. Otherwise the loop runs, and the ticket is
    /// returned under which the host registers its callback.
    pub fn start(&mut self) -> (r: Option<u64>)
        ensures
            final(self)@.wf(),
            (final(self)@, r) == old(self)@.started(),
            old(self)@.state.running ==> *final(self) == *old(self),
    {
        proof {
            use_type_invariant(&*self);
        }
        if self.state.running {
            return None;
        }
        let ticket: u64 = self.next_handle;
        self.state =
        FrameLoopState {
            running: true,
            last_timestamp: self.state.last_timestamp,
            scheduling_handle: Some(ticket),
        };
        self.next_handle =
        if ticket == u64::MAX {
            0
        } else {
            ticket + 1
        };
        Some(ticket)
    }

    /// Stops the frame loop and releases the ticket of the callback, which
    /// is returned so that the host can let go of the callback. Nothing is
    /// waited for: a callback that is already queued finds the loop
    /// stopped.
    pub fn stop(&mut self) -> (r: Option<u64>)
        ensures
            final(self)@.wf(),
            (final(self)@, r) == old(self)@.stopped(),
            !old(self)@.state.running && old(self)@.state.scheduling_handle is None ==> *final(self)
                == *old(self),
    {
        proof {
            use_type_invariant(&*self);
        }
        let released = self.state.scheduling_handle;
        self.state =
        FrameLoopState {
            running: false,
            last_timestamp: self.state.last_timestamp,
            scheduling_handle: None,
        };
        released
    }

    /// Takes the outcome of reading a scene text. A scene that was read
    /// replaces the loaded one as a whole. A failure is passed on, and the
    /// scene that was loaded before stays untouched.
    pub fn load_scene(&mut self, parsed: Result<Scene, String>) -> (r: Result<(), EngineError>)
        ensures
            final(self)@.wf(),
            final(self)@ == old(self)@.loaded(parsed),
            match parsed {
                Ok(_) => r is Ok,
                Err(why) => {
                    &&& *final(self) == *old(self)
                    &&& r == Err::<(), EngineError>(EngineError::SceneParse(why))
                },
            },
    {
        proof {
            use_type_invariant(&*self);
        }
        match parsed {
            Ok(scene) => {
                self.current_scene = Some(scene);
                Ok(())
            },
            Err(why) => Err(EngineError::SceneParse(why)),
        }
    }

    /// The guard of the callback. Where the loop is not running nothing is
    /// touched and `None` is returned: the frame must not be processed.
    /// Otherwise the time since the last frame is returned and `timestamp`
    /// becomes the time of the last frame.
    pub fn on_frame(&mut self, timestamp: u64) -> (r: Option<i128>)
        ensures
            final(self)@.wf(),
            (final(self)@, r) == old(self)@.called_back(timestamp),
            !old(self)@.state.running ==> *final(self) == *old(self),
    {
        proof {
            use_type_invariant(&*self);
        }
        if !self.state.running {
            return None;
        }
        let elapsed: i128 = timestamp as i128 - self.state.last_timestamp as i128;
        self.state =
        FrameLoopState {
            running: true,
            last_timestamp: timestamp,
            scheduling_handle: self.state.scheduling_handle,
        };
        Some(elapsed)
    }

    /// Plans a frame whose simulation advances by `step`, and prepares its
    /// uploads.
    ///
    /// The plan names the step, which the host takes first. Where the engine
    /// was never mounted nothing changes and nothing is to be acquired.
    /// Where no scene is loaded nothing is uploaded. Otherwise the scene is
    /// projected, room is made for its instances, and their byte image is
    /// written: the commands come in this order. Where no room can be made
    /// the loop stops and the failure is returned in place of a plan.
    pub fn prepare<F: Fn(Scalar) -> Scalar>(&mut self, step: Mode, to_radians: &F) -> (r: Result<
        FramePlan,
        EngineError,
    >)
        requires
            forall|degrees: Scalar| call_requires(*to_radians, (degrees,)),
        ensures
            final(self)@.wf(),
            final(self)@ == old(self)@.prepared(),
            r is Ok <==> old(self)@.can_prepare(),
            r matches Ok(plan) ==> {
                &&& plan.step == step
                &&& plan.acquire == old(self)@.pipeline is Some
                &&& plan.commands@ == old(self)@.upload_commands()
                &&& old(self)@.pipeline is Some ==> is_projection(
                    match old(self)@.scene {
                        Some(scene) => scene.entities@,
                        None => Seq::empty(),
                    },
                    plan.instances@,
                    *to_radians,
                )
                &&& is_payload_of(plan.payload@, instance_words(plan.instances@))
                &&& old(self)@.pipeline is None ==> {
                    &&& *final(self) == *old(self)
                    &&& plan.instances@.len() == 0
                }
            },
            r matches Err(error) ==> error == EngineError::CapacityAllocation(
                old(self)@.pipeline.unwrap().refusal(payload_bytes(old(self)@.instance_total(), 64)),
            ),
    {
        proof {
            use_type_invariant(&*self);
            reveal(Seq::filter);
        }
        let mut pipeline: QuadPipeline = match &self.pipeline {
            Some(pipeline) => pipeline.snapshot(),
            None => {
                let instances: Vec<InstanceData> = Vec::new();
                let payload = crate::payload::instance_payload(&instances);
                return Ok(
                    FramePlan { step, acquire: false, commands: Vec::new(), instances, payload },
                );
            },
        };
        let instances: Vec<InstanceData> = match &self.current_scene {
            Some(scene) => scene_to_instances(scene, to_radians),
            None => {
                let instances: Vec<InstanceData> = Vec::new();
                let payload = crate::payload::instance_payload(&instances);
                self.phase = FramePhase::Prepared;
                return Ok(
                    FramePlan { step, acquire: true, commands: Vec::new(), instances, payload },
                );
            },
        };
        let mut commands: Vec<BufferCommand> = match pipeline.ensure_capacity(&instances) {
            Ok(commands) => commands,
            Err(error) => {
                self.phase = FramePhase::Idle;
                self.state =
                FrameLoopState {
                    running: false,
                    last_timestamp: self.state.last_timestamp,
                    scheduling_handle: self.state.scheduling_handle,
                };
                return Err(EngineError::CapacityAllocation(error));
            },
        };
        let ghost before = old(self)@.pipeline.unwrap();
        let ghost total = old(self)@.instance_total();
        assert(instances@.len() == total);
        let upload = pipeline.update_instances(&instances).unwrap();
        commands.push(upload.command);
        proof {
            assert((64 * total) / 64 == total) by (nonlinear_arith);
            assert(pipeline@ == before.uploaded(64 * total));
            assert(commands@ == before.upload_commands(64 * total));
        }
        self.pipeline = Some(pipeline);
        self.phase = FramePhase::Prepared;
        Ok(FramePlan { step, acquire: true, commands, instances, payload: upload.payload })
    }

    /// Takes the report that the device could not create an allocation of
    /// `needed_bytes` bytes that a frame asked for. The failure is fatal: the
    /// loop stops, the frame is over, and nothing smaller is tried. The
    /// failure is handed back for the host to report.
    pub fn report_allocation_failure(&mut self, needed_bytes: u64) -> (r: EngineError)
        ensures
            final(self)@.wf(),
            final(self)@ == old(self)@.allocation_failed(),
            r == EngineError::CapacityAllocation(
                CapacityAllocationError {
                    capacity_bytes: old(self)@.instance_capacity() as u64,
                    needed_bytes,
                },
            ),
    {
        proof {
            use_type_invariant(&*self);
        }
        let capacity_bytes: u64 = match &self.pipeline {
            Some(pipeline) => pipeline.capacity_bytes(),
            None => 0,
        };
        self.phase = FramePhase::Idle;
        self.state =
        FrameLoopState {
            running: false,
            last_timestamp: self.state.last_timestamp,
            scheduling_handle: self.state.scheduling_handle,
        };
        EngineError::CapacityAllocation(CapacityAllocationError { capacity_bytes, needed_bytes })
    }

    /// Takes the report of an attempt to acquire the frame target of the
    /// prepared frame, made while the display had the given size, and
    /// answers with the step that the host takes next.
    ///
    /// For a target, the one render pass of the quad pipeline is handed
    /// back: the host encodes it against the target, submits and presents.
    /// For every other step there is nothing to draw.
    pub fn acquire_frame_target(
        &mut self,
        attempt: Result<(), AcquireError>,
        width: u32,
        height: u32,
    ) -> (r: FrameTarget)
        ensures
            final(self)@.wf(),
            (final(self)@, r.step) == old(self)@.acquired(attempt, width, height),
            r.step is Target ==> {
                &&& r.passes@.len() == 1
                &&& r.passes@[0].clear == sky()
                &&& r.passes@[0].commands@ == old(self)@.pass_commands()
            },
            !(r.step is Target) ==> r.passes@.len() == 0,
            old(self)@.phase != FramePhase::Prepared ==> *final(self) == *old(self),
    {
        proof {
            use_type_invariant(&*self);
        }
        match self.phase {
            FramePhase::Idle => {
                return FrameTarget { step: AcquireStep::Skip, passes: Vec::new() };
            },
            FramePhase::Prepared => {},
        }
        let mut surface = self.surface;
        let step = surface.acquire_frame_target(attempt, width, height);
        let mut passes: Vec<RenderPass> = Vec::new();
        match step {
            AcquireStep::Retry(_) => {
                self.surface = surface;
            },
            AcquireStep::Fatal(_) => {
                self.surface = surface;
                self.state =
                FrameLoopState {
                    running: false,
                    last_timestamp: self.state.last_timestamp,
                    scheduling_handle: self.state.scheduling_handle,
                };
                self.phase = FramePhase::Idle;
            },
            AcquireStep::Skip => {
                self.surface = surface;
                self.phase = FramePhase::Idle;
            },
            AcquireStep::Target => {
                self.surface = surface;
                match &self.pipeline {
                    Some(pipeline) => {
                        let records: u64 = pipeline.instance_count();
                        let count: u32 = if records <= u32::MAX as u64 {
                            records as u32
                        } else {
                            u32::MAX
                        };
                        passes.push(
                            RenderPass { clear: clear_color(), commands: pipeline.draw(count) },
                        );
                    },
                    None => {},
                }
                self.phase = FramePhase::Idle;
            },
        }
        FrameTarget { step, passes }
    }

    /// Ends the frame and says whether the host asks for another one: it
    /// does while the loop is running.
    pub fn finish_frame(&mut self) -> (r: bool)
        ensures
            final(self)@.wf(),
            (final(self)@, r) == old(self)@.finished(),
    {
        proof {
            use_type_invariant(&*self);
        }
        self.phase = FramePhase::Idle;
        self.state.running
    }
}

/// Stopping is idempotent: a second stop releases no ticket and leaves the
/// scheduler as the first one left it.
pub proof fn lemma_stop_is_idempotent(scheduler: SchedulerView)
    ensures
        scheduler.stopped().0.stopped() == (scheduler.stopped().0, None::<u64>),
{
}

/// A callback that fires after the loop was stopped finds the guard closed:
/// whatever the scheduler held before the stop and whenever the callback
/// fires, the frame is not processed and nothing changes.
pub proof fn lemma_late_callback_is_inert(scheduler: SchedulerView, timestamp: u64)
    ensures
        scheduler.stopped().0.called_back(timestamp) == (scheduler.stopped().0, None::<i128>),
        !scheduler.stopped().0.finished().1,
{
}

/// A `Timeout` of the first attempt of a prepared frame skips the frame:
/// no render pass is handed out, the surface, the buffers and the state of
/// the loop stay as they are, and the host asks for another frame exactly
/// where the loop was running.
pub proof fn lemma_timeout_skips_frame(scheduler: SchedulerView, width: u32, height: u32)
    requires
        scheduler.wf(),
        scheduler.phase == FramePhase::Prepared,
        scheduler.surface.state is Configured,
    ensures
        ({
            let (after, step) = scheduler.acquired(Err(AcquireError::Timeout), width, height);
            &&& step == AcquireStep::Skip
            &&& after == (SchedulerView { phase: FramePhase::Idle, ..scheduler })
            &&& after.finished().1 == scheduler.state.running
        }),
{
}

/// A `Lost` or `Outdated` failure of the first attempt of a prepared frame
/// asks for exactly one reconfiguration with one retry and leaves the loop
/// as it is. Whatever the retry reports, no second retry is asked for. A
/// failure of the retry is fatal: the surface has failed for good, the loop
/// is stopped, and the host asks for no other frame. A success of the retry
/// yields the target, and the loop is left as it was.
pub proof fn lemma_lost_retries_once(
    scheduler: SchedulerView,
    first: AcquireError,
    second: Result<(), AcquireError>,
    width: u32,
    height: u32,
    retry_width: u32,
    retry_height: u32,
)
    requires
        scheduler.wf(),
        scheduler.phase == FramePhase::Prepared,
        scheduler.surface.state is Configured,
        first == AcquireError::Lost || first == AcquireError::Outdated,
    ensures
        ({
            let (invalidated, step) = scheduler.acquired(Err(first), width, height);
            let (settled, outcome) = invalidated.acquired(second, retry_width, retry_height);
            &&& step == AcquireStep::Retry(
                SurfaceConfig {
                    width: crate::surface::floored(width),
                    height: crate::surface::floored(height),
                    format: scheduler.surface.config.unwrap().format,
                },
            )
            &&& invalidated.wf()
            &&& invalidated.state == scheduler.state
            &&& invalidated.pipeline == scheduler.pipeline
            &&& !(outcome is Retry)
            &&& settled.wf()
            &&& second matches Err(error) ==> {
                &&& outcome == AcquireStep::Fatal(error)
                &&& settled.surface.state == SurfaceState::Fatal
                &&& !settled.state.running
                &&& !settled.finished().1
            }
            &&& second is Ok ==> {
                &&& outcome == AcquireStep::Target
                &&& settled.surface.state is Configured
                &&& settled.state == scheduler.state
            }
        }),
{
}

/// Only a failure for good stops the loop, and it always does: after every
/// other step the state of the loop and the loaded scene are what they
/// were.
pub proof fn lemma_only_fatal_stops(
    scheduler: SchedulerView,
    attempt: Result<(), AcquireError>,
    width: u32,
    height: u32,
)
    ensures
        ({
            let (after, step) = scheduler.acquired(attempt, width, height);
            &&& step is Fatal ==> !after.state.running
            &&& !(step is Fatal) ==> after.state == scheduler.state
            &&& after.scene == scheduler.scene
            &&& after.pipeline == scheduler.pipeline
        }),
{
}

/// Every failure for good stops the loop, once and for all frames to come:
/// after a failed acquisition, a failed growth and a failed allocation the
/// loop is not running, the callback is passed over, and the host asks for
/// no other frame.
pub proof fn lemma_fatal_stops_the_loop(
    scheduler: SchedulerView,
    attempt: Result<(), AcquireError>,
    width: u32,
    height: u32,
    timestamp: u64,
)
    ensures
        scheduler.acquired(attempt, width, height).1 is Fatal ==> stopped_for_good(
            scheduler.acquired(attempt, width, height).0,
            timestamp,
        ),
        !scheduler.can_prepare() ==> stopped_for_good(scheduler.prepared(), timestamp),
        stopped_for_good(scheduler.allocation_failed(), timestamp),
{
}

/// Whether the loop of `scheduler` is stopped: it is not running, a
/// callback at `timestamp` is passed over, and no other frame is asked for.
pub open spec fn stopped_for_good(scheduler: SchedulerView, timestamp: u64) -> bool {
    &&& !scheduler.state.running
    &&& scheduler.called_back(timestamp) == (scheduler, None::<i128>)
    &&& !scheduler.finished().1
}

/// The loaded scene is replaced as a whole by a load and is otherwise never
/// touched: whatever is started, stopped, mounted, prepared, acquired or
/// reported, the scene stays the one that was loaded.
pub proof fn lemma_scene_changes_on_load_only(
    scheduler: SchedulerView,
    attempt: Result<(), AcquireError>,
    device: Result<SurfaceConfiguration, DeviceInitError>,
    width: u32,
    height: u32,
    timestamp: u64,
)
    ensures
        scheduler.started().0.scene == scheduler.scene,
        scheduler.stopped().0.scene == scheduler.scene,
        scheduler.called_back(timestamp).0.scene == scheduler.scene,
        scheduler.mounted(device).scene == scheduler.scene,
        scheduler.reconfigured(width, height).scene == scheduler.scene,
        scheduler.prepared().scene == scheduler.scene,
        scheduler.acquired(attempt, width, height).0.scene == scheduler.scene,
        scheduler.allocation_failed().scene == scheduler.scene,
        scheduler.finished().0.scene == scheduler.scene,
{
}

/// A scene text that could not be read leaves the loaded scene untouched:
/// the scheduler is what it was, and so is every frame prepared from it.
pub proof fn lemma_failed_load_keeps_scene(scheduler: SchedulerView, why: String)
    ensures
        scheduler.loaded(Err(why)) == scheduler,
        scheduler.loaded(Err(why)).prepared() == scheduler.prepared(),
        scheduler.loaded(Err(why)).upload_commands() == scheduler.upload_commands(),
{
}

} // verus!
