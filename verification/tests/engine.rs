use ironhold::buffer::BufferCommand;
use ironhold::engine::{init, BuildInfo, CanvasLookup, Engine, EngineOptions, FrameStep};
use ironhold::frame::{
    clear_color, ClearColor, ConfigError, EngineError, FrameLoopState, FramePhase,
    FrameScheduler,
};
use ironhold::pipeline::{PassCommand, PipelineKind};
use ironhold::scene::{Entity, Scene, Sprite, Transform2D};
use ironhold::sim::Mode;
use ironhold::surface::{
    AcquireError, AcquireStep, InvalidationReason, SurfaceConfig, SurfaceState, TextureFormat,
};
use ironhold::wgpu_init::{
    CompositeAlphaMode, DeviceInitError, PresentMode, SurfaceConfiguration,
};

fn to_radians(degrees: u32) -> u32 {
    f32::from_bits(degrees).to_radians().to_bits()
}

fn entity(id: u32, drawable: bool) -> Entity {
    Entity {
        id,
        name: format!("e{id}"),
        transform_2d: Some(Transform2D {
            position: ((id as f32).to_bits(), 0),
            rotation: 90.0f32.to_bits(),
            scale: (1.0f32.to_bits(), 1.0f32.to_bits()),
        }),
        transform_3d: None,
        sprite: if drawable {
            Some(Sprite {
                dimensions: (1.0f32.to_bits(), 1.0f32.to_bits()),
                color: (0, 0, 0, 1.0f32.to_bits()),
            })
        } else {
            None
        },
        mesh: None,
    }
}

fn scene(drawable: usize) -> Scene {
    let mut entities: Vec<Entity> = (0..drawable as u32).map(|id| entity(id, true)).collect();
    entities.push(entity(1000, false));
    Scene { name: format!("scene of {drawable}"), entities }
}

fn build() -> BuildInfo {
    BuildInfo::new(Some("v1".to_string()), None, Some("now".to_string()))
}

fn device(width: u32, height: u32) -> Result<SurfaceConfiguration, DeviceInitError> {
    Ok(SurfaceConfiguration {
        width,
        height,
        format: TextureFormat::Bgra8UnormSrgb,
        present_mode: PresentMode::Fifo,
        alpha_mode: CompositeAlphaMode::Opaque,
        desired_maximum_frame_latency: 2,
    })
}

fn with_canvas() -> Engine {
    let options = EngineOptions::new().canvas_id("view".to_string());
    init(options, CanvasLookup::Found, build(), 1000).unwrap()
}

fn mounted() -> Engine {
    let mut engine = with_canvas();
    engine.mount_async(device(800, 600), &to_radians).unwrap();
    engine
}

fn running(drawable: usize) -> Engine {
    let mut engine = mounted();
    engine.load_scene_from_ron(Ok(scene(drawable))).unwrap();
    engine.start().unwrap();
    engine
}

fn prepared(drawable: usize) -> Engine {
    let mut engine = running(drawable);
    assert!(matches!(engine.on_frame(1016, &to_radians), FrameStep::Frame(_)));
    engine
}

fn parse(text: &str, read: Scene) -> Result<Scene, String> {
    ron::from_str::<ron::Value>(text).map(|_| read).map_err(|error| error.to_string())
}

#[test]
fn options_are_built_step_by_step() {
    let options = EngineOptions::new();
    assert_eq!(options.canvas_id, None);
    assert_eq!(options.assets_base_url, None);
    assert!(options.enable_2d);
    assert!(options.enable_3d);
    let options =
        options.canvas_id("c".to_string()).assets_base_url("/a".to_string()).enable_2d(false);
    assert_eq!(options.canvas_id.as_deref(), Some("c"));
    assert_eq!(options.assets_base_url.as_deref(), Some("/a"));
    assert!(!options.enable_2d);
    assert!(options.enable_3d);
    let options = options.enable_3d(false).enable_2d(true);
    assert!(options.enable_2d);
    assert!(!options.enable_3d);
}

#[test]
fn build_information_defaults_to_unknown() {
    let info = BuildInfo::new(None, Some("abc1234".to_string()), None);
    assert_eq!(info.id, "unknown");
    assert_eq!(info.sha, "abc1234");
    assert_eq!(info.time, "unknown");
    assert_eq!(info.banner(), "Ironhold build unknown (abc1234 @ unknown)");
    assert_eq!(build().banner(), "Ironhold build v1 (unknown @ now)");
}

#[test]
fn init_without_a_canvas_identifier_ignores_the_lookup() {
    for lookup in [CanvasLookup::Found, CanvasLookup::NoWindow, CanvasLookup::NotFound] {
        let engine = init(EngineOptions::new(), lookup, build(), 5).unwrap();
        assert!(!engine.scheduler().has_canvas());
        assert_eq!(engine.mode(), Mode::Edit);
        assert_eq!(
            engine.scheduler().state(),
            FrameLoopState { running: false, last_timestamp: 5, scheduling_handle: None }
        );
        assert_eq!(engine.scheduler().surface_state(), SurfaceState::Unconfigured);
        assert!(engine.scheduler().current_scene().is_none());
        assert!(engine.scheduler().pipeline().is_none());
        assert_eq!(engine.scheduler().phase(), FramePhase::Idle);
    }
}

#[test]
fn init_keeps_options_and_build_information() {
    let engine = with_canvas();
    assert!(engine.scheduler().has_canvas());
    assert_eq!(engine.options().canvas_id.as_deref(), Some("view"));
    assert_eq!(engine.build().id, "v1");
}

#[test]
fn init_fails_where_the_canvas_is_not_found() {
    let cases = [
        (CanvasLookup::NoWindow, ConfigError::NoWindow),
        (CanvasLookup::NoDocument, ConfigError::NoDocument),
        (CanvasLookup::NotFound, ConfigError::CanvasNotFound),
        (CanvasLookup::NotACanvas, ConfigError::BadCanvas),
    ];
    for (lookup, expected) in cases {
        let options = EngineOptions::new().canvas_id("view".to_string());
        match init(options, lookup, build(), 0) {
            Err(EngineError::Config(error)) => assert_eq!(error, expected),
            _ => panic!("expected a configuration error"),
        }
    }
}

#[test]
fn mount_fails_without_a_canvas() {
    let mut engine = init(EngineOptions::new(), CanvasLookup::Found, build(), 0).unwrap();
    assert!(matches!(engine.mount(), Err(EngineError::Config(ConfigError::NoCanvasBound))));
    assert!(matches!(
        engine.mount_async(device(800, 600), &to_radians),
        Err(EngineError::Config(ConfigError::NoCanvasBound))
    ));
    assert_eq!(engine.scheduler().surface_state(), SurfaceState::Unconfigured);
    assert!(with_canvas().mount().is_ok());
}

#[test]
fn mount_configures_the_surface_and_creates_the_pipeline() {
    let mut engine = with_canvas();
    engine.load_scene_from_ron(Ok(scene(3))).unwrap();
    let plan = engine.mount_async(device(0, 600), &to_radians).unwrap();
    assert_eq!(plan.configuration.width, 1);
    assert_eq!(plan.configuration.height, 600);
    assert_eq!(plan.configuration.present_mode, PresentMode::Fifo);
    assert_eq!(plan.instances.len(), 3);
    assert_eq!(
        engine.scheduler().surface_state(),
        SurfaceState::Configured { width: 1, height: 600, format: TextureFormat::Bgra8UnormSrgb }
    );
    let pipeline = engine.scheduler().pipeline().unwrap();
    assert_eq!(pipeline.capacity_bytes(), 192);
    assert_eq!(pipeline.instance_count(), 3);
    assert!(!engine.scheduler().has_canvas());
    assert!(matches!(engine.mount(), Err(EngineError::Config(ConfigError::NoCanvasBound))));
}

#[test]
fn mount_without_a_scene_creates_an_empty_pipeline() {
    let mut engine = with_canvas();
    let plan = engine.mount_async(device(800, 600), &to_radians).unwrap();
    assert!(plan.instances.is_empty());
    assert_eq!(engine.scheduler().pipeline().unwrap().capacity_bytes(), 0);
}

#[test]
fn mount_without_a_device_fails_and_uses_the_canvas_up() {
    let mut engine = with_canvas();
    let result = engine.mount_async(Err(DeviceInitError::NoAdapter), &to_radians);
    assert!(matches!(result, Err(EngineError::DeviceInit(DeviceInitError::NoAdapter))));
    assert_eq!(engine.scheduler().surface_state(), SurfaceState::Unconfigured);
    assert!(engine.scheduler().pipeline().is_none());
    assert!(!engine.scheduler().has_canvas());
    assert!(!engine.scheduler().state().running);
}

#[test]
fn start_is_a_no_op_where_the_loop_runs() {
    let mut engine = mounted();
    assert_eq!(engine.start(), Some(0));
    assert_eq!(
        engine.scheduler().state(),
        FrameLoopState { running: true, last_timestamp: 1000, scheduling_handle: Some(0) }
    );
    assert_eq!(engine.start(), None);
    assert_eq!(engine.scheduler().state().scheduling_handle, Some(0));
}

#[test]
fn stop_releases_the_ticket_and_start_hands_out_the_next() {
    let mut engine = mounted();
    assert_eq!(engine.stop(), None);
    assert_eq!(engine.start(), Some(0));
    assert_eq!(engine.stop(), Some(0));
    assert_eq!(
        engine.scheduler().state(),
        FrameLoopState { running: false, last_timestamp: 1000, scheduling_handle: None }
    );
    assert_eq!(engine.stop(), None);
    assert_eq!(engine.start(), Some(1));
    assert_eq!(engine.scheduler().state().scheduling_handle, Some(1));
}

#[test]
fn scheduler_guard_reports_the_time_since_the_last_frame() {
    let mut scheduler = FrameScheduler::new(false, 1000);
    assert_eq!(scheduler.on_frame(2000), None);
    assert_eq!(scheduler.state().last_timestamp, 1000);
    scheduler.start();
    assert_eq!(scheduler.on_frame(1016), Some(16));
    assert_eq!(scheduler.state().last_timestamp, 1016);
    assert_eq!(scheduler.on_frame(1000), Some(-16));
    assert_eq!(scheduler.state().last_timestamp, 1000);
    assert_eq!(scheduler.on_frame(u64::MAX), Some(u64::MAX as i128 - 1000));
    assert_eq!(scheduler.on_frame(0), Some(-(u64::MAX as i128)));
}

#[test]
fn frame_uploads_before_it_acquires_and_draws_after() {
    let mut engine = running(3);
    let plan = match engine.on_frame(1016, &to_radians) {
        FrameStep::Frame(plan) => plan,
        _ => panic!("expected a frame"),
    };
    assert_eq!(plan.step, Mode::Edit);
    assert!(plan.acquire);
    assert_eq!(
        plan.commands,
        vec![
            BufferCommand::Allocate { generation: 1, size: 256 },
            BufferCommand::Bind { generation: 1 },
            BufferCommand::Release { generation: 0 },
            BufferCommand::Write { generation: 1, len: 192 },
        ]
    );
    assert_eq!(plan.instances.len(), 3);
    assert_eq!(plan.payload.len(), 192);
    assert_eq!(f32::from_bits(plan.instances[2].transform.t0[0]), 2.0);
    assert_eq!(plan.instances[0].transform.t0[2], 90.0f32.to_radians().to_bits());
    assert_eq!(engine.scheduler().phase(), FramePhase::Prepared);
    assert_eq!(engine.scheduler().state().last_timestamp, 1016);

    let target = engine.acquire_frame_target(Ok(()), 800, 600);
    assert_eq!(target.step, AcquireStep::Target);
    assert_eq!(target.passes.len(), 1);
    assert_eq!(target.passes[0].clear, ClearColor { red: 135, green: 206, blue: 235, alpha: 255 });
    assert_eq!(target.passes[0].clear, clear_color());
    assert_eq!(
        target.passes[0].commands,
        vec![
            PassCommand::SetPipeline(PipelineKind::Quad),
            PassCommand::SetBindGroup { index: 0, generation: 1 },
            PassCommand::Draw { instance_count: 3 },
        ]
    );
    assert_eq!(engine.scheduler().phase(), FramePhase::Idle);
    assert!(engine.finish_frame());
}

#[test]
fn second_frame_of_the_same_scene_only_writes() {
    let mut engine = prepared(3);
    engine.acquire_frame_target(Ok(()), 800, 600);
    engine.finish_frame();
    match engine.on_frame(1032, &to_radians) {
        FrameStep::Frame(plan) => {
            assert_eq!(plan.commands, vec![BufferCommand::Write { generation: 1, len: 192 }]);
        },
        _ => panic!("expected a frame"),
    }
    assert_eq!(engine.scheduler().pipeline().unwrap().capacity_bytes(), 256);
}

#[test]
fn frame_without_a_scene_uploads_nothing_and_draws_nothing() {
    let mut engine = mounted();
    engine.start();
    match engine.on_frame(1016, &to_radians) {
        FrameStep::Frame(plan) => {
            assert!(plan.acquire);
            assert!(plan.commands.is_empty());
            assert!(plan.instances.is_empty());
        },
        _ => panic!("expected a frame"),
    }
    let target = engine.acquire_frame_target(Ok(()), 800, 600);
    assert_eq!(target.step, AcquireStep::Target);
    assert_eq!(
        target.passes[0].commands,
        vec![
            PassCommand::SetPipeline(PipelineKind::Quad),
            PassCommand::SetBindGroup { index: 0, generation: 0 },
            PassCommand::Draw { instance_count: 0 },
        ]
    );
}

#[test]
fn tick_of_an_unmounted_engine_acquires_nothing() {
    let mut engine = init(EngineOptions::new(), CanvasLookup::Found, build(), 0).unwrap();
    engine.load_scene_from_ron(Ok(scene(2))).unwrap();
    let plan = engine.tick(16, &to_radians).unwrap();
    assert_eq!(plan.step, Mode::Edit);
    assert!(!plan.acquire);
    assert!(plan.commands.is_empty());
    assert!(plan.instances.is_empty());
    assert_eq!(engine.scheduler().phase(), FramePhase::Idle);
    let target = engine.acquire_frame_target(Ok(()), 800, 600);
    assert_eq!(target.step, AcquireStep::Skip);
    assert!(target.passes.is_empty());
}

#[test]
fn tick_bypasses_the_guard() {
    let mut engine = mounted();
    engine.load_scene_from_ron(Ok(scene(1))).unwrap();
    assert!(!engine.scheduler().state().running);
    let plan = engine.tick(16, &to_radians).unwrap();
    assert!(plan.acquire);
    assert_eq!(plan.instances.len(), 1);
    assert_eq!(engine.scheduler().state().last_timestamp, 1000);
    assert_eq!(engine.acquire_frame_target(Ok(()), 1, 1).step, AcquireStep::Target);
    assert!(!engine.finish_frame());
}

#[test]
fn lost_triggers_one_reconfigure_and_one_retry() {
    let mut engine = prepared(2);
    let first = engine.acquire_frame_target(Err(AcquireError::Lost), 1024, 0);
    assert_eq!(
        first.step,
        AcquireStep::Retry(SurfaceConfig {
            width: 1024,
            height: 1,
            format: TextureFormat::Bgra8UnormSrgb
        })
    );
    assert!(first.passes.is_empty());
    assert_eq!(
        engine.scheduler().surface_state(),
        SurfaceState::Invalidated(InvalidationReason::Lost)
    );
    assert!(engine.scheduler().state().running);
    let second = engine.acquire_frame_target(Ok(()), 1024, 0);
    assert_eq!(second.step, AcquireStep::Target);
    assert_eq!(second.passes.len(), 1);
    assert_eq!(
        engine.scheduler().surface_state(),
        SurfaceState::Configured { width: 1024, height: 1, format: TextureFormat::Bgra8UnormSrgb }
    );
    assert!(engine.finish_frame());
}

#[test]
fn second_failure_on_retry_is_fatal_and_the_loop_does_not_reschedule() {
    let mut engine = prepared(2);
    let first = engine.acquire_frame_target(Err(AcquireError::Lost), 800, 600);
    assert!(matches!(first.step, AcquireStep::Retry(_)));
    let second = engine.acquire_frame_target(Err(AcquireError::Lost), 800, 600);
    assert_eq!(second.step, AcquireStep::Fatal(AcquireError::Lost));
    assert!(second.passes.is_empty());
    assert_eq!(engine.scheduler().surface_state(), SurfaceState::Fatal);
    assert!(!engine.scheduler().state().running);
    assert!(!engine.finish_frame());
    assert!(matches!(engine.on_frame(1032, &to_radians), FrameStep::Ignored));
}

#[test]
fn timeout_draws_nothing_keeps_running_and_reschedules() {
    let mut engine = prepared(2);
    let before = engine.scheduler().state();
    let target = engine.acquire_frame_target(Err(AcquireError::Timeout), 800, 600);
    assert_eq!(target.step, AcquireStep::Skip);
    assert!(target.passes.is_empty());
    assert_eq!(engine.scheduler().state(), before);
    assert!(engine.scheduler().state().running);
    assert_eq!(
        engine.scheduler().surface_state(),
        SurfaceState::Configured { width: 800, height: 600, format: TextureFormat::Bgra8UnormSrgb }
    );
    assert!(engine.finish_frame());
    assert!(matches!(engine.on_frame(1032, &to_radians), FrameStep::Frame(_)));
}

#[test]
fn out_of_memory_stops_the_loop() {
    let mut engine = prepared(1);
    let target = engine.acquire_frame_target(Err(AcquireError::OutOfMemory), 800, 600);
    assert_eq!(target.step, AcquireStep::Fatal(AcquireError::OutOfMemory));
    assert!(!engine.scheduler().state().running);
    assert!(!engine.finish_frame());
    assert!(engine.scheduler().current_scene().is_some());
}

#[test]
fn malformed_scene_is_refused_and_the_loaded_scene_stays() {
    let mut engine = mounted();
    engine.load_scene_from_ron(parse("(name: \"first\", entities: [])", scene(2))).unwrap();
    let before = engine.tick(0, &to_radians).unwrap().instances.len();
    assert_eq!(before, 2);
    let refused = engine.load_scene_from_ron(parse("(name: \"broken\", entities: [", scene(5)));
    match refused {
        Err(EngineError::SceneParse(why)) => assert!(!why.is_empty()),
        _ => panic!("expected a parse error"),
    }
    assert_eq!(engine.scheduler().current_scene().unwrap().name, "scene of 2");
    let after = engine.tick(0, &to_radians).unwrap().instances.len();
    assert_eq!(after, 2);
}

#[test]
fn load_replaces_the_scene_as_a_whole() {
    let mut engine = mounted();
    assert!(engine.scheduler().current_scene().is_none());
    engine.load_scene_from_ron(Ok(scene(2))).unwrap();
    engine.load_scene_from_ron(Ok(scene(4))).unwrap();
    assert_eq!(engine.scheduler().current_scene().unwrap().entities.len(), 5);
    assert_eq!(engine.tick(0, &to_radians).unwrap().instances.len(), 4);
}

#[test]
fn late_callback_after_stop_touches_nothing() {
    let mut engine = running(3);
    engine.stop();
    let state = engine.scheduler().state();
    let capacity = engine.scheduler().pipeline().unwrap().capacity_bytes();
    let count = engine.scheduler().pipeline().unwrap().instance_count();
    assert!(matches!(engine.on_frame(5000, &to_radians), FrameStep::Ignored));
    assert_eq!(engine.scheduler().state(), state);
    assert_eq!(engine.scheduler().state().last_timestamp, 1000);
    assert_eq!(engine.scheduler().pipeline().unwrap().capacity_bytes(), capacity);
    assert_eq!(engine.scheduler().pipeline().unwrap().instance_count(), count);
    assert_eq!(engine.scheduler().pipeline().unwrap().handle(), 0);
    assert_eq!(engine.scheduler().phase(), FramePhase::Idle);
    let target = engine.acquire_frame_target(Ok(()), 800, 600);
    assert_eq!(target.step, AcquireStep::Skip);
    assert!(target.passes.is_empty());
    assert!(!engine.finish_frame());
}

#[test]
fn plan_names_the_step_of_the_current_mode() {
    let mut engine = running(1);
    engine.set_play_mode(true);
    match engine.on_frame(1016, &to_radians) {
        FrameStep::Frame(plan) => assert_eq!(plan.step, Mode::Play),
        _ => panic!("expected a frame"),
    }
    engine.acquire_frame_target(Ok(()), 800, 600);
    engine.finish_frame();
    engine.set_play_mode(false);
    assert_eq!(engine.tick(16, &to_radians).unwrap().step, Mode::Edit);
    engine.set_play_mode(true);
    assert_eq!(engine.tick(16, &to_radians).unwrap().step, Mode::Play);
    assert_eq!(engine.mode(), Mode::Play);
}

#[test]
fn second_stop_leaves_the_engine_as_the_first_left_it() {
    let mut engine = running(2);
    engine.set_play_mode(true);
    assert_eq!(engine.stop(), Some(0));
    let state = engine.scheduler().state();
    let phase = engine.scheduler().phase();
    let surface = engine.scheduler().surface_state();
    let capacity = engine.scheduler().pipeline().unwrap().capacity_bytes();
    assert_eq!(engine.stop(), None);
    assert_eq!(engine.scheduler().state(), state);
    assert_eq!(engine.scheduler().phase(), phase);
    assert_eq!(engine.scheduler().surface_state(), surface);
    assert_eq!(engine.scheduler().pipeline().unwrap().capacity_bytes(), capacity);
    assert_eq!(engine.scheduler().current_scene().unwrap().name, "scene of 2");
    assert_eq!(engine.mode(), Mode::Play);
    assert_eq!(engine.options().canvas_id.as_deref(), Some("view"));
    assert_eq!(engine.build().id, "v1");
}

#[test]
fn late_callback_takes_no_step() {
    let mut engine = running(1);
    engine.set_play_mode(true);
    engine.stop();
    assert!(matches!(engine.on_frame(5000, &to_radians), FrameStep::Ignored));
    assert_eq!(engine.mode(), Mode::Play);
}

#[test]
fn set_play_mode_switches_the_mode_only() {
    let mut engine = running(1);
    let state = engine.scheduler().state();
    engine.set_play_mode(true);
    assert_eq!(engine.mode(), Mode::Play);
    assert_eq!(engine.scheduler().state(), state);
    engine.set_play_mode(false);
    assert_eq!(engine.mode(), Mode::Edit);
}

#[test]
fn reconfigure_surface_follows_the_display() {
    let mut engine = mounted();
    assert_eq!(
        engine.reconfigure_surface(0, 300),
        Some(SurfaceConfig { width: 1, height: 300, format: TextureFormat::Bgra8UnormSrgb })
    );
    assert_eq!(
        engine.reconfigure_surface(0, 300),
        Some(SurfaceConfig { width: 1, height: 300, format: TextureFormat::Bgra8UnormSrgb })
    );
    assert_eq!(
        engine.scheduler().surface_state(),
        SurfaceState::Configured { width: 1, height: 300, format: TextureFormat::Bgra8UnormSrgb }
    );
    let mut unmounted = with_canvas();
    assert_eq!(unmounted.reconfigure_surface(800, 600), None);
}

#[test]
fn acquisition_without_a_prepared_frame_is_passed_over() {
    let mut engine = running(1);
    let target = engine.acquire_frame_target(Err(AcquireError::OutOfMemory), 800, 600);
    assert_eq!(target.step, AcquireStep::Skip);
    assert!(engine.scheduler().state().running);
    assert_eq!(
        engine.scheduler().surface_state(),
        SurfaceState::Configured { width: 800, height: 600, format: TextureFormat::Bgra8UnormSrgb }
    );
}

#[test]
fn allocation_failure_of_the_device_stops_the_loop() {
    let mut engine = prepared(3);
    let error = engine.report_allocation_failure(192);
    match error {
        EngineError::CapacityAllocation(error) => {
            assert_eq!(error.capacity_bytes, 256);
            assert_eq!(error.needed_bytes, 192);
        },
        _ => panic!("expected a capacity error"),
    }
    assert!(!engine.scheduler().state().running);
    assert_eq!(engine.scheduler().phase(), FramePhase::Idle);
    assert!(!engine.finish_frame());
    assert!(matches!(engine.on_frame(2000, &to_radians), FrameStep::Ignored));
    assert!(engine.scheduler().current_scene().is_some());
}
