use ironhold::surface::{
    floor_dimension, AcquireError, AcquireStep, InvalidationReason, SurfaceConfig, SurfaceManager,
    SurfaceState, TextureFormat,
};

fn configured(width: u32, height: u32) -> SurfaceManager {
    let mut manager = SurfaceManager::new();
    manager.configure(width, height, TextureFormat::Bgra8UnormSrgb).unwrap();
    manager
}

#[test]
fn dimensions_are_floored_at_one() {
    assert_eq!(floor_dimension(0), 1);
    assert_eq!(floor_dimension(1), 1);
    assert_eq!(floor_dimension(1920), 1920);
    assert_eq!(floor_dimension(u32::MAX), u32::MAX);
}

#[test]
fn a_new_surface_is_unconfigured() {
    let manager = SurfaceManager::new();
    assert_eq!(manager.state(), SurfaceState::Unconfigured);
    assert_eq!(manager.config(), None);
}

#[test]
fn first_configure_configures() {
    let mut manager = SurfaceManager::new();
    let submitted = manager.configure(800, 0, TextureFormat::Rgba8UnormSrgb);
    let expected =
        SurfaceConfig { width: 800, height: 1, format: TextureFormat::Rgba8UnormSrgb };
    assert_eq!(submitted, Some(expected));
    assert_eq!(
        manager.state(),
        SurfaceState::Configured { width: 800, height: 1, format: TextureFormat::Rgba8UnormSrgb }
    );
    assert_eq!(manager.config(), Some(expected));
}

#[test]
fn second_configure_changes_nothing() {
    let mut manager = configured(800, 600);
    assert_eq!(manager.configure(10, 10, TextureFormat::Other(3)), None);
    assert_eq!(
        manager.state(),
        SurfaceState::Configured { width: 800, height: 600, format: TextureFormat::Bgra8UnormSrgb }
    );
}

#[test]
fn success_yields_the_target_and_keeps_the_state() {
    let mut manager = configured(800, 600);
    assert_eq!(manager.acquire_frame_target(Ok(()), 1024, 768), AcquireStep::Target);
    assert_eq!(
        manager.state(),
        SurfaceState::Configured { width: 800, height: 600, format: TextureFormat::Bgra8UnormSrgb }
    );
}

#[test]
fn lost_asks_for_one_retry_under_the_display_size() {
    let mut manager = configured(800, 600);
    let step = manager.acquire_frame_target(Err(AcquireError::Lost), 1024, 0);
    assert_eq!(
        step,
        AcquireStep::Retry(SurfaceConfig {
            width: 1024,
            height: 1,
            format: TextureFormat::Bgra8UnormSrgb
        })
    );
    assert_eq!(manager.state(), SurfaceState::Invalidated(InvalidationReason::Lost));
    assert_eq!(manager.acquire_frame_target(Ok(()), 5, 5), AcquireStep::Target);
    assert_eq!(
        manager.state(),
        SurfaceState::Configured { width: 1024, height: 1, format: TextureFormat::Bgra8UnormSrgb }
    );
}

#[test]
fn outdated_asks_for_one_retry_too() {
    let mut manager = configured(800, 600);
    let step = manager.acquire_frame_target(Err(AcquireError::Outdated), 0, 0);
    assert_eq!(
        step,
        AcquireStep::Retry(SurfaceConfig {
            width: 1,
            height: 1,
            format: TextureFormat::Bgra8UnormSrgb
        })
    );
    assert_eq!(manager.state(), SurfaceState::Invalidated(InvalidationReason::Outdated));
}

#[test]
fn a_failed_retry_is_fatal_whatever_the_failure() {
    for second in [
        AcquireError::Lost,
        AcquireError::Outdated,
        AcquireError::Timeout,
        AcquireError::OutOfMemory,
        AcquireError::Other,
    ] {
        let mut manager = configured(800, 600);
        let first = manager.acquire_frame_target(Err(AcquireError::Lost), 800, 600);
        assert!(matches!(first, AcquireStep::Retry(_)));
        let step = manager.acquire_frame_target(Err(second), 800, 600);
        assert_eq!(step, AcquireStep::Fatal(second));
        assert_eq!(manager.state(), SurfaceState::Fatal);
    }
}

#[test]
fn timeout_skips_and_changes_nothing() {
    let mut manager = configured(800, 600);
    assert_eq!(
        manager.acquire_frame_target(Err(AcquireError::Timeout), 1024, 768),
        AcquireStep::Skip
    );
    assert_eq!(
        manager.state(),
        SurfaceState::Configured { width: 800, height: 600, format: TextureFormat::Bgra8UnormSrgb }
    );
    assert_eq!(manager.acquire_frame_target(Ok(()), 1024, 768), AcquireStep::Target);
}

#[test]
fn out_of_memory_and_other_failures_are_fatal_at_once() {
    for error in [AcquireError::OutOfMemory, AcquireError::Other] {
        let mut manager = configured(800, 600);
        assert_eq!(
            manager.acquire_frame_target(Err(error), 800, 600),
            AcquireStep::Fatal(error)
        );
        assert_eq!(manager.state(), SurfaceState::Fatal);
    }
}

#[test]
fn fatal_is_never_left() {
    let mut manager = configured(800, 600);
    manager.acquire_frame_target(Err(AcquireError::OutOfMemory), 800, 600);
    assert_eq!(
        manager.acquire_frame_target(Ok(()), 800, 600),
        AcquireStep::Fatal(AcquireError::Other)
    );
    assert_eq!(manager.state(), SurfaceState::Fatal);
    assert_eq!(manager.reconfigure(10, 10), None);
    assert_eq!(manager.state(), SurfaceState::Fatal);
    assert_eq!(manager.configure(10, 10, TextureFormat::Other(1)), None);
    assert_eq!(manager.state(), SurfaceState::Fatal);
}

#[test]
fn an_unconfigured_surface_skips() {
    let mut manager = SurfaceManager::new();
    assert_eq!(manager.acquire_frame_target(Ok(()), 800, 600), AcquireStep::Skip);
    assert_eq!(
        manager.acquire_frame_target(Err(AcquireError::Lost), 800, 600),
        AcquireStep::Skip
    );
    assert_eq!(manager.state(), SurfaceState::Unconfigured);
    assert_eq!(manager.reconfigure(800, 600), None);
}

#[test]
fn reconfigure_is_idempotent() {
    let mut manager = configured(800, 600);
    let once = manager.reconfigure(0, 300);
    let state = manager.state();
    let twice = manager.reconfigure(0, 300);
    assert_eq!(
        once,
        Some(SurfaceConfig { width: 1, height: 300, format: TextureFormat::Bgra8UnormSrgb })
    );
    assert_eq!(once, twice);
    assert_eq!(manager.state(), state);
    assert_eq!(
        state,
        SurfaceState::Configured { width: 1, height: 300, format: TextureFormat::Bgra8UnormSrgb }
    );
}

#[test]
fn reconfigure_with_unchanged_size_submits_the_same_configuration() {
    let mut manager = configured(800, 600);
    let submitted = manager.reconfigure(800, 600);
    assert_eq!(
        submitted,
        Some(SurfaceConfig { width: 800, height: 600, format: TextureFormat::Bgra8UnormSrgb })
    );
    assert_eq!(
        manager.state(),
        SurfaceState::Configured { width: 800, height: 600, format: TextureFormat::Bgra8UnormSrgb }
    );
}
