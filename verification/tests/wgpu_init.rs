use ironhold::surface::TextureFormat;
use ironhold::wgpu_init::{
    init_wgpu, CompositeAlphaMode, DeviceInitError, GpuNegotiation, PresentMode,
    SurfaceCapabilities, SurfaceConfiguration,
};

fn ready(
    formats: Vec<TextureFormat>,
    present_modes: Vec<PresentMode>,
    alpha_modes: Vec<CompositeAlphaMode>,
) -> GpuNegotiation {
    GpuNegotiation::Ready(SurfaceCapabilities { formats, present_modes, alpha_modes })
}

#[test]
fn first_srgb_format_is_preferred() {
    let picked = init_wgpu(
        ready(
            vec![
                TextureFormat::Other(1),
                TextureFormat::Rgba8UnormSrgb,
                TextureFormat::Bgra8UnormSrgb,
            ],
            vec![PresentMode::Fifo, PresentMode::AutoVsync],
            vec![CompositeAlphaMode::Other(2), CompositeAlphaMode::Opaque],
        ),
        640,
        480,
    )
    .unwrap();
    assert_eq!(
        picked,
        SurfaceConfiguration {
            width: 640,
            height: 480,
            format: TextureFormat::Rgba8UnormSrgb,
            present_mode: PresentMode::AutoVsync,
            alpha_mode: CompositeAlphaMode::Opaque,
            desired_maximum_frame_latency: 2,
        }
    );
}

#[test]
fn first_of_all_is_taken_where_nothing_is_preferred() {
    let picked = init_wgpu(
        ready(
            vec![TextureFormat::Other(9), TextureFormat::Other(1)],
            vec![PresentMode::Other(4)],
            vec![CompositeAlphaMode::Other(7), CompositeAlphaMode::Other(8)],
        ),
        0,
        0,
    )
    .unwrap();
    assert_eq!(
        picked,
        SurfaceConfiguration {
            width: 1,
            height: 1,
            format: TextureFormat::Other(9),
            present_mode: PresentMode::Fifo,
            alpha_mode: CompositeAlphaMode::Other(7),
            desired_maximum_frame_latency: 2,
        }
    );
}

#[test]
fn no_present_modes_still_gives_fifo() {
    let picked = init_wgpu(
        ready(vec![TextureFormat::Bgra8UnormSrgb], vec![], vec![CompositeAlphaMode::Opaque]),
        10,
        20,
    )
    .unwrap();
    assert_eq!(picked.present_mode, PresentMode::Fifo);
    assert_eq!(picked.format, TextureFormat::Bgra8UnormSrgb);
}

#[test]
fn failures_of_the_negotiation_are_named() {
    assert!(matches!(
        init_wgpu(GpuNegotiation::SurfaceFailed("no context".to_string()), 1, 1),
        Err(DeviceInitError::CreateSurface(why)) if why == "no context"
    ));
    assert!(matches!(
        init_wgpu(GpuNegotiation::NoAdapter, 1, 1),
        Err(DeviceInitError::NoAdapter)
    ));
    assert!(matches!(
        init_wgpu(GpuNegotiation::DeviceFailed("limits".to_string()), 1, 1),
        Err(DeviceInitError::RequestDevice(why)) if why == "limits"
    ));
    assert!(matches!(
        init_wgpu(ready(vec![], vec![PresentMode::Fifo], vec![CompositeAlphaMode::Opaque]), 1, 1),
        Err(DeviceInitError::NoFormat)
    ));
    assert!(matches!(
        init_wgpu(ready(vec![TextureFormat::Other(0)], vec![PresentMode::Fifo], vec![]), 1, 1),
        Err(DeviceInitError::NoAlphaMode)
    ));
}
