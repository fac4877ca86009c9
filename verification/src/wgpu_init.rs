//! Negotiation of the surface configuration when the engine is mounted.
//!
//! The host talks to the GPU: it creates the surface, asks for an adapter
//! and a device, and reads what the surface is capable of. What it learned
//! is put before [`init_wgpu`], which picks the configuration or names the
//! step that failed.

use crate::surface::{floor_dimension, floored, SurfaceConfig, TextureFormat};
use vstd::prelude::*;

verus! {

/// How frames are handed to the display.
#[derive(Clone, Copy, Debug, PartialEq, Eq, Structural)]
pub enum PresentMode {
    /// Wait for the display where that is supported, else fall back.
    AutoVsync,
    /// Wait for the display. Every surface supports this mode.
    Fifo,
    /// Any other mode, numbered by the host.
    Other(u32),
}

/// How the alpha channel of the surface is composited.
#[derive(Clone, Copy, Debug, PartialEq, Eq, Structural)]
pub enum CompositeAlphaMode {
    /// The alpha channel is ignored.
    Opaque,
    /// Any other mode, numbered by the host.
    Other(u32),
}

/// What a surface is capable of on the adapter that was found, each list in
/// the order of the adapter's preference.
#[derive(Debug)]
pub struct SurfaceCapabilities {
    pub formats: Vec<TextureFormat>,
    pub present_modes: Vec<PresentMode>,
    pub alpha_modes: Vec<CompositeAlphaMode>,
}

/// How far the host came in talking to the GPU.
#[derive(Debug)]
pub enum GpuNegotiation {
    /// The surface could not be created; the text says why.
    SurfaceFailed(String),
    /// No adapter suits the surface.
    NoAdapter,
    /// The adapter gave no device; the text says why.
    DeviceFailed(String),
    /// Surface, adapter and device are there.
    Ready(SurfaceCapabilities),
}

/// Why no GPU device and surface configuration could be negotiated.
#[derive(Debug)]
pub enum DeviceInitError {
    /// The surface could not be created; the text says why.
    CreateSurface(String),
    /// No adapter suits the surface.
    NoAdapter,
    /// The adapter gave no device; the text says why.
    RequestDevice(String),
    /// The surface presents no texture format on this adapter.
    NoFormat,
    /// The surface offers no way to composite alpha on this adapter.
    NoAlphaMode,
}

/// The configuration that a surface is first given.
#[derive(Clone, Copy, Debug, PartialEq, Eq, Structural)]
pub struct SurfaceConfiguration {
    pub width: u32,
    pub height: u32,
    pub format: TextureFormat,
    pub present_mode: PresentMode,
    pub alpha_mode: CompositeAlphaMode,
    /// How many frames may be queued for the display.
    pub desired_maximum_frame_latency: u32,
}

impl SurfaceConfiguration {
    /// The part of the configuration that the surface manager keeps.
    pub open spec fn summary(self) -> SurfaceConfig {
        SurfaceConfig { width: self.width, height: self.height, format: self.format }
    }
}

/// The two 8-bit sRGB formats are preferred to all others.
pub open spec fn is_preferred_format(format: TextureFormat) -> bool {
    format == TextureFormat::Bgra8UnormSrgb || format == TextureFormat::Rgba8UnormSrgb
}

/// The format that is picked from a list that is not empty: the first
/// preferred one, or the first of all where none is preferred.
pub open spec fn picked_format(formats: Seq<TextureFormat>) -> TextureFormat
    recommends
        formats.len() > 0,
{
    if exists|i: int| 0 <= i < formats.len() && is_preferred_format(formats[i]) {
        let first = choose|i: int|
            0 <= i < formats.len() && is_preferred_format(formats[i]) && forall|j: int|
                0 <= j < i ==> !is_preferred_format(#[trigger] formats[j]);
        formats[first]
    } else {
        formats[0]
    }
}

/// The present mode that is picked: `AutoVsync` where it is offered, `Fifo`
/// otherwise.
pub open spec fn picked_present_mode(modes: Seq<PresentMode>) -> PresentMode {
    if modes.contains(PresentMode::AutoVsync) {
        PresentMode::AutoVsync
    } else {
        PresentMode::Fifo
    }
}

/// The alpha mode that is picked from a list that is not empty: `Opaque`
/// where it is offered, the first of all otherwise.
pub open spec fn picked_alpha_mode(modes: Seq<CompositeAlphaMode>) -> CompositeAlphaMode
    recommends
        modes.len() > 0,
{
    if modes.contains(CompositeAlphaMode::Opaque) {
        CompositeAlphaMode::Opaque
    } else {
        modes[0]
    }
}

/// The configuration that is picked for a canvas of the given size from
/// capabilities that offer at least one format and one alpha mode: the size
/// of the canvas with each dimension at least 1, and a latency of two
/// frames.
pub open spec fn picked_configuration(
    capabilities: SurfaceCapabilities,
    width: u32,
    height: u32,
) -> SurfaceConfiguration {
    SurfaceConfiguration {
        width: floored(width),
        height: floored(height),
        format: picked_format(capabilities.formats@),
        present_mode: picked_present_mode(capabilities.present_modes@),
        alpha_mode: picked_alpha_mode(capabilities.alpha_modes@),
        desired_maximum_frame_latency: 2,
    }
}

/// What [`init_wgpu`] answers to what the host learned.
pub open spec fn negotiated(negotiation: GpuNegotiation, width: u32, height: u32) -> Result<
    SurfaceConfiguration,
    DeviceInitError,
> {
    match negotiation {
        GpuNegotiation::SurfaceFailed(why) => Err(DeviceInitError::CreateSurface(why)),
        GpuNegotiation::NoAdapter => Err(DeviceInitError::NoAdapter),
        GpuNegotiation::DeviceFailed(why) => Err(DeviceInitError::RequestDevice(why)),
        GpuNegotiation::Ready(capabilities) => if capabilities.formats@.len() == 0 {
            Err(DeviceInitError::NoFormat)
        } else if capabilities.alpha_modes@.len() == 0 {
            Err(DeviceInitError::NoAlphaMode)
        } else {
            Ok(picked_configuration(capabilities, width, height))
        },
    }
}

fn pick_format(formats: &Vec<TextureFormat>) -> (r: TextureFormat)
    requires
        formats@.len() > 0,
    ensures
        r == picked_format(formats@),
{
    let mut i: usize = 0;
    while i < formats.len()
        invariant
            0 <= i <= formats@.len(),
            forall|j: int| 0 <= j < i ==> !is_preferred_format(#[trigger] formats@[j]),
        decreases formats@.len() - i,
    {
        let format = formats[i];
        let preferred = match format {
            TextureFormat::Bgra8UnormSrgb => true,
            TextureFormat::Rgba8UnormSrgb => true,
            TextureFormat::Other(_) => false,
        };
        if preferred {
            proof {
                let first = choose|k: int|
                    0 <= k < formats@.len() && is_preferred_format(formats@[k]) && forall|j: int|
                        0 <= j < k ==> !is_preferred_format(#[trigger] formats@[j]);
                assert(0 <= i < formats@.len() && is_preferred_format(formats@[i as int])
                    && forall|j: int|
                    0 <= j < i ==> !is_preferred_format(#[trigger] formats@[j]));
                assert(first == i) by {
                    if first < i {
                        assert(!is_preferred_format(formats@[first]));
                    }
                    if first > i {
                        assert(!is_preferred_format(formats@[i as int]));
                    }
                }
            }
            return format;
        }
        i += 1;
    }
    formats[0]
}

fn pick_present_mode(modes: &Vec<PresentMode>) -> (r: PresentMode)
    ensures
        r == picked_present_mode(modes@),
{
    let mut i: usize = 0;
    while i < modes.len()
        invariant
            0 <= i <= modes@.len(),
            forall|j: int| 0 <= j < i ==> modes@[j] != PresentMode::AutoVsync,
        decreases modes@.len() - i,
    {
        match modes[i] {
            PresentMode::AutoVsync => {
                return PresentMode::AutoVsync;
            },
            _ => {},
        }
        i += 1;
    }
    PresentMode::Fifo
}

fn pick_alpha_mode(modes: &Vec<CompositeAlphaMode>) -> (r: CompositeAlphaMode)
    requires
        modes@.len() > 0,
    ensures
        r == picked_alpha_mode(modes@),
{
    let mut i: usize = 0;
    while i < modes.len()
        invariant
            0 <= i <= modes@.len(),
            forall|j: int| 0 <= j < i ==> modes@[j] != CompositeAlphaMode::Opaque,
        decreases modes@.len() - i,
    {
        match modes[i] {
            CompositeAlphaMode::Opaque => {
                return CompositeAlphaMode::Opaque;
            },
            _ => {},
        }
        i += 1;
    }
    modes[0]
}

/// Picks the first configuration of a surface from what the host learned
/// from the GPU, for a canvas of the given size, or names the step of the
/// negotiation that failed.
///
/// Of the formats the first 8-bit sRGB one is taken, else the first of all;
/// of the present modes `AutoVsync` where it is offered, else `Fifo`; of the
/// alpha modes `Opaque` where it is offered, else the first of all. Each
/// dimension of the canvas is raised to at least 1.
pub fn init_wgpu(negotiation: GpuNegotiation, width: u32, height: u32) -> (r: Result<
    SurfaceConfiguration,
    DeviceInitError,
>)
    ensures
        r == negotiated(negotiation, width, height),
{
    match negotiation {
        GpuNegotiation::SurfaceFailed(why) => Err(DeviceInitError::CreateSurface(why)),
        GpuNegotiation::NoAdapter => Err(DeviceInitError::NoAdapter),
        GpuNegotiation::DeviceFailed(why) => Err(DeviceInitError::RequestDevice(why)),
        GpuNegotiation::Ready(capabilities) => {
            if capabilities.formats.len() == 0 {
                return Err(DeviceInitError::NoFormat);
            }
            if capabilities.alpha_modes.len() == 0 {
                return Err(DeviceInitError::NoAlphaMode);
            }
            Ok(
                SurfaceConfiguration {
                    width: floor_dimension(width),
                    height: floor_dimension(height),
                    format: pick_format(&capabilities.formats),
                    present_mode: pick_present_mode(&capabilities.present_modes),
                    alpha_mode: pick_alpha_mode(&capabilities.alpha_modes),
                    desired_maximum_frame_latency: 2,
                },
            )
        },
    }
}

} // verus!
