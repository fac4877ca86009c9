//! The presentation surface: its configuration, and the recovery policy for
//! failed acquisitions of a frame target.
//!
//! The [`SurfaceManager`] never talks to the device. The host attempts an
//! acquisition, reports how it went, and performs the step that the manager
//! answers with.

use vstd::prelude::*;

verus! {

/// Why the presentation surface could not hand out a frame target.
#[derive(Clone, Copy, Debug, PartialEq, Eq, Structural)]
pub enum AcquireError {
    /// The surface was lost and has to be configured again.
    Lost,
    /// The surface no longer matches the display and has to be configured
    /// again.
    Outdated,
    /// No frame target became free in time.
    Timeout,
    /// The device has no memory left.
    OutOfMemory,
    /// Any other failure.
    Other,
}

/// The failures after which a surface is configured again.
#[derive(Clone, Copy, Debug, PartialEq, Eq, Structural)]
pub enum InvalidationReason {
    Lost,
    Outdated,
}

/// A texture format that a surface can present. The two 8-bit sRGB formats
/// are told apart from all others, which the host numbers as it sees fit.
#[derive(Clone, Copy, Debug, PartialEq, Eq, Structural)]
pub enum TextureFormat {
    Bgra8UnormSrgb,
    Rgba8UnormSrgb,
    Other(u32),
}

/// The size and format that a surface is configured with.
#[derive(Clone, Copy, Debug, PartialEq, Eq, Structural)]
pub struct SurfaceConfig {
    pub width: u32,
    pub height: u32,
    pub format: TextureFormat,
}

/// The states of a presentation surface.
#[derive(Clone, Copy, Debug, PartialEq, Eq, Structural)]
pub enum SurfaceState {
    /// No configuration was submitted yet.
    Unconfigured,
    /// The surface is configured and hands out frame targets.
    Configured { width: u32, height: u32, format: TextureFormat },
    /// An acquisition failed in a way that configuring the surface again may
    /// mend. The retry is pending.
    Invalidated(InvalidationReason),
    /// The surface failed for good. This state is never left.
    Fatal,
}

/// What the host does after reporting an acquisition attempt.
#[derive(Clone, Copy, Debug, PartialEq, Eq, Structural)]
pub enum AcquireStep {
    /// The attempt succeeded: draw to the acquired target.
    Target,
    /// Submit this configuration to the surface, attempt the acquisition once
    /// more and report that attempt.
    Retry(SurfaceConfig),
    /// Skip this frame: draw nothing, and treat it as no failure.
    Skip,
    /// The surface failed for good: stop the frame loop.
    Fatal(AcquireError),
}

/// A display dimension as a surface is configured with it: at least 1.
pub open spec fn floored(dimension: u32) -> u32 {
    if dimension >= 1 {
        dimension
    } else {
        1
    }
}

/// Clamps a display dimension to the least size that a surface accepts.
pub fn floor_dimension(dimension: u32) -> (r: u32)
    ensures
        r == floored(dimension),
{
    if dimension >= 1 {
        dimension
    } else {
        1
    }
}

/// What a [`SurfaceManager`] records: the state of the surface and the
/// configuration that was submitted last.
pub struct SurfaceManagerView {
    pub state: SurfaceState,
    pub config: Option<SurfaceConfig>,
}

impl SurfaceManagerView {
    /// The manager after the first configuration for a display of the given
    /// size, and the configuration to submit. Only an unconfigured surface
    /// takes a first configuration.
    pub open spec fn configured(self, width: u32, height: u32, format: TextureFormat) -> (
        SurfaceManagerView,
        Option<SurfaceConfig>,
    ) {
        let config = SurfaceConfig { width: floored(width), height: floored(height), format };
        match self.state {
            SurfaceState::Unconfigured => (
                SurfaceManagerView {
                    state: SurfaceState::Configured {
                        width: config.width,
                        height: config.height,
                        format,
                    },
                    config: Some(config),
                },
                Some(config),
            ),
            _ => (self, None),
        }
    }

    /// The manager after a reconfiguration for a display of the given size,
    /// and the configuration to submit. A surface that was never configured,
    /// or that failed for good, is left alone.
    pub open spec fn reconfigured(self, width: u32, height: u32) -> (
        SurfaceManagerView,
        Option<SurfaceConfig>,
    ) {
        match (self.state, self.config) {
            (SurfaceState::Configured { format, .. }, Some(_)) => {
                let config = SurfaceConfig {
                    width: floored(width),
                    height: floored(height),
                    format,
                };
                (
                    SurfaceManagerView {
                        state: SurfaceState::Configured {
                            width: config.width,
                            height: config.height,
                            format,
                        },
                        config: Some(config),
                    },
                    Some(config),
                )
            },
            (SurfaceState::Invalidated(_), Some(last)) => {
                let config = SurfaceConfig {
                    width: floored(width),
                    height: floored(height),
                    format: last.format,
                };
                (SurfaceManagerView { state: self.state, config: Some(config) }, Some(config))
            },
            _ => (self, None),
        }
    }

    /// The manager after the host reported an acquisition attempt while the
    /// display had the given size, and the step that the host takes next.
    ///
    /// On a configured surface the attempt is the first of its frame: a
    /// success yields the target, `Lost` and `Outdated` invalidate the
    /// surface and ask for one retry under a configuration of the display's
    /// size, `Timeout` skips the frame, and every other failure is fatal. On
    /// an invalidated surface the attempt is the retry: a success configures
    /// the surface again, and every failure is fatal. An unconfigured surface
    /// has no target to hand out, and the frame is skipped. A surface that
    /// failed for good stays so.
    pub open spec fn acquired(self, attempt: Result<(), AcquireError>, width: u32, height: u32) -> (
        SurfaceManagerView,
        AcquireStep,
    ) {
        match (self.state, self.config) {
            (SurfaceState::Configured { format, .. }, Some(_)) => match attempt {
                Ok(_) => (self, AcquireStep::Target),
                Err(AcquireError::Lost) => {
                    let config = SurfaceConfig {
                        width: floored(width),
                        height: floored(height),
                        format,
                    };
                    (
                        SurfaceManagerView {
                            state: SurfaceState::Invalidated(InvalidationReason::Lost),
                            config: Some(config),
                        },
                        AcquireStep::Retry(config),
                    )
                },
                Err(AcquireError::Outdated) => {
                    let config = SurfaceConfig {
                        width: floored(width),
                        height: floored(height),
                        format,
                    };
                    (
                        SurfaceManagerView {
                            state: SurfaceState::Invalidated(InvalidationReason::Outdated),
                            config: Some(config),
                        },
                        AcquireStep::Retry(config),
                    )
                },
                Err(AcquireError::Timeout) => (self, AcquireStep::Skip),
                Err(error) => (
                    SurfaceManagerView { state: SurfaceState::Fatal, config: self.config },
                    AcquireStep::Fatal(error),
                ),
            },
            (SurfaceState::Invalidated(_), Some(config)) => match attempt {
                Ok(_) => (
                    SurfaceManagerView {
                        state: SurfaceState::Configured {
                            width: config.width,
                            height: config.height,
                            format: config.format,
                        },
                        config: self.config,
                    },
                    AcquireStep::Target,
                ),
                Err(error) => (
                    SurfaceManagerView { state: SurfaceState::Fatal, config: self.config },
                    AcquireStep::Fatal(error),
                ),
            },
            (SurfaceState::Fatal, _) => (self, AcquireStep::Fatal(AcquireError::Other)),
            _ => (self, AcquireStep::Skip),
        }
    }

    /// What holds of every manager: a configured or invalidated surface has a
    /// configuration, of at least one pixel each way, and the state of a
    /// configured surface shows that configuration. An unconfigured surface
    /// has none.
    pub open spec fn wf(self) -> bool {
        match self.state {
            SurfaceState::Unconfigured => self.config is None,
            SurfaceState::Configured { width, height, format } => self.config == Some(
                SurfaceConfig { width, height, format },
            ) && width >= 1 && height >= 1,
            SurfaceState::Invalidated(_) => self.config matches Some(config) && config.width >= 1
                && config.height >= 1,
            SurfaceState::Fatal => true,
        }
    }
}

/// A surface that failed for good stays so, whatever is configured or
/// reported afterwards.
pub proof fn lemma_fatal_is_terminal(
    manager: SurfaceManagerView,
    attempt: Result<(), AcquireError>,
    width: u32,
    height: u32,
    format: TextureFormat,
)
    requires
        manager.state == SurfaceState::Fatal,
    ensures
        manager.acquired(attempt, width, height).0 == manager,
        manager.acquired(attempt, width, height).1 is Fatal,
        manager.reconfigured(width, height) == (manager, None::<SurfaceConfig>),
        manager.configured(width, height, format) == (manager, None::<SurfaceConfig>),
{
}

/// A `Lost` or `Outdated` failure on a configured surface asks for exactly
/// one reconfiguration with one retry, under the display's size with each
/// dimension at least 1. Whatever the retry reports, no second retry is
/// asked for: a failure of the retry is fatal, and a success configures the
/// surface again.
pub proof fn lemma_one_retry(
    manager: SurfaceManagerView,
    first: AcquireError,
    second: Result<(), AcquireError>,
    width: u32,
    height: u32,
    retry_width: u32,
    retry_height: u32,
)
    requires
        manager.wf(),
        manager.state is Configured,
        first == AcquireError::Lost || first == AcquireError::Outdated,
    ensures
        ({
            let (invalidated, step) = manager.acquired(Err(first), width, height);
            let (settled, outcome) = invalidated.acquired(second, retry_width, retry_height);
            &&& step matches AcquireStep::Retry(config) && config.width == floored(width)
                && config.height == floored(height) && config.width >= 1 && config.height >= 1
                && config.format == manager.config.unwrap().format
            &&& invalidated.state is Invalidated
            &&& invalidated.wf()
            &&& !(outcome is Retry)
            &&& settled.wf()
            &&& second matches Err(error) ==> settled.state == SurfaceState::Fatal && outcome
                == AcquireStep::Fatal(error)
            &&& second is Ok ==> outcome == AcquireStep::Target && settled.state == (
            SurfaceState::Configured {
                width: floored(width),
                height: floored(height),
                format: manager.config.unwrap().format,
            })
        }),
{
}

/// A `Timeout` on a configured surface skips the frame and changes nothing.
pub proof fn lemma_timeout_skips(manager: SurfaceManagerView, width: u32, height: u32)
    requires
        manager.wf(),
        manager.state is Configured,
    ensures
        manager.acquired(Err(AcquireError::Timeout), width, height) == (manager, AcquireStep::Skip),
{
}

/// Reconfiguring is idempotent: a second reconfiguration for the same
/// display size submits the same configuration and changes nothing. Where
/// the size of a configured surface already matches the display, the first
/// one changes nothing either.
pub proof fn lemma_reconfigure_idempotent(manager: SurfaceManagerView, width: u32, height: u32)
    requires
        manager.wf(),
    ensures
        ({
            let (once, submitted) = manager.reconfigured(width, height);
            &&& once.wf()
            &&& once.reconfigured(width, height) == (once, submitted)
            &&& (manager.state is Configured && manager.config == Some(
                SurfaceConfig {
                    width: floored(width),
                    height: floored(height),
                    format: manager.config.unwrap().format,
                },
            )) ==> once == manager
        }),
{
}

/// Owns the state of the presentation surface and decides how a failed
/// acquisition is recovered from.
#[derive(Clone, Copy, Debug)]
pub struct SurfaceManager {
    state: SurfaceState,
    config: Option<SurfaceConfig>,
}

impl View for SurfaceManager {
    type V = SurfaceManagerView;

    closed spec fn view(&self) -> SurfaceManagerView {
        SurfaceManagerView { state: self.state, config: self.config }
    }
}

impl SurfaceManager {
    #[verifier::type_invariant]
    closed spec fn inv(&self) -> bool {
        self@.wf()
    }

    /// The manager of a surface that no configuration was submitted to.
    pub fn new() -> (r: SurfaceManager)
        ensures
            r@ == (SurfaceManagerView { state: SurfaceState::Unconfigured, config: None }),
            r@.wf(),
    {
        SurfaceManager { state: SurfaceState::Unconfigured, config: None }
    }

    /// The state of the surface.
    pub fn state(&self) -> (r: SurfaceState)
        ensures
            r == self@.state,
            self@.wf(),
    {
        proof {
            use_type_invariant(self);
        }
        self.state
    }

    /// The configuration that was submitted last, if any.
    pub fn config(&self) -> (r: Option<SurfaceConfig>)
        ensures
            r == self@.config,
            self@.wf(),
    {
        proof {
            use_type_invariant(self);
        }
        self.config
    }

    /// Configures the surface for the first time, for a display of the given
    /// size, and hands back the configuration to submit. Where the surface
    /// was configured before, nothing changes and `None` is returned.
    pub fn configure(&mut self, width: u32, height: u32, format: TextureFormat) -> (r: Option<
        SurfaceConfig,
    >)
        ensures
            (final(self)@, r) == old(self)@.configured(width, height, format),
            final(self)@.wf(),
    {
        proof {
            use_type_invariant(&*self);
        }
        match self.state {
            SurfaceState::Unconfigured => {
                let config = SurfaceConfig {
                    width: floor_dimension(width),
                    height: floor_dimension(height),
                    format,
                };
                *self = SurfaceManager {
                    state: SurfaceState::Configured {
                        width: config.width,
                        height: config.height,
                        format,
                    },
                    config: Some(config),
                };
                Some(config)
            },
            _ => None,
        }
    }

    /// Fits the configuration to a display of the given size, each dimension
    /// at least 1, and hands back the configuration to submit. Where the
    /// surface was never configured, or failed for good, nothing changes and
    /// `None` is returned.
    pub fn reconfigure(&mut self, width: u32, height: u32) -> (r: Option<SurfaceConfig>)
        ensures
            (final(self)@, r) == old(self)@.reconfigured(width, height),
            final(self)@.wf(),
    {
        proof {
            use_type_invariant(&*self);
        }
        let last: SurfaceConfig = match self.config {
            Some(last) => last,
            None => {
                return None;
            },
        };
        let config = SurfaceConfig {
            width: floor_dimension(width),
            height: floor_dimension(height),
            format: last.format,
        };
        match self.state {
            SurfaceState::Configured { .. } => {
                *self = SurfaceManager {
                    state: SurfaceState::Configured {
                        width: config.width,
                        height: config.height,
                        format: config.format,
                    },
                    config: Some(config),
                };
                Some(config)
            },
            SurfaceState::Invalidated(reason) => {
                *self = SurfaceManager {
                    state: SurfaceState::Invalidated(reason),
                    config: Some(config),
                };
                Some(config)
            },
            _ => None,
        }
    }

    /// Takes the report of an acquisition attempt, made while the display
    /// had the given size, and answers with the step that the host takes
    /// next.
    pub fn acquire_frame_target(
        &mut self,
        attempt: Result<(), AcquireError>,
        width: u32,
        height: u32,
    ) -> (r: AcquireStep)
        ensures
            (final(self)@, r) == old(self)@.acquired(attempt, width, height),
            final(self)@.wf(),
    {
        proof {
            use_type_invariant(&*self);
        }
        let last: SurfaceConfig = match (self.state, self.config) {
            (SurfaceState::Fatal, _) => {
                return AcquireStep::Fatal(AcquireError::Other);
            },
            (_, Some(last)) => last,
            (_, None) => {
                return AcquireStep::Skip;
            },
        };
        match self.state {
            SurfaceState::Configured { .. } => match attempt {
                Ok(_) => AcquireStep::Target,
                Err(AcquireError::Lost) => self.invalidate(InvalidationReason::Lost, width, height),
                Err(AcquireError::Outdated) => self.invalidate(
                    InvalidationReason::Outdated,
                    width,
                    height,
                ),
                Err(AcquireError::Timeout) => AcquireStep::Skip,
                Err(error) => {
                    self.state = SurfaceState::Fatal;
                    AcquireStep::Fatal(error)
                },
            },
            SurfaceState::Invalidated(_) => match attempt {
                Ok(_) => {
                    self.state =
                    SurfaceState::Configured {
                        width: last.width,
                        height: last.height,
                        format: last.format,
                    };
                    AcquireStep::Target
                },
                Err(error) => {
                    self.state = SurfaceState::Fatal;
                    AcquireStep::Fatal(error)
                },
            },
            _ => AcquireStep::Skip,
        }
    }

    fn invalidate(&mut self, reason: InvalidationReason, width: u32, height: u32) -> (r:
        AcquireStep)
        requires
            old(self)@.state is Configured,
        ensures
            final(self)@.wf(),
            r == AcquireStep::Retry(
                SurfaceConfig {
                    width: floored(width),
                    height: floored(height),
                    format: old(self)@.config.unwrap().format,
                },
            ),
            final(self)@ == (SurfaceManagerView {
                state: SurfaceState::Invalidated(reason),
                config: Some(r->Retry_0),
            }),
    {
        proof {
            use_type_invariant(&*self);
        }
        let format: TextureFormat = match self.config {
            Some(last) => last.format,
            None => TextureFormat::Other(0),
        };
        let config = SurfaceConfig {
            width: floor_dimension(width),
            height: floor_dimension(height),
            format,
        };
        *self = SurfaceManager { state: SurfaceState::Invalidated(reason), config: Some(config) };
        AcquireStep::Retry(config)
    }
}

} // verus!
