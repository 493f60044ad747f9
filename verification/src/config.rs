//! The configuration that the renderer reads.

use vstd::prelude::*;

verus! {

/// Window settings.
#[derive(Clone, Copy, Debug, PartialEq, Eq)]
pub struct WindowConfig {
    /// Requested width and height in pixels. A component of at most
    /// `RESOLUTION_THRESHOLD` marks the resolution as not set.
    pub resolution: [u32; 2],
}

/// Graphics settings.
#[derive(Clone, Copy, Debug, PartialEq, Eq, Structural)]
pub struct GraphicsConfig {
    /// Whether presentation should wait for the vertical blank.
    pub vsync: bool,
}

/// The resolved configuration. The renderer only reads it.
#[derive(Clone, Copy, Debug, PartialEq, Eq)]
pub struct Config {
    pub window: WindowConfig,
    pub graphics: GraphicsConfig,
}

/// A configured resolution counts as set only if both of its components are
/// larger than this.
pub const RESOLUTION_THRESHOLD: u32 = 240;

impl Config {
    /// Whether the configured resolution is usable as it stands.
    pub open spec fn resolution_is_set(self) -> bool {
        self.window.resolution[0] > RESOLUTION_THRESHOLD && self.window.resolution[1]
            > RESOLUTION_THRESHOLD
    }

    pub fn new(resolution: [u32; 2], vsync: bool) -> (config: Config)
        ensures
            config.window.resolution == resolution,
            config.graphics.vsync == vsync,
    {
        Config { window: WindowConfig { resolution }, graphics: GraphicsConfig { vsync } }
    }
}

} // verus!
