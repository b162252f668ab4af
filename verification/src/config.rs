//! Immutable configuration values, constructed once at startup and passed
//! to the registry, the layout engine and the dispatcher.

use vstd::prelude::*;

verus! {

/// Spacing applied by the tiling layout: `inner_size` between adjacent
/// window regions, `outer_size` between a region and the screen edge.
#[derive(Clone, Copy, PartialEq, Eq, Structural, Debug)]
pub struct GapsConfig {
    pub inner_size: u16,
    pub outer_size: u16,
}

/// Window decoration settings.
#[derive(Clone, Copy, PartialEq, Eq, Structural, Debug)]
pub struct WindowConfig {
    pub border_size: u16,
    pub border_radius: u16,
    pub open_in_center_on_floating_mode: bool,
}

/// Settings for the tiling layout strategy. Absent gaps mean no spacing.
#[derive(Clone, Copy, PartialEq, Eq, Structural, Debug)]
pub struct TilingConfig {
    pub gaps_config: Option<GapsConfig>,
}

/// The whole configuration, read-only for the lifetime of the process.
#[derive(Clone, Copy, PartialEq, Eq, Structural, Debug)]
pub struct Config {
    pub tiling_config: TilingConfig,
}

impl GapsConfig {
    pub fn new(inner_size: u16, outer_size: u16) -> (r: GapsConfig)
        ensures
            r == (GapsConfig { inner_size, outer_size }),
    {
        GapsConfig { inner_size, outer_size }
    }
}

impl WindowConfig {
    pub fn new(border_size: u16, border_radius: u16, open_in_center_on_floating_mode: bool) -> (r:
        WindowConfig)
        ensures
            r == (WindowConfig { border_size, border_radius, open_in_center_on_floating_mode }),
    {
        WindowConfig { border_size, border_radius, open_in_center_on_floating_mode }
    }
}

impl TilingConfig {
    pub fn new(gaps_config: Option<GapsConfig>) -> (r: TilingConfig)
        ensures
            r == (TilingConfig { gaps_config }),
    {
        TilingConfig { gaps_config }
    }

    /// The configured gaps, if any.
    pub fn gaps_config(&self) -> (r: Option<GapsConfig>)
        ensures
            r == self.gaps_config,
    {
        self.gaps_config
    }

    /// The gaps to lay out with: the configured ones, or no spacing.
    pub fn effective_gaps(&self) -> (r: GapsConfig)
        ensures
            r == self.spec_effective_gaps(),
    {
        match self.gaps_config {
            Some(g) => g,
            None => GapsConfig { inner_size: 0, outer_size: 0 },
        }
    }

    pub open spec fn spec_effective_gaps(self) -> GapsConfig {
        match self.gaps_config {
            Some(g) => g,
            None => GapsConfig { inner_size: 0, outer_size: 0 },
        }
    }
}

impl Config {
    pub fn new(tiling_config: TilingConfig) -> (r: Config)
        ensures
            r == (Config { tiling_config }),
    {
        Config { tiling_config }
    }

    /// The tiling-layout section of the configuration.
    pub fn tiling_config(&self) -> (r: TilingConfig)
        ensures
            r == self.tiling_config,
    {
        self.tiling_config
    }
}

} // verus!
