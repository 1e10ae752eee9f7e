//! Modes that a cloud can be drawn in.

use vstd::prelude::*;

verus! {

/// Which splats are drawn.
#[derive(Clone, Copy, Debug, Eq, Hash, PartialEq)]
pub enum DrawMode {
    All,
    Selected,
    HighlightSelected,
}

impl Default for DrawMode {
    fn default() -> (mode: Self)
        ensures
            mode == DrawMode::All,
    {
        DrawMode::All
    }
}

/// The kind of splat that a cloud holds.
#[derive(Clone, Copy, Debug, Eq, Hash, PartialEq)]
pub enum GaussianMode {
    Gaussian2d,
    Gaussian3d,
    Gaussian4d,
}

impl Default for GaussianMode {
    fn default() -> (mode: Self)
        ensures
            mode == GaussianMode::Gaussian3d,
    {
        GaussianMode::Gaussian3d
    }
}

/// The direction in which time runs for a cloud that changes.
#[derive(Clone, Copy, Debug, Eq, Hash, PartialEq)]
pub enum PlaybackMode {
    Forward,
    Reverse,
    Still,
}

impl Default for PlaybackMode {
    fn default() -> (mode: Self)
        ensures
            mode == PlaybackMode::Forward,
    {
        PlaybackMode::Forward
    }
}

/// What a drawn splat shows.
#[derive(Clone, Copy, Debug, Eq, Hash, PartialEq)]
pub enum RasterizeMode {
    Color,
    Depth,
    Normal,
}

impl Default for RasterizeMode {
    fn default() -> (mode: Self)
        ensures
            mode == RasterizeMode::Color,
    {
        RasterizeMode::Color
    }
}

} // verus!
