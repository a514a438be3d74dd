//! The closed set of showcases that can be selected.

use vstd::prelude::*;

verus! {

/// Identifies one showcase. Exactly one is active at any time.
///
/// `Physics` and `Tetris` can be selected like the others, but nothing is
/// drawn for them.
#[derive(PartialEq, Eq, Structural, Clone, Copy, Debug)]
pub enum DemoType {
    Triangle,
    Mandelbrot,
    Model3d,
    Physics,
    Tetris,
}

impl DemoType {
    /// Whether a showcase stands behind this selection.
    pub open spec fn is_implemented(self) -> bool {
        self == DemoType::Triangle || self == DemoType::Mandelbrot || self == DemoType::Model3d
    }

    /// Whether the showcase needs a depth buffer beside its colour target.
    pub open spec fn needs_depth(self) -> bool {
        self == DemoType::Model3d
    }
}

} // verus!
