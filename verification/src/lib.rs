//! The decision logic of an interactive particle-cube renderer: when the
//! drawing surface must be reconfigured, how pointer drags turn into camera
//! rotations, how uniform blocks are laid out in bytes for the GPU, and which
//! commands each animation frame issues.

pub mod surface;
pub mod pointer;
pub mod uniform;
pub mod frame;
