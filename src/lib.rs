//! Initial-value problems ("setups") for a compressible-flow solver: the
//! names of the scenarios, their parameter handling, and the layout of the
//! primitive-variable buffers and face meshes that a solver receives.
mod text;

pub mod error;
pub mod form;
pub mod mesh;
pub mod params;
pub mod setup;
