//! Procedural noise over 1D, 2D and 3D grids: expressions built from base noise and
//! combinators, compiled for a lane width and evaluated block by block, together with
//! the rules that pick a hardware tier for the evaluation.

pub mod rng;
pub mod scalar;
pub mod unit;
pub mod noise;
pub mod node;
pub mod extremes;
pub mod pipeline;
pub mod generate;
pub mod laws;
pub mod target;
pub mod dispatch;
pub mod signature;
