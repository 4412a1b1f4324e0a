//! Normalisation of raw tablet and stylus samples into a uniform pointer model.

pub mod event;
pub mod fixed_point;
pub mod opts;
pub mod range;
pub mod registry;
pub mod tablet;
mod text;
pub mod valuators;
