//! A verified model of a GUI toolkit slice: secondary-window ("viewport")
//! descriptors and commands, and a plot-axis widget that lays out an axis
//! label and tick labels. All geometry and numeric formatting is done in
//! saturating decimal fixed-point arithmetic.

pub mod axis;
pub mod fixed;
pub mod geom;
pub mod numfmt;
pub mod viewport;
