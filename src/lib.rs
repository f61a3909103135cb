//! Parametric parachute pattern design: the parts of the pipeline that work on
//! identifiers and evaluator names, formula text, point-list text, the case
//! analysis of flat gore outlines, the walk of the seam-allowance offset, and
//! the topology of the 3D preview mesh.

pub mod band;
pub mod edit;
pub mod ident;
pub mod labels;
pub mod mesh;
pub mod names;
pub mod pattern;
pub mod pointlist;
pub mod shapes;
pub mod units;
