//! Freehand painting on a canvas: pointer drags are captured as polylines
//! and turned into draw commands, with every step proved against a model.

pub mod geometry;
pub mod painting;
pub mod painting_proofs;
pub mod side_panel;
