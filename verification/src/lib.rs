//! A small text-editor core: a cursor that walks a fixed multi-line text
//! buffer under arrow-key input, and a camera controller that pans and zooms
//! toward the cursor with a proportional (exponential-decay) follow step,
//! once per frame.
//!
//! All continuous quantities (pixel positions, camera translation and scale,
//! frame time) are fixed-point numbers with a denominator of one million, so
//! that every arithmetic step is exact and fully specified.

pub mod camera;
pub mod cursor;
pub mod fixed;
pub mod text;
