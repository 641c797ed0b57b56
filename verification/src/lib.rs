//! State logic for a small interactive demo that shows a rotating cube
//! inside a panel of controls.
//!
//! The library keeps the per-frame state (a rotation angle, a flat color,
//! and an auto-rotate toggle) in plain fixed-point integers, and proves
//! that every update keeps the state within its documented ranges: the
//! rotation always stays below a full turn, and each color channel stays
//! at or below full intensity.  The surrounding application owns the
//! window and the GPU context and calls into this library once per frame.

pub mod color;
pub mod state;
