//! Lindqvist level-ice resistance model.
//!
//! The library states the Lindqvist empirical formulas for a ship's
//! resistance in level ice over exact rational arithmetic: the three
//! component forces (crushing, bending, submersion) and the
//! speed-corrected total. Transcendental quantities (trigonometric
//! values of the hull angles, square roots) enter as rational inputs,
//! so every arithmetic step is exact and carries a proof.

pub mod constants;
pub mod lindqvist;
pub mod menu;
pub mod rational;
