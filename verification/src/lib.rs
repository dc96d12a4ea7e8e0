//! Area of the intersection of two convex polygons, by Sutherland–Hodgman
//! clipping.
//!
//! Coordinates are IEEE 754 binary64 numbers. The verifier reasons about
//! integers, so a number is carried as its 64-bit encoding ([`scalar::Scalar`]):
//! sign, zero test and order are computed on the encoding and proved, and the
//! four rounded operations are done by `rustc_apfloat`, whose results the
//! contracts name without saying what they are. What is proved is therefore
//! the clipping itself: which vertices are tested, kept, cut and summed, in
//! which order, for every input.
//!
//! [`algorithm::clip_polygons`] is the entry point.

pub mod algorithm;
pub mod common;
pub mod containment;
pub mod degeneracy;
pub mod scalar;
