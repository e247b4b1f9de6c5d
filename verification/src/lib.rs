//! Decision logic for locating zeros of Hardy's Z-function on the critical line.
//!
//! The numerical work (evaluating the Riemann–Siegel formula, taking midpoints,
//! multiplying two values to compare their signs, Newton's update) happens
//! outside this crate. What is decided from its results is stated and proved
//! here:
//!
//! * [`bisection`]: whether a bracket holds a sign change, when the search
//!   ends, and which end of the bracket a midpoint replaces;
//! * [`newton`]: which zero index gets no estimate, and how many updates every
//!   other estimate takes;
//! * [`siegel`]: how many terms the main sum has, which sign the remainder
//!   carries, and how many correction orders are added to it.

pub mod bisection;
pub mod newton;
pub mod siegel;
