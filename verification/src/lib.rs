//! A time-boxed, composable post-processing effect engine.
//!
//! Client code spawns effect instances (shockwaves, glitches, CRT emulation,
//! screen flashes, ...) with declarative parameters.  Every frame the engine
//! advances each instance's lifetime curve, routes live instances into
//! per-target buckets, merges simultaneous same-type instances into one
//! representative record, re-projects world-anchored effects into screen
//! space, and emits an ordered plan of full-screen compositing passes for
//! each eligible view.
//!
//! All continuous quantities (intensities, seconds, screen coordinates) are
//! carried as fixed-point integers with six decimal places (see [`fx`]), so
//! the whole pipeline is deterministic and its behaviour is stated in the
//! function contracts.

pub mod compose;
pub mod distortion;
pub mod easing;
pub mod effect;
pub mod extract;
pub mod feedback;
pub mod frame;
pub mod fx;
pub mod glitch;
pub mod lifetime;
pub mod prepare;
pub mod project;
