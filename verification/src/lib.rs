//! Typed readings of the Curiosity (MSL/REMS) weather feed, the decisions of the
//! weather service around them, and the configuration that drives it.

pub mod mars;
