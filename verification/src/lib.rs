//! A polar sky chart engine: where the sun, the moon and the planets stand
//! over the horizon, laid out as a chart whose rim is the horizon and whose
//! centre is the zenith, together with the rules by which a marker is selected
//! and its tooltip shown.
//!
//! Everything here is exact integer arithmetic. The host takes the symbolic
//! positions that this crate hands out and turns them into pixels.

pub mod errors;
pub mod geometry;
pub mod grid;
pub mod marker;
pub mod models;
pub mod projection;
pub mod ratio;
pub mod schedule;
pub mod search;
pub mod selection;
pub mod utils;
