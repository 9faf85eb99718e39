//! Bridges a probabilistic proof into a succinct, circuit-verifiable
//! proof: derives the ordered circuit parameters (including the draw-count
//! estimate), renders the parameterized circuit source, and plans the
//! staged external-tool pipeline with its precondition, cleanup and
//! postcondition checks.

pub mod bigint;
pub mod draws;
pub mod params;
pub mod pipeline;
pub mod render;
