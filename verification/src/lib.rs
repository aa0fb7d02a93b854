//! Core of a frame-synchronized animation loop: a simulation state advanced by
//! discrete update ticks, steered by directional input, and periodically
//! recolored by background recompute tasks whose results arrive through a
//! non-blocking FIFO queue, at most one applied per tick.

pub mod color;
pub mod laws;
pub mod sim;
